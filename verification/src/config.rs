//! Connection settings, their validity, and the refresh period they ask for.

use vstd::prelude::*;

verus! {

/// Refresh period, in seconds, used when no usable period is configured.
pub const DEFAULT_REFRESH_INTERVAL: u64 = 60;

/// Credentials and polling period for the usage API.
#[derive(Debug, PartialEq, Eq)]
pub struct ApiConfig {
    pub token: String,
    pub organization: String,
    pub project: String,
    /// Seconds between two automatic refreshes; a usable period is at least 1.
    pub refresh_interval: u64,
}

impl Clone for ApiConfig {
    fn clone(&self) -> (copy: Self)
        ensures
            copy == *self,
    {
        ApiConfig {
            token: self.token.clone(),
            organization: self.organization.clone(),
            project: self.project.clone(),
            refresh_interval: self.refresh_interval,
        }
    }
}

impl Default for ApiConfig {
    /// Empty credentials and the default period.
    fn default() -> (config: Self)
        ensures
            config.token@.len() == 0,
            config.organization@.len() == 0,
            config.project@.len() == 0,
            config.refresh_interval == DEFAULT_REFRESH_INTERVAL,
    {
        ApiConfig {
            token: String::new(),
            organization: String::new(),
            project: String::new(),
            refresh_interval: DEFAULT_REFRESH_INTERVAL,
        }
    }
}

/// True when every credential field is non-empty.
pub open spec fn config_valid(config: ApiConfig) -> bool {
    &&& config.token@.len() > 0
    &&& config.organization@.len() > 0
    &&& config.project@.len() > 0
}

/// Checks that every credential field is filled in.
pub fn is_config_valid(config: &ApiConfig) -> (valid: bool)
    ensures
        valid == config_valid(*config),
{
    !config.token.as_str().is_empty() && !config.organization.as_str().is_empty()
        && !config.project.as_str().is_empty()
}

/// The period that a configuration asks for: its own where it is at least one
/// second, else `fallback`.
pub open spec fn effective_interval(config: Option<ApiConfig>, fallback: u64) -> u64 {
    match config {
        Some(c) => if c.refresh_interval >= 1 {
            c.refresh_interval
        } else {
            fallback
        },
        None => fallback,
    }
}

/// Picks the refresh period: the configured one where a configuration is
/// present and its period is at least one second, else `fallback`.
pub fn refresh_interval_or(config: &Option<ApiConfig>, fallback: u64) -> (seconds: u64)
    ensures
        seconds == effective_interval(*config, fallback),
{
    match config {
        Some(c) => if c.refresh_interval >= 1 {
            c.refresh_interval
        } else {
            fallback
        },
        None => fallback,
    }
}

} // verus!
