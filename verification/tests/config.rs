use glm_usage_tray::config::{
    is_config_valid, refresh_interval_or, ApiConfig, DEFAULT_REFRESH_INTERVAL,
};

fn config(token: &str, organization: &str, project: &str) -> ApiConfig {
    ApiConfig {
        token: token.to_string(),
        organization: organization.to_string(),
        project: project.to_string(),
        refresh_interval: 60,
    }
}

#[test]
fn default_config_is_empty_with_default_interval() {
    let c = ApiConfig::default();
    assert_eq!(c.token, "");
    assert_eq!(c.organization, "");
    assert_eq!(c.project, "");
    assert_eq!(c.refresh_interval, 60);
    assert_eq!(DEFAULT_REFRESH_INTERVAL, 60);
    assert!(!is_config_valid(&c));
}

#[test]
fn config_with_all_credentials_is_valid() {
    assert!(is_config_valid(&config("t", "o", "p")));
    assert!(is_config_valid(&config(" ", " ", " ")));
}

#[test]
fn config_with_any_empty_credential_is_invalid() {
    assert!(!is_config_valid(&config("", "o", "p")));
    assert!(!is_config_valid(&config("t", "", "p")));
    assert!(!is_config_valid(&config("t", "o", "")));
    assert!(!is_config_valid(&config("", "", "")));
}

#[test]
fn validity_ignores_the_interval() {
    let mut c = config("t", "o", "p");
    c.refresh_interval = 0;
    assert!(is_config_valid(&c));
}

#[test]
fn interval_choice() {
    let mut c = config("", "", "");
    c.refresh_interval = 15;
    assert_eq!(refresh_interval_or(&Some(c.clone()), 60), 15);
    c.refresh_interval = 0;
    assert_eq!(refresh_interval_or(&Some(c.clone()), 60), 60);
    c.refresh_interval = u64::MAX;
    assert_eq!(refresh_interval_or(&Some(c), 60), u64::MAX);
    assert_eq!(refresh_interval_or(&None, 42), 42);
}

#[test]
fn config_clone_is_equal() {
    let c = config("t", "o", "p");
    assert_eq!(c.clone(), c);
}
