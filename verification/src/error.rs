//! Why a refresh cycle failed, and the text shown for each failure.

use crate::text::{decimal, to_decimal};
use vstd::prelude::*;
use vstd::string::*;

verus! {

/// A failure reported by one call of the usage fetcher.
#[derive(Debug, PartialEq, Eq)]
pub enum FetchError {
    /// The credential was rejected (status 401).
    Unauthorized,
    /// The request could not be built or sent, or its answer could not be read.
    NetworkFailure(String),
    /// The answer was received but is not a usage reading.
    ParseFailure { reason: String, body: String },
    /// The service answered with a status outside 2xx, other than 401.
    ApiError { code: u16, body: String },
}

/// A failure of one refresh cycle.
#[derive(Debug, PartialEq, Eq)]
pub enum RefreshError {
    /// No configuration is stored.
    NotConfigured,
    /// A credential field of the stored configuration is empty.
    InvalidConfiguration,
    /// The credential was rejected (status 401).
    Unauthorized,
    /// The request could not be built or sent, or its answer could not be read.
    NetworkFailure(String),
    /// The answer was received but is not a usage reading.
    ParseFailure { reason: String, body: String },
    /// The service answered with a status outside 2xx, other than 401.
    ApiError { code: u16, body: String },
}

impl Clone for FetchError {
    fn clone(&self) -> (copy: Self)
        ensures
            copy == *self,
    {
        match self {
            FetchError::Unauthorized => FetchError::Unauthorized,
            FetchError::NetworkFailure(detail) => FetchError::NetworkFailure(detail.clone()),
            FetchError::ParseFailure { reason, body } => FetchError::ParseFailure {
                reason: reason.clone(),
                body: body.clone(),
            },
            FetchError::ApiError { code, body } => FetchError::ApiError {
                code: *code,
                body: body.clone(),
            },
        }
    }
}

impl Clone for RefreshError {
    fn clone(&self) -> (copy: Self)
        ensures
            copy == *self,
    {
        match self {
            RefreshError::NotConfigured => RefreshError::NotConfigured,
            RefreshError::InvalidConfiguration => RefreshError::InvalidConfiguration,
            RefreshError::Unauthorized => RefreshError::Unauthorized,
            RefreshError::NetworkFailure(detail) => RefreshError::NetworkFailure(detail.clone()),
            RefreshError::ParseFailure { reason, body } => RefreshError::ParseFailure {
                reason: reason.clone(),
                body: body.clone(),
            },
            RefreshError::ApiError { code, body } => RefreshError::ApiError {
                code: *code,
                body: body.clone(),
            },
        }
    }
}

/// The cycle failure that a fetcher failure becomes.
pub open spec fn refresh_error_of(error: FetchError) -> RefreshError {
    match error {
        FetchError::Unauthorized => RefreshError::Unauthorized,
        FetchError::NetworkFailure(detail) => RefreshError::NetworkFailure(detail),
        FetchError::ParseFailure { reason, body } => RefreshError::ParseFailure { reason, body },
        FetchError::ApiError { code, body } => RefreshError::ApiError { code, body },
    }
}

impl RefreshError {
    /// Classifies a fetcher failure as a cycle failure of the same kind.
    pub fn from_fetch(error: FetchError) -> (classified: RefreshError)
        ensures
            classified == refresh_error_of(error),
    {
        match error {
            FetchError::Unauthorized => RefreshError::Unauthorized,
            FetchError::NetworkFailure(detail) => RefreshError::NetworkFailure(detail),
            FetchError::ParseFailure { reason, body } => RefreshError::ParseFailure {
                reason,
                body,
            },
            FetchError::ApiError { code, body } => RefreshError::ApiError { code, body },
        }
    }

    /// The text of this failure.
    pub open spec fn message_text(&self) -> Seq<char> {
        match self {
            RefreshError::NotConfigured => "not configured"@,
            RefreshError::InvalidConfiguration => "incomplete configuration"@,
            RefreshError::Unauthorized => "Token 已过期或无效，请更新配置"@,
            RefreshError::NetworkFailure(detail) => detail@,
            RefreshError::ParseFailure { reason, body } => "解析响应失败: "@ + reason@
                + " | 响应内容: "@ + body@,
            RefreshError::ApiError { code, body } => "API 错误 ("@ + decimal(*code as nat) + "): "@
                + body@,
        }
    }

    /// Renders this failure as the text that is shown to the user.
    pub fn message(&self) -> (text: String)
        ensures
            text@ == self.message_text(),
    {
        match self {
            RefreshError::NotConfigured => String::from_str("not configured"),
            RefreshError::InvalidConfiguration => String::from_str("incomplete configuration"),
            RefreshError::Unauthorized => String::from_str("Token 已过期或无效，请更新配置"),
            RefreshError::NetworkFailure(detail) => detail.clone(),
            RefreshError::ParseFailure { reason, body } => {
                let mut text = String::from_str("解析响应失败: ");
                text.append(reason.as_str());
                text.append(" | 响应内容: ");
                text.append(body.as_str());
                text
            },
            RefreshError::ApiError { code, body } => {
                let mut text = String::from_str("API 错误 (");
                let digits = to_decimal(*code as u64);
                text.append(digits.as_str());
                text.append("): ");
                text.append(body.as_str());
                text
            },
        }
    }
}

} // verus!
