//! Judging what came back from the usage endpoint. Sending the request and
//! decoding the body are the caller's part; what a status means, and how each
//! failure is worded, is decided here.

use crate::config::{config_valid, is_config_valid, ApiConfig};
use crate::error::FetchError;
use vstd::prelude::*;
use vstd::string::*;

verus! {

/// The step of a request at which the transport failed.
#[derive(Debug, Clone, Copy, PartialEq, Eq, Structural)]
pub enum NetworkStage {
    /// The HTTP client could not be built.
    BuildClient,
    /// The request could not be sent.
    Send,
    /// The body of the answer could not be read.
    ReadBody,
}

impl NetworkStage {
    /// The words that introduce a failure at this step.
    pub open spec fn prefix_text(&self) -> Seq<char> {
        match self {
            NetworkStage::BuildClient => "创建客户端失败: "@,
            NetworkStage::Send => "请求失败: "@,
            NetworkStage::ReadBody => "读取响应失败: "@,
        }
    }
}

/// The failure for a transport error at `stage`, worded from the transport's
/// own description of it.
pub fn network_failure(stage: NetworkStage, detail: &str) -> (error: FetchError)
    ensures
        error matches FetchError::NetworkFailure(text) && text@ == stage.prefix_text() + detail@,
{
    let mut text = match stage {
        NetworkStage::BuildClient => String::from_str("创建客户端失败: "),
        NetworkStage::Send => String::from_str("请求失败: "),
        NetworkStage::ReadBody => String::from_str("读取响应失败: "),
    };
    text.append(detail);
    FetchError::NetworkFailure(text)
}

/// A status counts as success from 200 to 299.
pub open spec fn status_is_success(status: u16) -> bool {
    200 <= status < 300
}

/// What an answer's status means for its body: the body is to be decoded
/// where the status is a success; 401 is a rejected credential; any other
/// status is an API error that carries the status and the body.
pub open spec fn judge_status(status: u16, body: String) -> Result<String, FetchError> {
    if status_is_success(status) {
        Ok(body)
    } else if status == 401 {
        Err(FetchError::Unauthorized)
    } else {
        Err(FetchError::ApiError { code: status, body })
    }
}

/// Judges an answer by its status, before its body is decoded.
pub fn check_status(status: u16, body: String) -> (checked: Result<String, FetchError>)
    ensures
        checked == judge_status(status, body),
{
    if 200 <= status && status < 300 {
        Ok(body)
    } else if status == 401 {
        Err(FetchError::Unauthorized)
    } else {
        Err(FetchError::ApiError { code: status, body })
    }
}

/// Checks a configuration before a connection test: every credential field
/// must be filled in.
pub fn check_connection_config(config: &ApiConfig) -> (checked: Result<(), String>)
    ensures
        checked is Ok <==> config_valid(*config),
        checked matches Err(text) ==> text@ == "请填写完整的配置信息"@,
{
    if is_config_valid(config) {
        Ok(())
    } else {
        Err(String::from_str("请填写完整的配置信息"))
    }
}

} // verus!
