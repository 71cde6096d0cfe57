use glm_usage_tray::config::ApiConfig;
use glm_usage_tray::error::{FetchError, RefreshError};
use glm_usage_tray::fetch::{check_connection_config, check_status, network_failure, NetworkStage};

#[test]
fn success_statuses_hand_the_body_on() {
    assert_eq!(check_status(200, "{}".to_string()), Ok("{}".to_string()));
    assert_eq!(check_status(204, String::new()), Ok(String::new()));
    assert_eq!(check_status(299, "x".to_string()), Ok("x".to_string()));
}

#[test]
fn status_401_is_unauthorized() {
    assert_eq!(check_status(401, "denied".to_string()), Err(FetchError::Unauthorized));
}

#[test]
fn other_statuses_are_api_errors() {
    for code in [0u16, 100, 199, 300, 400, 403, 404, 500, 503, u16::MAX] {
        assert_eq!(
            check_status(code, "b".to_string()),
            Err(FetchError::ApiError { code, body: "b".to_string() })
        );
    }
}

#[test]
fn network_failure_names_its_stage() {
    assert_eq!(
        network_failure(NetworkStage::BuildClient, "tls"),
        FetchError::NetworkFailure("创建客户端失败: tls".to_string())
    );
    assert_eq!(
        network_failure(NetworkStage::Send, "timeout"),
        FetchError::NetworkFailure("请求失败: timeout".to_string())
    );
    assert_eq!(
        network_failure(NetworkStage::ReadBody, ""),
        FetchError::NetworkFailure("读取响应失败: ".to_string())
    );
}

#[test]
fn fetch_errors_keep_their_kind_as_refresh_errors() {
    assert_eq!(RefreshError::from_fetch(FetchError::Unauthorized), RefreshError::Unauthorized);
    assert_eq!(
        RefreshError::from_fetch(FetchError::NetworkFailure("n".to_string())),
        RefreshError::NetworkFailure("n".to_string())
    );
    assert_eq!(
        RefreshError::from_fetch(FetchError::ParseFailure {
            reason: "r".to_string(),
            body: "b".to_string()
        }),
        RefreshError::ParseFailure { reason: "r".to_string(), body: "b".to_string() }
    );
    assert_eq!(
        RefreshError::from_fetch(FetchError::ApiError { code: 502, body: "b".to_string() }),
        RefreshError::ApiError { code: 502, body: "b".to_string() }
    );
}

#[test]
fn refresh_error_messages() {
    assert_eq!(RefreshError::NotConfigured.message(), "not configured");
    assert_eq!(RefreshError::InvalidConfiguration.message(), "incomplete configuration");
    assert_eq!(RefreshError::Unauthorized.message(), "Token 已过期或无效，请更新配置");
    assert_eq!(RefreshError::NetworkFailure("请求失败: x".to_string()).message(), "请求失败: x");
    assert_eq!(
        RefreshError::ParseFailure { reason: "eof".to_string(), body: "{".to_string() }.message(),
        "解析响应失败: eof | 响应内容: {"
    );
    assert_eq!(
        RefreshError::ApiError { code: 500, body: "oops".to_string() }.message(),
        "API 错误 (500): oops"
    );
    assert_eq!(
        RefreshError::ApiError { code: 0, body: String::new() }.message(),
        "API 错误 (0): "
    );
}

#[test]
fn error_clones_are_equal() {
    let e = RefreshError::ApiError { code: 418, body: "teapot".to_string() };
    assert_eq!(e.clone(), e);
    let f = FetchError::ParseFailure { reason: "r".to_string(), body: "b".to_string() };
    assert_eq!(f.clone(), f);
}

#[test]
fn connection_check_wants_every_credential() {
    let full = ApiConfig {
        token: "t".to_string(),
        organization: "o".to_string(),
        project: "p".to_string(),
        refresh_interval: 60,
    };
    assert_eq!(check_connection_config(&full), Ok(()));
    let mut c = full.clone();
    c.organization = String::new();
    assert_eq!(check_connection_config(&c), Err("请填写完整的配置信息".to_string()));
    assert_eq!(
        check_connection_config(&ApiConfig::default()),
        Err("请填写完整的配置信息".to_string())
    );
}
