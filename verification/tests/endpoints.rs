use devstack_api::endpoints::api_info;
use devstack_api::endpoints::health_response;
use devstack_api::endpoints::metrics_reply;
use devstack_api::endpoints::reply_of_health;
use devstack_api::endpoints::reply_of_info;
use devstack_api::endpoints::vault_reply;
use devstack_api::endpoints::ApiInfo;
use devstack_api::endpoints::HealthResponse;

#[test]
fn test_root_endpoint() {
    let info = api_info();
    let resp = reply_of_info(&info);

    assert!(resp.status == 200);

    let body: serde_json::Value = serde_json::from_str(&resp.body).unwrap();
    assert_eq!(body["name"], "DevStack Core Rust Reference API");
    assert_eq!(body["version"], "1.0.0");
    assert_eq!(body["language"], "Rust");
    assert_eq!(body["framework"], "Actix-web");
}

#[test]
fn test_health_endpoint() {
    let report = health_response();
    let resp = reply_of_health(&report);

    assert!(resp.status == 200);

    let body: serde_json::Value = serde_json::from_str(&resp.body).unwrap();
    assert_eq!(body["status"], "healthy");
    assert!(!body["timestamp"].as_str().unwrap().is_empty());
}

#[test]
fn test_metrics_endpoint() {
    let resp = metrics_reply();

    assert!(resp.status == 200);

    assert!(resp.body.contains("Rust API metrics placeholder"));
}

#[test]
fn test_api_info_serialization() {
    let info = ApiInfo {
        name: String::from("Test API"),
        version: String::from("1.0.0"),
        language: String::from("Rust"),
        framework: String::from("Actix-web"),
        description: String::from("Test description"),
    };

    let json = info.to_json();
    assert!(json.contains("Test API"));
    assert!(json.contains("1.0.0"));
    assert!(json.contains("Rust"));
}

#[test]
fn test_health_response_serialization() {
    let response = HealthResponse {
        status: String::from("healthy"),
        timestamp: String::from("2025-01-01T00:00:00Z"),
    };

    let json = response.to_json();
    assert!(json.contains("healthy"));
    assert!(json.contains("2025-01-01T00:00:00Z"));
}

#[test]
fn metrics_reply_is_plain_text() {
    let resp = metrics_reply();
    assert_eq!(resp.status, 200);
    assert_eq!(resp.content_type, "text/plain");
    assert_eq!(resp.body, "# Rust API metrics placeholder\n");
}

#[test]
fn root_reply_is_json_with_description() {
    let resp = reply_of_info(&api_info());
    assert_eq!(resp.content_type, "application/json");
    let body: serde_json::Value = serde_json::from_str(&resp.body).unwrap();
    assert_eq!(
        body["description"],
        "Rust reference implementation for infrastructure integration"
    );
}

#[test]
fn vault_reply_healthy_on_success_status() {
    for code in [200u16, 204, 299] {
        let resp = vault_reply(Some(code));
        assert_eq!(resp.status, 200);
        assert_eq!(resp.content_type, "application/json");
        let body: serde_json::Value = serde_json::from_str(&resp.body).unwrap();
        assert_eq!(body["status"], "healthy");
        assert!(body.get("error").is_none());
    }
}

#[test]
fn vault_reply_unhealthy_on_failure_status() {
    for code in [199u16, 300, 404, 500, 503] {
        let resp = vault_reply(Some(code));
        assert_eq!(resp.status, 503);
        let body: serde_json::Value = serde_json::from_str(&resp.body).unwrap();
        assert_eq!(body["status"], "unhealthy");
        assert!(!body["error"].as_str().unwrap().is_empty());
    }
}

#[test]
fn vault_reply_unhealthy_when_unreachable() {
    let resp = vault_reply(None);
    assert_eq!(resp.status, 503);
    let body: serde_json::Value = serde_json::from_str(&resp.body).unwrap();
    assert_eq!(body["status"], "unhealthy");
    assert_eq!(body["error"], "Vault unavailable");
}

#[test]
fn to_json_escapes_and_round_trips() {
    let response = HealthResponse {
        status: String::from("a\"b\\c\nd\te\u{1}f"),
        timestamp: String::from("line\rbreak\u{8}\u{c}\u{1f}"),
    };

    let json = response.to_json();
    let body: serde_json::Value = serde_json::from_str(&json).unwrap();
    assert_eq!(body["status"], response.status);
    assert_eq!(body["timestamp"], response.timestamp);
}

#[test]
fn health_timestamp_is_rfc3339() {
    let report = health_response();
    assert!(devstack_api::rfc3339::is_rfc3339_timestamp(&report.timestamp));
}
