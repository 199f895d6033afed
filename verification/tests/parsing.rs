use devstack_api::endpoints::vault_health_url;
use devstack_api::port::parse_port;
use devstack_api::port::resolve_port;
use devstack_api::rfc3339::is_rfc3339_timestamp;
use devstack_api::DEFAULT_PORT;

#[test]
fn resolve_port_uses_default_when_unset() {
    assert_eq!(resolve_port(None), 8004);
    assert_eq!(DEFAULT_PORT, 8004);
}

#[test]
fn resolve_port_falls_back_on_invalid_values() {
    assert_eq!(resolve_port(Some("notanumber")), 8004);
    assert_eq!(resolve_port(Some("")), 8004);
    assert_eq!(resolve_port(Some("+")), 8004);
    assert_eq!(resolve_port(Some("-1")), 8004);
    assert_eq!(resolve_port(Some("65536")), 8004);
    assert_eq!(resolve_port(Some("99999999999999999999")), 8004);
    assert_eq!(resolve_port(Some("80 80")), 8004);
    assert_eq!(resolve_port(Some("8080x")), 8004);
}

#[test]
fn resolve_port_accepts_port_numbers() {
    assert_eq!(resolve_port(Some("8080")), 8080);
    assert_eq!(resolve_port(Some("0")), 0);
    assert_eq!(resolve_port(Some("65535")), 65535);
    assert_eq!(resolve_port(Some("+8004")), 8004);
    assert_eq!(resolve_port(Some("007")), 7);
}

#[test]
fn parse_port_matches_std_parsing() {
    for s in ["8080", "0", "65535", "65536", "", "+", "+123", "007", "1e4", "notanumber"] {
        assert_eq!(parse_port(s), s.parse::<u16>().ok(), "input {:?}", s);
    }
}

#[test]
fn vault_url_from_configured_address() {
    let url = vault_health_url(Some("http://localhost:18200"));
    assert_eq!(url, "http://localhost:18200/v1/sys/health");
}

#[test]
fn vault_url_from_default_address() {
    let url = vault_health_url(None);
    assert_eq!(url, "http://vault:8200/v1/sys/health");
}

#[test]
fn rfc3339_accepts_well_formed_timestamps() {
    assert!(is_rfc3339_timestamp("2025-01-01T00:00:00Z"));
    assert!(is_rfc3339_timestamp("1996-12-19T16:39:57-08:00"));
    assert!(is_rfc3339_timestamp("2025-06-30T23:59:60+00:00"));
    assert!(is_rfc3339_timestamp("2025-01-01t12:30:45.5z"));
    assert!(is_rfc3339_timestamp("2026-10-12T08:15:00.123456789+00:00"));
}

#[test]
fn rfc3339_rejects_malformed_timestamps() {
    assert!(!is_rfc3339_timestamp(""));
    assert!(!is_rfc3339_timestamp("notanumber"));
    assert!(!is_rfc3339_timestamp("2025-01-01T00:00:00"));
    assert!(!is_rfc3339_timestamp("2025-01-01 00:00:00Z"));
    assert!(!is_rfc3339_timestamp("2025-13-01T00:00:00Z"));
    assert!(!is_rfc3339_timestamp("2025-00-01T00:00:00Z"));
    assert!(!is_rfc3339_timestamp("2025-01-32T00:00:00Z"));
    assert!(!is_rfc3339_timestamp("2025-01-01T24:00:00Z"));
    assert!(!is_rfc3339_timestamp("2025-01-01T00:61:00Z"));
    assert!(!is_rfc3339_timestamp("2025-01-01T00:00:61Z"));
    assert!(!is_rfc3339_timestamp("2025-01-01T00:00:00.Z"));
    assert!(!is_rfc3339_timestamp("2025-01-01T00:00:00.5"));
    assert!(!is_rfc3339_timestamp("2025-01-01T00:00:00+24:00"));
    assert!(!is_rfc3339_timestamp("2025-01-01T00:00:00+00:60"));
    assert!(!is_rfc3339_timestamp("2025-01-01T00:00:00+0000"));
    assert!(!is_rfc3339_timestamp("2025-01-01T00:00:00ZZ"));
}

#[test]
fn chrono_timestamps_satisfy_the_validator() {
    let now = chrono::Utc::now();
    assert!(is_rfc3339_timestamp(&now.to_rfc3339()));
}

#[test]
fn health_timestamps_are_non_decreasing() {
    let first = devstack_api::endpoints::health_response().timestamp;
    let second = devstack_api::endpoints::health_response().timestamp;
    let parsed_first = chrono::DateTime::parse_from_rfc3339(&first).unwrap();
    let parsed_second = chrono::DateTime::parse_from_rfc3339(&second).unwrap();
    assert!(parsed_first <= parsed_second);
}
