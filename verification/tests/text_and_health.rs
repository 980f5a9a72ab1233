use rdp_man::db::{closing_status, parse_status, ConnectionProfile, SessionStatus};
use rdp_man::health::{health_result, health_results, probe_address, probe_port, probe_status, ServerStatus, PROBE_TIMEOUT_SECS};
use rdp_man::text::address;

#[test]
fn port_text_is_decimal_with_sign() {
    assert_eq!(address("", 0), ":0");
    assert_eq!(address("", 7), ":7");
    assert_eq!(address("", 10), ":10");
    assert_eq!(address("", 3389), ":3389");
    assert_eq!(address("", -42), ":-42");
    assert_eq!(address("", i64::MIN), ":-9223372036854775808");
    assert_eq!(address("", i64::MAX), ":9223372036854775807");
}

#[test]
fn address_is_host_colon_port() {
    assert_eq!(address("10.0.1.1", 3389), "10.0.1.1:3389");
    assert_eq!(address("db-01", -1), "db-01:-1");
    assert_eq!(address("", 0), ":0");
}

#[test]
fn probe_address_uses_the_port() {
    assert_eq!(probe_address("web-01.local", 3389), "web-01.local:3389");
    assert_eq!(probe_address("h", 65535), "h:65535");
}

#[test]
fn probe_port_keeps_the_low_sixteen_bits() {
    assert_eq!(probe_port(3389), 3389);
    assert_eq!(probe_port(70000), 4464);
    assert_eq!(probe_port(-1), 65535);
    assert_eq!(probe_port(65536), 0);
    assert_eq!(PROBE_TIMEOUT_SECS, 3);
}

#[test]
fn health_result_copies_the_profile() {
    let p = ConnectionProfile {
        id: 4,
        display_name: "APP-02".to_string(),
        hostname: "10.0.1.4".to_string(),
        port: 3390,
        username: "admin".to_string(),
        password: "SECRET-REDACTED".to_string(),
    };
    let r = health_result(&p, ServerStatus::Online);
    assert_eq!(r.id, 4);
    assert_eq!(r.hostname, "10.0.1.4");
    assert_eq!(r.port, 3390);
    assert_eq!(r.status, ServerStatus::Online);
    let r = health_result(&p, ServerStatus::Offline);
    assert_eq!(r.status, ServerStatus::Offline);
}

#[test]
fn probe_status_needs_an_address_and_a_connection() {
    assert_eq!(probe_status(true, true), ServerStatus::Online);
    assert_eq!(probe_status(true, false), ServerStatus::Offline);
    assert_eq!(probe_status(false, false), ServerStatus::Offline);
}

#[test]
fn health_results_follow_the_profiles() {
    let mk = |id: i64, host: &str| ConnectionProfile {
        id,
        display_name: host.to_uppercase(),
        hostname: host.to_string(),
        port: 3389 + id as i32,
        username: "u".to_string(),
        password: "p".to_string(),
    };
    let profiles = vec![mk(1, "a"), mk(2, "b")];
    let r = health_results(&profiles, &vec![ServerStatus::Offline, ServerStatus::Online]);
    assert_eq!(r.len(), 2);
    assert_eq!((r[0].id, r[0].hostname.as_str(), r[0].port, r[0].status), (1, "a", 3390, ServerStatus::Offline));
    assert_eq!((r[1].id, r[1].hostname.as_str(), r[1].port, r[1].status), (2, "b", 3391, ServerStatus::Online));
    assert!(health_results(&vec![], &vec![]).is_empty());
}

#[test]
fn session_status_texts() {
    assert_eq!(SessionStatus::Connected.as_text(), "connected");
    assert_eq!(SessionStatus::Disconnected.as_text(), "disconnected");
    assert_eq!(SessionStatus::Error.as_text(), "error");
    assert_eq!(SessionStatus::Reconnecting.as_text(), "reconnecting");
    assert_eq!(parse_status("reconnecting"), Some(SessionStatus::Reconnecting));
    assert_eq!(parse_status("connected"), Some(SessionStatus::Connected));
    assert_eq!(parse_status("Connected"), None);
    assert_eq!(parse_status(""), None);
    assert_eq!(closing_status(true), SessionStatus::Disconnected);
    assert_eq!(closing_status(false), SessionStatus::Error);
}
