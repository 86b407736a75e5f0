use hyper_tls::connector::{Action, ConnectError, HttpsConnector, Phase};
use hyper_tls::stats::{merge_tls_stats, ConnectionStats};
use hyper_tls::target::{is_https, server_name, trim_brackets, Target};

fn target(scheme: Option<&str>, host: Option<&str>) -> Target {
    Target {
        scheme: scheme.map(|s| s.to_string()),
        host: host.map(|h| h.to_string()),
    }
}

fn raw_stats() -> ConnectionStats {
    ConnectionStats {
        start_time: 100,
        dns_resolve_start: Some(110),
        dns_resolve_end: Some(120),
        connect_start: Some(130),
        connect_end: Some(140),
        tls_connect_start: None,
        tls_connect_end: None,
    }
}

const MS: u64 = 1_000_000;

#[test]
fn server_name_strips_ipv6_brackets() {
    assert_eq!(server_name(&target(Some("https"), Some("[::1]"))), "::1");
}

#[test]
fn server_name_keeps_plain_host() {
    assert_eq!(server_name(&target(Some("https"), Some("example.com"))), "example.com");
}

#[test]
fn server_name_empty_without_host() {
    assert_eq!(server_name(&target(Some("https"), None)), "");
}

#[test]
fn trim_brackets_edges() {
    assert_eq!(trim_brackets(""), "");
    assert_eq!(trim_brackets("[]]["), "");
    assert_eq!(trim_brackets("[[a[b]]"), "a[b");
    assert_eq!(trim_brackets("a]"), "a");
}

#[test]
fn scheme_detection() {
    assert!(is_https(&target(Some("https"), None)));
    assert!(!is_https(&target(Some("http"), None)));
    assert!(!is_https(&target(Some("HTTPS"), None)));
    assert!(!is_https(&target(Some("httpss"), None)));
    assert!(!is_https(&target(None, None)));
}

#[test]
fn http_unforced_is_plain() {
    let c = HttpsConnector::new_with_connector((), ());
    let mut conn = c.call(&target(Some("http"), Some("example.com")));
    assert_eq!(conn.phase(), Phase::AwaitingRaw);
    assert_eq!(conn.first_action(), Action::ConnectRaw);
    assert_eq!(conn.on_raw_connected(Some(raw_stats()), 5), Action::Plain);
    assert_eq!(conn.phase(), Phase::Finished);
}

#[test]
fn https_is_encrypted_with_stats() {
    let c = HttpsConnector::new_with_connector((), ());
    let mut conn = c.call(&target(Some("https"), Some("example.com")));
    assert!(conn.is_https());
    assert_eq!(conn.server_name(), "example.com");
    assert_eq!(conn.first_action(), Action::ConnectRaw);
    assert_eq!(conn.on_raw_connected(Some(raw_stats()), 150), Action::Handshake);
    assert_eq!(conn.phase(), Phase::AwaitingHandshake);
    let mut expected = raw_stats();
    expected.tls_connect_start = Some(150);
    expected.tls_connect_end = Some(170);
    assert_eq!(conn.on_handshake_done(170), Action::Encrypted { stats: Some(expected) });
    assert_eq!(conn.phase(), Phase::Finished);
}

#[test]
fn https_without_stats_stays_without() {
    let c = HttpsConnector::new_with_connector((), ());
    let mut conn = c.call(&target(Some("https"), Some("[::1]")));
    assert_eq!(conn.server_name(), "::1");
    assert_eq!(conn.on_raw_connected(None, 7), Action::Handshake);
    assert_eq!(conn.on_handshake_done(9), Action::Encrypted { stats: None });
}

#[test]
fn forced_https_rejects_http() {
    let mut c = HttpsConnector::new_with_connector((), ());
    c.https_only(true);
    assert!(c.force_https);
    let conn = c.call(&target(Some("http"), Some("example.com")));
    assert_eq!(conn.phase(), Phase::Rejected);
    assert_eq!(
        conn.first_action(),
        Action::Fail(ConnectError::ForceHttpsButUriNotHttps)
    );
}

#[test]
fn forced_https_allows_https() {
    let mut c = HttpsConnector::new_with_connector((), ());
    c.https_only(true);
    let conn = c.call(&target(Some("https"), Some("example.com")));
    assert_eq!(conn.first_action(), Action::ConnectRaw);
    c.https_only(false);
    assert!(!c.force_https);
}

#[test]
fn raw_failure_is_reported() {
    let c = HttpsConnector::new_with_connector((), ());
    let mut conn = c.call(&target(Some("https"), Some("example.com")));
    assert_eq!(conn.on_raw_failed(), Action::Fail(ConnectError::RawConnect));
    assert_eq!(conn.phase(), Phase::Finished);
}

#[test]
fn handshake_failure_is_reported() {
    let c = HttpsConnector::new_with_connector((), ());
    let mut conn = c.call(&target(Some("https"), Some("example.com")));
    assert_eq!(conn.on_raw_connected(Some(raw_stats()), 1), Action::Handshake);
    assert_eq!(conn.on_handshake_failed(), Action::Fail(ConnectError::Handshake));
    assert_eq!(conn.phase(), Phase::Finished);
}

#[test]
fn merge_of_absent_stats_is_absent() {
    assert_eq!(merge_tls_stats(None, 1, 2), None);
}

#[test]
fn merge_keeps_raw_fields() {
    let merged = merge_tls_stats(Some(raw_stats()), 200, 260).unwrap();
    assert_eq!(merged.start_time, 100);
    assert_eq!(merged.dns_resolve_start, Some(110));
    assert_eq!(merged.dns_resolve_end, Some(120));
    assert_eq!(merged.connect_start, Some(130));
    assert_eq!(merged.connect_end, Some(140));
    assert_eq!(merged.tls_connect_start, Some(200));
    assert_eq!(merged.tls_connect_end, Some(260));
}

#[test]
fn https_scenario_handshake_takes_five_ms() {
    let c = HttpsConnector::new_with_connector((), ());
    let mut conn = c.call(&target(Some("https"), Some("host")));
    assert_eq!(conn.first_action(), Action::ConnectRaw);
    let stats = ConnectionStats {
        start_time: 0,
        dns_resolve_start: Some(0),
        dns_resolve_end: Some(2 * MS),
        connect_start: Some(2 * MS),
        connect_end: Some(10 * MS),
        tls_connect_start: None,
        tls_connect_end: None,
    };
    assert_eq!(conn.on_raw_connected(Some(stats), 10 * MS), Action::Handshake);
    match conn.on_handshake_done(15 * MS) {
        Action::Encrypted { stats: Some(s) } => {
            let start = s.tls_connect_start.unwrap();
            let end = s.tls_connect_end.unwrap();
            assert_eq!(end - start, 5 * MS);
            assert_eq!(s.connect_end, Some(10 * MS));
        }
        other => panic!("expected an encrypted stream with stats, got {:?}", other),
    }
}
