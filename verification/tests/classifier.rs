use tunnel_core::classify::{classify_stderr, classify_stdout};
use tunnel_core::event::ConnectionState;
use tunnel_core::text::{contains_sub, extract_url, find_sub, i32_string, str_eq, u64_string};

#[test]
fn registered_connection_line_is_established() {
    let r = classify_stderr("2024-01-01T00:00:00Z INF Registered tunnel connection connIndex=0")
        .expect("a verdict");
    assert!(matches!(r.state, ConnectionState::Connected));
    assert_eq!(r.message, "Tunnel established");
    assert!(r.url.is_none());
}

#[test]
fn uppercase_line_is_still_classified() {
    let r = classify_stderr("INF REGISTERED TUNNEL CONNECTION").expect("a verdict");
    assert!(matches!(r.state, ConnectionState::Connected));
    assert_eq!(r.message, "Tunnel established");
}

#[test]
fn failed_line_is_error_with_raw_message() {
    let line = "2024 ERR failed to connect";
    let r = classify_stderr(line).expect("a verdict");
    assert!(matches!(r.state, ConnectionState::Error));
    assert_eq!(r.message, line);
    assert!(r.url.is_none());
}

#[test]
fn loglevel_line_is_not_an_error() {
    let r = classify_stderr("time=2024 level=info msg=\"loglevel is debug\" error detail");
    assert!(r.is_none());
}

#[test]
fn quick_tunnel_url_line_yields_url() {
    let r = classify_stderr("https://abc123.trycloudflare.com").expect("a verdict");
    assert!(matches!(r.state, ConnectionState::Connected));
    assert_eq!(r.message, "Tunnel ready");
    assert_eq!(r.url.as_deref(), Some("https://abc123.trycloudflare.com"));
}

#[test]
fn url_is_cut_at_whitespace() {
    let r = classify_stderr("INF |  https://box.trycloudflare.com  |").expect("a verdict");
    assert_eq!(r.url.as_deref(), Some("https://box.trycloudflare.com"));
}

#[test]
fn tunnel_url_mention_without_https_is_silent() {
    let r = classify_stderr("INF Tunnel URL: pending");
    assert!(r.is_none());
}

#[test]
fn ingress_registered_is_active() {
    let r = classify_stderr("INF ingress rule registered").expect("a verdict");
    assert!(matches!(r.state, ConnectionState::Connected));
    assert_eq!(r.message, "Tunnel active");
}

#[test]
fn initial_protocol_is_connected() {
    let r = classify_stderr("INF Initial protocol quic").expect("a verdict");
    assert!(matches!(r.state, ConnectionState::Connected));
    assert_eq!(r.message, "Tunnel connected");
}

#[test]
fn plain_chatter_is_silent() {
    assert!(classify_stderr("INF Version 2024.1.0").is_none());
}

#[test]
fn stdout_needs_domain_and_scheme() {
    assert!(classify_stdout("visit https://example.com now").is_none());
    assert!(classify_stdout("mention of .trycloudflare.com only").is_none());
    let r = classify_stdout("ready at https://q.cfargotunnel.com today").expect("a verdict");
    assert!(matches!(r.state, ConnectionState::Connected));
    assert_eq!(r.message, "Tunnel ready");
    assert_eq!(r.url.as_deref(), Some("https://q.cfargotunnel.com"));
}

#[test]
fn substring_search_finds_first_occurrence() {
    assert!(contains_sub("abcabc", "cab"));
    assert!(!contains_sub("abcabc", "cba"));
    assert!(contains_sub("anything", ""));
    assert_eq!(find_sub("xxabyab", "ab"), Some(2));
    assert_eq!(find_sub("xxx", "ab"), None);
}

#[test]
fn url_extraction_takes_first_token() {
    assert_eq!(
        extract_url("a https://one.example b https://two.example").as_deref(),
        Some("https://one.example")
    );
    assert_eq!(extract_url("no scheme here"), None);
}

#[test]
fn decimal_rendering() {
    assert_eq!(u64_string(0), "0");
    assert_eq!(u64_string(65535), "65535");
    assert_eq!(i32_string(1), "1");
    assert_eq!(i32_string(-137), "-137");
    assert_eq!(i32_string(i32::MIN), "-2147483648");
}

#[test]
fn string_equality_by_characters() {
    assert!(str_eq("tunnel", "tunnel"));
    assert!(!str_eq("tunnel", "tunnels"));
    assert!(!str_eq("tunnel", "tunnex"));
}
