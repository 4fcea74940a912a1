//! The classifier's rules on concrete diagnostic lines.

use tunnel_supervisor::classify::classify;
use tunnel_supervisor::classify::Classification;
use tunnel_supervisor::classify::ConnectKind;
use tunnel_supervisor::text::contains;
use tunnel_supervisor::text::find;
use tunnel_supervisor::text::to_lower;
use tunnel_supervisor::text::token_end;

#[test]
fn registered_connection_line_is_connected_without_url() {
    let c = classify(b"Registered tunnel connection connIndex=5");
    assert_eq!(c, Classification::Connected { kind: ConnectKind::Registered, url: None });
}

#[test]
fn quick_tunnel_url_is_extracted_exactly() {
    let c = classify(b"https://abc123.trycloudflare.com is live");
    assert_eq!(
        c,
        Classification::Connected {
            kind: ConnectKind::QuickUrl,
            url: Some(b"https://abc123.trycloudflare.com".to_vec()),
        }
    );
}

#[test]
fn url_starts_at_first_https_and_stops_at_whitespace() {
    let c = classify(b"visit https://x.cfargotunnel.com/path now");
    assert_eq!(
        c,
        Classification::Connected {
            kind: ConnectKind::QuickUrl,
            url: Some(b"https://x.cfargotunnel.com/path".to_vec()),
        }
    );
}

#[test]
fn failed_to_parse_is_excluded_from_errors() {
    let c = classify(b"failed to parse ingress rule 3");
    assert_eq!(c, Classification::NoMatch);
}

#[test]
fn failed_alone_is_an_error() {
    let c = classify(b"connection failed after handshake");
    assert_eq!(c, Classification::ErrorDetected);
}

#[test]
fn err_marker_is_an_error() {
    let c = classify(b"2024 ERR  something broke");
    assert_eq!(c, Classification::ErrorDetected);
}

#[test]
fn unable_to_is_an_error() {
    let c = classify(b"Unable to reach the edge");
    assert_eq!(c, Classification::ErrorDetected);
}

#[test]
fn initial_protocol_is_connected() {
    let c = classify(b"INF Initial protocol quic");
    assert_eq!(c, Classification::Connected { kind: ConnectKind::Established, url: None });
}

#[test]
fn connection_established_is_connected() {
    let c = classify(b"Connection established with edge");
    assert_eq!(c, Classification::Connected { kind: ConnectKind::Established, url: None });
}

#[test]
fn domain_marker_without_https_is_no_match() {
    let c = classify(b"see abc.trycloudflare.com for details");
    assert_eq!(c, Classification::NoMatch);
}

#[test]
fn registered_match_is_case_insensitive() {
    let c = classify(b"REGISTERED TUNNEL CONNINDEX=0");
    assert_eq!(c, Classification::Connected { kind: ConnectKind::Registered, url: None });
}

#[test]
fn domain_marker_is_case_sensitive() {
    let c = classify(b"https://abc.TryCloudflare.Com is live");
    assert_eq!(c, Classification::NoMatch);
}

#[test]
fn registered_takes_precedence_over_url() {
    let c = classify(b"Registered connection at https://a.trycloudflare.com now");
    assert_eq!(c, Classification::Connected { kind: ConnectKind::Registered, url: None });
}

#[test]
fn plain_chatter_is_no_match() {
    let c = classify(b"INF Version 2024.1.5");
    assert_eq!(c, Classification::NoMatch);
}

#[test]
fn empty_line_is_no_match() {
    let c = classify(b"");
    assert_eq!(c, Classification::NoMatch);
}

#[test]
fn find_returns_first_occurrence() {
    assert_eq!(find(b"abcabc", b"bc"), Some(1));
    assert_eq!(find(b"abcabc", b"zz"), None);
    assert_eq!(find(b"abc", b""), Some(0));
    assert_eq!(find(b"ab", b"abc"), None);
}

#[test]
fn contains_agrees_with_find() {
    assert!(contains(b"hello world", b"lo wo"));
    assert!(!contains(b"hello world", b"lowno"));
}

#[test]
fn to_lower_maps_ascii_only() {
    assert_eq!(to_lower(b"AbZ[`z0"), b"abz[`z0".to_vec());
}

#[test]
fn token_end_stops_at_whitespace_or_end() {
    assert_eq!(token_end(b"abc def", 0), 3);
    assert_eq!(token_end(b"abc def", 4), 7);
    assert_eq!(token_end(b"abc\tdef", 1), 3);
}
