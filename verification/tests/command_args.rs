//! The command line built for each mode.

use tunnel_supervisor::command::build_args;
use tunnel_supervisor::command::dec_digits;
use tunnel_supervisor::TunnelConfig;

fn cfg(port: u16, token: &str) -> TunnelConfig {
    TunnelConfig { id: String::from("t1"), local_port: port, tunnel_token: String::from(token) }
}

#[test]
fn quick_mode_exposes_the_local_port() {
    let args = build_args(&cfg(8080, ""));
    assert_eq!(
        args,
        vec![b"tunnel".to_vec(), b"--url".to_vec(), b"http://localhost:8080".to_vec()]
    );
}

#[test]
fn named_mode_runs_by_token() {
    let args = build_args(&cfg(8080, "eyJhIjoiYiJ9"));
    assert_eq!(
        args,
        vec![
            b"tunnel".to_vec(),
            b"run".to_vec(),
            b"--token".to_vec(),
            b"eyJhIjoiYiJ9".to_vec(),
        ]
    );
}

#[test]
fn mode_is_selected_by_token_presence_alone() {
    let quick = build_args(&cfg(443, ""));
    let named = build_args(&cfg(443, "x"));
    assert_eq!(quick.len(), 3);
    assert_eq!(named.len(), 4);
}

#[test]
fn port_edges_format_correctly() {
    assert_eq!(dec_digits(0), b"0".to_vec());
    assert_eq!(dec_digits(7), b"7".to_vec());
    assert_eq!(dec_digits(10), b"10".to_vec());
    assert_eq!(dec_digits(65535), b"65535".to_vec());
    let args = build_args(&cfg(65535, ""));
    assert_eq!(args[2], b"http://localhost:65535".to_vec());
}
