//! Simulated sessions: the machine driven through whole lifecycles.

use tunnel_supervisor::session::Action;
use tunnel_supervisor::session::Event;
use tunnel_supervisor::session::ExitKind;
use tunnel_supervisor::session::Message;
use tunnel_supervisor::session::Phase;
use tunnel_supervisor::session::SessionMachine;
use tunnel_supervisor::session::Status;
use tunnel_supervisor::session::StatusEvent;

fn plain(status: Status, message: Message) -> StatusEvent {
    StatusEvent { status, message, url: None }
}

/// Drive a fresh machine up to the first spawn.
fn start_machine(port: u16) -> SessionMachine {
    let mut m = SessionMachine::new(port);
    let out = m.step(Event::Start);
    assert_eq!(out.emits, vec![plain(Status::Connecting, Message::StartingTunnel)]);
    assert_eq!(out.action, Action::Locate);
    let out = m.step(Event::BinaryFound);
    assert_eq!(out.emits, vec![plain(Status::Connecting, Message::ConnectingToPort(port))]);
    assert_eq!(out.action, Action::Spawn);
    m
}

#[test]
fn clean_exits_without_connection_retry_three_times_then_stop() {
    let mut m = start_machine(8080);
    let mut reconnecting = 0u32;
    for attempt in 1..=4u32 {
        let out = m.step(Event::SpawnedOk);
        assert_eq!(out.emits, vec![plain(Status::Connecting, Message::Authenticating)]);
        let out = m.step(Event::Exited(ExitKind::Clean));
        assert_eq!(out.emits[0], plain(Status::Disconnected, Message::TunnelClosed));
        if attempt <= 3 {
            assert_eq!(out.emits[1], plain(Status::Reconnecting, Message::Retrying(attempt)));
            assert_eq!(out.action, Action::Sleep);
            reconnecting += 1;
            let out = m.step(Event::DelayElapsed);
            assert_eq!(out.action, Action::Spawn);
        } else {
            assert_eq!(out.emits[1], plain(Status::Error, Message::RetriesExhausted));
            assert_eq!(out.emits.len(), 2);
            assert_eq!(out.action, Action::Done);
        }
    }
    assert_eq!(reconnecting, 3);
    // No event restarts a finished session: there is no further attempt.
    let out = m.step(Event::DelayElapsed);
    assert_eq!(out.emits.len(), 0);
    assert_eq!(out.action, Action::Continue);
    assert_eq!(m.phase, Phase::Finished);
}

#[test]
fn once_connected_the_session_retries_indefinitely() {
    let mut m = start_machine(9000);
    for _cycle in 0..5 {
        let out = m.step(Event::SpawnedOk);
        assert_eq!(out.action, Action::Listen);
        let out = m.step(Event::OutputLine(b"Registered tunnel connection connIndex=4".to_vec()));
        assert_eq!(out.emits.len(), 1);
        assert_eq!(out.emits[0].status, Status::Connected);
        let out = m.step(Event::Exited(ExitKind::Abnormal(1)));
        assert_eq!(out.emits[0], plain(Status::Error, Message::ExitCode(1)));
        assert_eq!(out.emits[1], plain(Status::Reconnecting, Message::ConnectionLost));
        assert_eq!(out.action, Action::Sleep);
        assert_eq!(m.backoff.retry_count, 0);
        let out = m.step(Event::DelayElapsed);
        assert_eq!(out.action, Action::Spawn);
    }
    assert_eq!(m.phase, Phase::Spawning);
}

#[test]
fn cancellation_during_the_retry_delay_disconnects_at_once() {
    let mut m = start_machine(8080);
    let out = m.step(Event::SpawnedOk);
    assert_eq!(out.action, Action::Listen);
    let out = m.step(Event::Exited(ExitKind::Clean));
    assert_eq!(out.action, Action::Sleep);
    let out = m.step(Event::Cancelled);
    assert_eq!(out.emits, vec![plain(Status::Disconnected, Message::TunnelStopped)]);
    assert_eq!(out.action, Action::Done);
    assert_eq!(m.phase, Phase::Finished);
    // No spawn can follow.
    let out = m.step(Event::DelayElapsed);
    assert_eq!(out.emits.len(), 0);
    assert_eq!(out.action, Action::Continue);
}

#[test]
fn cancellation_while_running_kills_the_child() {
    let mut m = start_machine(8080);
    let _ = m.step(Event::SpawnedOk);
    let out = m.step(Event::Cancelled);
    assert_eq!(out.emits, vec![plain(Status::Disconnected, Message::TunnelStopped)]);
    assert_eq!(out.action, Action::Kill);
    let out = m.step(Event::Cancelled);
    assert_eq!(out.emits.len(), 0);
    assert_eq!(out.action, Action::Continue);
}

#[test]
fn missing_binary_yields_one_error_and_zero_retries() {
    for port in [0u16, 8080, 65535] {
        let mut m = SessionMachine::new(port);
        let _ = m.step(Event::Start);
        let out = m.step(Event::BinaryMissing);
        assert_eq!(out.emits, vec![plain(Status::Error, Message::BinaryNotFound)]);
        assert_eq!(out.action, Action::Done);
        assert_eq!(m.phase, Phase::Finished);
        let out = m.step(Event::DelayElapsed);
        assert_eq!(out.emits.len(), 0);
        assert_eq!(out.action, Action::Continue);
    }
}

#[test]
fn spawn_failure_for_a_vanished_binary_stops_without_delay() {
    let mut m = start_machine(8080);
    let out = m.step(Event::SpawnFailed { not_found: true, detail: b"no such file".to_vec() });
    assert_eq!(out.emits, vec![plain(Status::Error, Message::BinaryNotFound)]);
    assert_eq!(out.action, Action::Done);
    assert_eq!(m.phase, Phase::Finished);
}

#[test]
fn other_spawn_failures_are_retried_up_to_the_budget() {
    let mut m = start_machine(8080);
    let detail = b"permission denied".to_vec();
    for attempt in 1..=3u32 {
        let out = m.step(Event::SpawnFailed { not_found: false, detail: detail.clone() });
        assert_eq!(out.emits[0], plain(Status::Error, Message::SpawnFailed(detail.clone())));
        assert_eq!(out.emits[1], plain(Status::Reconnecting, Message::Retrying(attempt)));
        assert_eq!(out.action, Action::Sleep);
        let out = m.step(Event::DelayElapsed);
        assert_eq!(out.action, Action::Spawn);
    }
    let out = m.step(Event::SpawnFailed { not_found: false, detail: detail.clone() });
    assert_eq!(out.emits[1], plain(Status::Error, Message::RetriesExhausted));
    assert_eq!(out.action, Action::Done);
}

#[test]
fn the_url_is_sticky_for_the_attempt_and_appears_on_connected_events() {
    let mut m = start_machine(8080);
    let _ = m.step(Event::SpawnedOk);
    let out = m.step(Event::OutputLine(b"https://abc123.trycloudflare.com is live".to_vec()));
    assert_eq!(out.emits.len(), 1);
    assert_eq!(out.emits[0].status, Status::Connected);
    assert_eq!(out.emits[0].message, Message::TunnelReady);
    assert_eq!(out.emits[0].url, Some(b"https://abc123.trycloudflare.com".to_vec()));
    // A later connected line of the same attempt still carries the URL.
    let out = m.step(Event::OutputLine(b"Registered tunnel connection connIndex=0".to_vec()));
    assert_eq!(out.emits[0].message, Message::TunnelEstablished);
    assert_eq!(out.emits[0].url, Some(b"https://abc123.trycloudflare.com".to_vec()));
    // A new attempt starts without a URL.
    let _ = m.step(Event::Exited(ExitKind::Abnormal(1)));
    let _ = m.step(Event::DelayElapsed);
    let _ = m.step(Event::SpawnedOk);
    let out = m.step(Event::OutputLine(b"Registered tunnel connection connIndex=0".to_vec()));
    assert_eq!(out.emits[0].url, None);
}

#[test]
fn error_lines_are_emitted_without_stopping_the_session() {
    let mut m = start_machine(8080);
    let _ = m.step(Event::SpawnedOk);
    let line = b"ERR  connection refused".to_vec();
    let out = m.step(Event::OutputLine(line.clone()));
    assert_eq!(out.emits, vec![StatusEvent {
        status: Status::Error,
        message: Message::OutputLine(line),
        url: None,
    }]);
    assert_eq!(out.action, Action::Listen);
    assert_eq!(m.phase, Phase::Running);
    // Unrecognised chatter changes nothing.
    let out = m.step(Event::OutputLine(b"INF Version 2024.1.5".to_vec()));
    assert_eq!(out.emits.len(), 0);
    assert_eq!(out.action, Action::Listen);
}
