//! The retry policy's decisions.

use tunnel_supervisor::backoff::BackoffPolicy;
use tunnel_supervisor::backoff::Decision;
use tunnel_supervisor::backoff::MAX_RETRIES;

#[test]
fn never_connected_gets_three_retries_then_stops() {
    let mut p = BackoffPolicy::new();
    assert_eq!(p.decide(false), Decision::RetryCounted(1));
    assert_eq!(p.decide(false), Decision::RetryCounted(2));
    assert_eq!(p.decide(false), Decision::RetryCounted(3));
    assert_eq!(p.decide(false), Decision::StopExhausted);
    assert_eq!(p.decide(false), Decision::StopExhausted);
    assert_eq!(p.retry_count, MAX_RETRIES);
}

#[test]
fn once_connected_the_counter_resets_every_time() {
    let mut p = BackoffPolicy::new();
    assert_eq!(p.decide(false), Decision::RetryCounted(1));
    p.note_connected();
    for _ in 0..5 {
        assert_eq!(p.decide(false), Decision::RetryReset);
        assert_eq!(p.retry_count, 0);
    }
}

#[test]
fn missing_binary_stops_at_once_without_consuming_a_retry() {
    let mut p = BackoffPolicy::new();
    assert_eq!(p.decide(true), Decision::StopNotFound);
    assert_eq!(p.retry_count, 0);
    p.note_connected();
    assert_eq!(p.decide(true), Decision::StopNotFound);
}
