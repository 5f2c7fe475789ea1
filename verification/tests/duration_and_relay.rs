use blink_one::relay::{step_after_forward, step_after_poll, PollOutcome, RelayStep};
use blink_one::Duration;

#[test]
fn duration_millis() {
    assert_eq!(Duration::from_secs(2).as_millis(), 2000);
    assert_eq!(Duration::from_millis(1234).as_millis(), 1234);
    assert_eq!(Duration::new(1, 999_999).as_millis(), 1000);
    assert_eq!(Duration::new(1, 1_000_000).as_millis(), 1001);
    assert_eq!(Duration::from_secs(u64::MAX).as_millis(), u128::from(u64::MAX) * 1000);
}

#[test]
fn duration_new_carries_nanoseconds() {
    assert_eq!(Duration::new(1, 2_500_000_000), Duration::new(3, 500_000_000));
    assert_eq!(Duration::new(0, 1_000_000_000), Duration::from_secs(1));
    assert_eq!(Duration::new(5, 250_000_000), Duration::from_millis(5250));
}

#[test]
fn relay_forwards_publications() {
    assert_eq!(step_after_poll(PollOutcome::Publish), RelayStep::Forward);
}

#[test]
fn relay_skips_other_events() {
    assert_eq!(step_after_poll(PollOutcome::OtherEvent), RelayStep::Skip);
}

#[test]
fn relay_keeps_going_after_connection_errors() {
    assert_eq!(step_after_poll(PollOutcome::ConnectionError), RelayStep::WarnAndRetry);
}

#[test]
fn relay_stops_when_receiver_is_gone() {
    assert_eq!(step_after_forward(true), RelayStep::Skip);
    assert_eq!(step_after_forward(false), RelayStep::Stop);
}
