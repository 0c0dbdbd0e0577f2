//! Reconnect pacing and liveness.
use core::time::Duration;
use rocketsocket::realtime::backoff::Backoff;
use rocketsocket::realtime::liveness::{Liveness, LivenessPolicy};
use std::time::Instant;

#[test]
fn the_first_retry_is_immediate() {
    let mut backoff = Backoff::with_seed(Duration::from_secs(1), Duration::from_secs(64), 1);
    assert_eq!(backoff.next_delay(), Duration::ZERO);
    assert_eq!(backoff.attempt(), 1);
}

#[test]
fn delays_stay_within_the_doubling_window_and_the_cap() {
    let base = Duration::from_secs(1);
    let cap = Duration::from_secs(64);
    let mut backoff = Backoff::with_seed(base, cap, 42);

    let _immediate = backoff.next_delay();
    for attempt in 1..12u32 {
        let window =
            base.saturating_mul(1u32.checked_shl(attempt - 1).unwrap_or(u32::MAX)).min(cap);
        let delay = backoff.next_delay();
        assert!(delay <= window, "attempt {attempt}: {delay:?} exceeded window {window:?}");
        assert!(delay <= cap, "attempt {attempt}: {delay:?} exceeded cap {cap:?}");
    }
}

#[test]
fn jitter_actually_spreads_clients_out() {
    // The point of full jitter is that two clients failing in lockstep do not retry in
    // lockstep. Different seeds must produce different schedules.
    let base = Duration::from_secs(1);
    let cap = Duration::from_secs(64);
    let schedule = |seed| {
        let mut backoff = Backoff::with_seed(base, cap, seed);
        (0..8).map(|_| backoff.next_delay()).collect::<Vec<_>>()
    };
    assert_ne!(schedule(1), schedule(2));
}

#[test]
fn reset_returns_to_an_immediate_retry() {
    let mut backoff = Backoff::with_seed(Duration::from_secs(1), Duration::from_secs(64), 7);
    for _ in 0..5 {
        let _ = backoff.next_delay();
    }
    backoff.reset();
    assert_eq!(backoff.attempt(), 0);
    assert_eq!(backoff.next_delay(), Duration::ZERO);
}

#[test]
fn a_very_long_outage_does_not_overflow_into_a_short_sleep() {
    // `attempt` is unbounded, so the shift and the multiply must both saturate; a wrap
    // would silently turn a capped backoff into a hot loop.
    let base = Duration::from_secs(1);
    let cap = Duration::from_secs(64);
    let mut backoff = Backoff::with_seed(base, cap, 3);
    for _ in 0..200 {
        assert!(backoff.next_delay() <= cap);
    }
    assert_eq!(backoff.attempt(), 200);
}

#[test]
fn a_zero_cap_yields_no_delay_rather_than_panicking() {
    let mut backoff = Backoff::with_seed(Duration::from_secs(1), Duration::ZERO, 5);
    for _ in 0..4 {
        assert_eq!(backoff.next_delay(), Duration::ZERO);
    }
}

#[test]
fn a_quiet_connection_is_probed_once_then_declared_dead() {
    let start = Instant::now();
    let mut policy = LivenessPolicy::with_thresholds(
        Duration::from_secs(25),
        Duration::from_secs(45),
        start,
    );

    assert_eq!(policy.poll(start), Liveness::Healthy);
    assert_eq!(policy.poll(start + Duration::from_secs(24)), Liveness::Healthy);
    assert_eq!(policy.poll(start + Duration::from_secs(25)), Liveness::SendPing);
    // Only one probe per silent stretch.
    assert_eq!(policy.poll(start + Duration::from_secs(26)), Liveness::Healthy);
    assert_eq!(policy.poll(start + Duration::from_secs(45)), Liveness::Dead);
}

#[test]
fn any_inbound_frame_counts_as_liveness_not_just_a_pong() {
    // Both servers reset their heartbeat on any inbound message; mirroring that keeps a
    // busy bot from pinging a server it is already exchanging traffic with.
    let start = Instant::now();
    let mut policy = LivenessPolicy::with_thresholds(
        Duration::from_secs(25),
        Duration::from_secs(45),
        start,
    );

    assert_eq!(policy.poll(start + Duration::from_secs(24)), Liveness::Healthy);
    policy.saw_traffic(start + Duration::from_secs(24));
    // The clock that matters is now measured from the traffic, not from the start.
    assert_eq!(policy.idle_for(start + Duration::from_secs(48)), Duration::from_secs(24));
    assert_eq!(policy.poll(start + Duration::from_secs(48)), Liveness::Healthy);
    assert_eq!(policy.poll(start + Duration::from_secs(49)), Liveness::SendPing);
}

#[test]
fn an_answered_ping_rearms_the_probe() {
    let start = Instant::now();
    let mut policy = LivenessPolicy::with_thresholds(
        Duration::from_secs(25),
        Duration::from_secs(45),
        start,
    );

    assert_eq!(policy.poll(start + Duration::from_secs(25)), Liveness::SendPing);
    policy.saw_traffic(start + Duration::from_secs(26));
    assert_eq!(policy.poll(start + Duration::from_secs(50)), Liveness::Healthy);
    assert_eq!(policy.poll(start + Duration::from_secs(51)), Liveness::SendPing);
}

#[test]
fn death_wins_over_a_probe_when_both_are_due() {
    let start = Instant::now();
    let mut policy = LivenessPolicy::with_thresholds(
        Duration::from_secs(25),
        Duration::from_secs(45),
        start,
    );
    // Nothing polled in between, so the probe was never sent — it is still too late.
    assert_eq!(policy.poll(start + Duration::from_secs(60)), Liveness::Dead);
}

#[test]
fn the_deadline_moves_out_after_a_probe_is_sent() {
    let start = Instant::now();
    let mut policy = LivenessPolicy::with_thresholds(
        Duration::from_secs(25),
        Duration::from_secs(45),
        start,
    );
    assert_eq!(policy.next_deadline(start), Some(start + Duration::from_secs(25)));
    policy.poll(start + Duration::from_secs(25));
    assert_eq!(
        policy.next_deadline(start + Duration::from_secs(25)),
        Some(start + Duration::from_secs(45))
    );
}

#[test]
fn a_deadline_that_cannot_be_met_is_rejected() {
    let now = Instant::now();
    assert!(LivenessPolicy::try_with_thresholds(
        Duration::from_secs(30),
        Duration::from_secs(30),
        now
    )
    .is_none());
}

#[test]
fn the_deadline_is_the_first_moment_with_something_to_report() {
    let start = Instant::now();
    let policy = LivenessPolicy::new(start);
    let due = policy.next_deadline(start).expect("the clock can express it");
    let mut early = policy.clone();
    assert_eq!(early.poll(due - Duration::from_nanos(1)), Liveness::Healthy);
    assert_eq!(early.poll(due), Liveness::SendPing);
    let dead = early.next_deadline(due).expect("the clock can express it");
    assert_eq!(early.poll(dead - Duration::from_nanos(1)), Liveness::Healthy);
    assert_eq!(early.poll(dead), Liveness::Dead);
    // Overdue already: now.
    let late = start + Duration::from_secs(60);
    assert_eq!(early.next_deadline(late), Some(late));
}
