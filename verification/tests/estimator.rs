//! Tests of the block-time estimator's clamp and poll logic.

use subtensor_registration::estimator::{
    clamp_estimate, poll, start, Poll, Sampling, BASE_BLOCK_TIME_MS, MAX_BLOCK_TIME_MS,
    MAX_WAIT_TIME_MS, POLL_INTERVAL_MS, SAMPLE_SIZE,
};

#[test]
fn start_targets_one_sample_ahead() {
    let s = start(100);
    assert_eq!(s.start_number, 100);
    assert_eq!(s.target_number, 100 + SAMPLE_SIZE);
}

#[test]
fn clamp_low_average_returns_base() {
    // A measured average below 12 s comes back as exactly 12 s, flagged.
    assert_eq!(clamp_estimate(8_000), (BASE_BLOCK_TIME_MS, true));
}

#[test]
fn clamp_high_average_returns_max() {
    // A measured average above 60 s comes back as exactly 60 s, flagged.
    assert_eq!(clamp_estimate(75_000), (MAX_BLOCK_TIME_MS, true));
}

#[test]
fn clamp_mid_average_passes_through() {
    assert_eq!(clamp_estimate(30_000), (30_000, false));
}

#[test]
fn clamp_boundary_values_are_flagged() {
    // Hitting a bound exactly still counts as sitting at the bound.
    assert_eq!(clamp_estimate(12_000), (12_000, true));
    assert_eq!(clamp_estimate(60_000), (60_000, true));
}

#[test]
fn poll_reports_low_average_as_base() {
    // Ten blocks in 80 s: the 8 s average clamps up to 12 s.
    let s = Sampling { start_number: 100, target_number: 110 };
    let p = poll(&s, 110, 80_000);
    assert_eq!(p, Poll::Done { estimate_ms: 12_000, at_bound: true });
}

#[test]
fn poll_reports_high_average_as_max() {
    // Ten blocks in 750 s: the 75 s average clamps down to 60 s.  The
    // target was reached, so the elapsed time past the hard timeout does
    // not matter.
    let s = Sampling { start_number: 100, target_number: 110 };
    let p = poll(&s, 110, 750_000);
    assert_eq!(p, Poll::Done { estimate_ms: 60_000, at_bound: true });
}

#[test]
fn poll_continues_before_target_and_timeout() {
    let s = Sampling { start_number: 100, target_number: 110 };
    assert_eq!(poll(&s, 105, 50_000), Poll::Continue);
}

#[test]
fn poll_times_out_only_past_the_hard_timeout() {
    let s = Sampling { start_number: 100, target_number: 110 };
    // At exactly the hard timeout the run still continues; one instant
    // past it, it gives up.
    assert_eq!(poll(&s, 105, MAX_WAIT_TIME_MS), Poll::Continue);
    assert_eq!(poll(&s, 105, MAX_WAIT_TIME_MS + 1), Poll::TimedOut);
}

#[test]
fn never_advancing_head_times_out_after_max_wait() {
    // A backend that never advances finalization: polling every 100 ms,
    // the run times out right after the hard timeout and not before.
    let s = start(100);
    let mut elapsed_ms: u64 = 0;
    let mut polls: u64 = 0;
    loop {
        match poll(&s, 100, elapsed_ms) {
            Poll::Continue => {
                elapsed_ms += POLL_INTERVAL_MS;
                polls += 1;
            }
            Poll::TimedOut => break,
            Poll::Done { .. } => panic!("the head never reached the target"),
        }
        assert!(polls < 2_000, "the run must have timed out by now");
    }
    assert_eq!(elapsed_ms, MAX_WAIT_TIME_MS + POLL_INTERVAL_MS);
}

#[test]
fn mid_range_average_is_reported_exactly() {
    // Ten blocks in 300 s: a 30 s average is inside the range and comes
    // back untouched, unflagged.
    let s = Sampling { start_number: 7, target_number: 17 };
    let p = poll(&s, 18, 300_000);
    assert_eq!(p, Poll::Done { estimate_ms: 30_000, at_bound: false });
}
