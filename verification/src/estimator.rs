//! The block-time estimator: samples a fixed number of finalized blocks and
//! reports a clamped average inter-block duration.
//!
//! The host records the latest finalized block number when sampling starts,
//! then polls the latest finalized head every [`POLL_INTERVAL_MS`].  Each
//! observation (head number, elapsed wall-clock time) is judged by [`poll`],
//! a pure function: keep polling, give up past the hard timeout, or report
//! the clamped average once enough blocks have gone by.

use vstd::prelude::*;

verus! {

/// The lower clamp bound on the estimate: one nominal block time.
pub const BASE_BLOCK_TIME_MS: u64 = 12_000;

/// The upper clamp bound on the estimate.
pub const MAX_BLOCK_TIME_MS: u64 = 60_000;

/// How many blocks one sampling run waits for.
pub const SAMPLE_SIZE: u32 = 10;

/// The hard timeout on one sampling run.
pub const MAX_WAIT_TIME_MS: u64 = 120_000;

/// How long the host sleeps between two polls of the finalized head.
pub const POLL_INTERVAL_MS: u64 = 100;

/// One sampling run: started at some block, waiting for a target block.
pub struct Sampling {
    /// The block number at which the run started.
    pub start_number: u32,
    /// The run is over once the finalized head reaches this number.
    pub target_number: u32,
}

impl Sampling {
    /// The target stands exactly [`SAMPLE_SIZE`] blocks past the start.
    pub open spec fn wf(&self) -> bool {
        self.target_number == self.start_number + SAMPLE_SIZE
    }
}

/// What one poll of the finalized head means for the sampling run.
#[derive(Debug, Clone, Copy, PartialEq, Eq, Structural)]
pub enum Poll {
    /// The target block is not reached yet; poll again after a short sleep.
    Continue,
    /// The hard timeout passed before the target block was reached.
    TimedOut,
    /// The target block is reached; the estimate is the clamped average.
    Done {
        /// Average inter-block time over the run, clamped to
        /// `[BASE_BLOCK_TIME_MS, MAX_BLOCK_TIME_MS]`.
        estimate_ms: u64,
        /// The estimate sits at a clamp bound; worth a warning, not an error.
        at_bound: bool,
    },
}

/// The average inter-block time clamped to the accepted range.
pub open spec fn clamp_spec(avg_ms: u64) -> u64 {
    if avg_ms < BASE_BLOCK_TIME_MS {
        BASE_BLOCK_TIME_MS
    } else if avg_ms > MAX_BLOCK_TIME_MS {
        MAX_BLOCK_TIME_MS
    } else {
        avg_ms
    }
}

/// What [`poll`] returns, as a pure function of the observation.
pub open spec fn poll_spec(s: Sampling, head_number: u32, elapsed_ms: u64) -> Poll {
    if head_number >= s.target_number {
        Poll::Done {
            estimate_ms: clamp_spec(elapsed_ms / (SAMPLE_SIZE as u64)),
            at_bound: clamp_spec(elapsed_ms / (SAMPLE_SIZE as u64)) == BASE_BLOCK_TIME_MS
                || clamp_spec(elapsed_ms / (SAMPLE_SIZE as u64)) == MAX_BLOCK_TIME_MS,
        }
    } else if elapsed_ms > MAX_WAIT_TIME_MS {
        Poll::TimedOut
    } else {
        Poll::Continue
    }
}

/// Starts a sampling run at the given finalized block number.
pub fn start(start_number: u32) -> (s: Sampling)
    requires
        start_number + SAMPLE_SIZE <= u32::MAX,
    ensures
        s.start_number == start_number,
        s.wf(),
{
    Sampling { start_number, target_number: start_number + SAMPLE_SIZE }
}

/// Clamps an average inter-block time to `[BASE_BLOCK_TIME_MS,
/// MAX_BLOCK_TIME_MS]` and reports whether the result sits at a bound.
pub fn clamp_estimate(avg_ms: u64) -> (r: (u64, bool))
    ensures
        r.0 == clamp_spec(avg_ms),
        BASE_BLOCK_TIME_MS <= r.0 <= MAX_BLOCK_TIME_MS,
        r.1 == (r.0 == BASE_BLOCK_TIME_MS || r.0 == MAX_BLOCK_TIME_MS),
{
    let clamped: u64 = if avg_ms < BASE_BLOCK_TIME_MS {
        BASE_BLOCK_TIME_MS
    } else if avg_ms > MAX_BLOCK_TIME_MS {
        MAX_BLOCK_TIME_MS
    } else {
        avg_ms
    };
    (clamped, clamped == BASE_BLOCK_TIME_MS || clamped == MAX_BLOCK_TIME_MS)
}

/// Judges one poll of the finalized head, `elapsed_ms` after the run began.
///
/// The run finishes as soon as the head reaches the target block, with the
/// average over the whole elapsed time clamped into the accepted range; it
/// times out if, the target still unreached, more than [`MAX_WAIT_TIME_MS`]
/// has elapsed; otherwise it continues.
pub fn poll(s: &Sampling, head_number: u32, elapsed_ms: u64) -> (r: Poll)
    ensures
        r == poll_spec(*s, head_number, elapsed_ms),
        r matches Poll::Done { estimate_ms, .. }
            ==> BASE_BLOCK_TIME_MS <= estimate_ms <= MAX_BLOCK_TIME_MS,
        r is TimedOut <==> head_number < s.target_number && elapsed_ms > MAX_WAIT_TIME_MS,
{
    if head_number >= s.target_number {
        let (estimate_ms, at_bound) = clamp_estimate(elapsed_ms / (SAMPLE_SIZE as u64));
        Poll::Done { estimate_ms, at_bound }
    } else if elapsed_ms > MAX_WAIT_TIME_MS {
        Poll::TimedOut
    } else {
        Poll::Continue
    }
}

} // verus!
