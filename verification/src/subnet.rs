//! The subnet registration loop: submit `register_network` until it
//! finalizes, spaced by the estimated block time.
//!
//! Like the hotkey loop, the decisions live in a pure state machine fed by
//! observed outcomes; the host connects, signs, submits and sleeps.  The
//! loop starts by submitting at once, and after every transient failure it
//! waits one estimated block time before trying again.

use vstd::prelude::*;
use vstd::string::StringExecFns;

use crate::estimator::BASE_BLOCK_TIME_MS;
use crate::estimator::MAX_BLOCK_TIME_MS;
use crate::keys::KeyPair;
use crate::keys::seed_parses;

verus! {

/// What one subnet registration run needs, as parsed from configuration.
#[derive(Debug, Clone)]
pub struct SubnetRegistrationParams {
    /// Secret seed URI of the signing (paying) key.
    pub coldkey: String,
    /// RPC endpoint URL of the chain.
    pub chain_endpoint: String,
}

/// An error of the pending-extrinsics monitor that runs beside the loop.
#[derive(Debug, Clone, PartialEq, Eq)]
pub enum Error {
    /// The monitor could not reach the chain endpoint.
    ConnectionError(String),
}

impl Error {
    /// The text that [`Error::message`] returns, at the spec level.
    pub open spec fn message_spec(&self) -> Seq<char> {
        match self {
            Error::ConnectionError(s) => "Connection error: "@ + s@,
        }
    }

    /// A human-readable description of the error.
    pub fn message(&self) -> (r: String)
        ensures
            r@ == self.message_spec(),
    {
        match self {
            Error::ConnectionError(s) => String::from_str("Connection error: ").concat(s.as_str()),
        }
    }
}

/// Where the subnet loop stands between two observed outcomes.
#[derive(Debug, PartialEq, Eq)]
pub enum SubnetPhase {
    /// The `register_network` extrinsic is being signed and sent.
    Submitting,
    /// The extrinsic was accepted; its finalization watch is unresolved.
    AwaitingFinalization,
    /// Waiting one estimated block time before the next try.
    Backoff {
        /// The sleep is over once the clock reaches this instant.
        until_ms: u64,
    },
    /// The loop is over.
    Done {
        /// Success, or the fatal error that ended the run.
        result: Result<(), crate::errors::Error>,
    },
}

/// One observed outcome of the subnet loop, stamped with the monotone wall
/// clock in milliseconds.
#[derive(Debug, Clone, Copy, PartialEq, Eq)]
pub enum SubnetEvent {
    /// The signed extrinsic was accepted and a finalization watch opened.
    Submitted { now_ms: u64 },
    /// The submission failed in transport before any watch existed.
    SubmitFailed { now_ms: u64 },
    /// The watched extrinsic was finalized and its dispatch succeeded.
    FinalizedOk { now_ms: u64 },
    /// The watch resolved without success: dispatch error, invalid, dropped.
    DispatchFailed { now_ms: u64 },
    /// The requested sleep is over.
    Slept { now_ms: u64 },
    /// An external shutdown signal arrived.
    Cancelled { now_ms: u64 },
}

impl SubnetEvent {
    /// The wall-clock stamp of the observation.
    pub open spec fn now_ms(&self) -> u64 {
        match self {
            SubnetEvent::Submitted { now_ms } => *now_ms,
            SubnetEvent::SubmitFailed { now_ms } => *now_ms,
            SubnetEvent::FinalizedOk { now_ms } => *now_ms,
            SubnetEvent::DispatchFailed { now_ms } => *now_ms,
            SubnetEvent::Slept { now_ms } => *now_ms,
            SubnetEvent::Cancelled { now_ms } => *now_ms,
        }
    }
}

/// What the host is asked to do after a subnet loop step.
#[derive(Debug, Clone, Copy, PartialEq, Eq)]
pub enum SubnetAction {
    /// Sign and submit the `register_network` extrinsic, with a watch.
    Submit,
    /// Await the already-open finalization watch.
    WatchFinalization,
    /// Sleep for this many milliseconds, then report back.
    Sleep { ms: u64 },
    /// The run is over; read the result from the machine.
    Stop,
}

/// The subnet loop's state between ticks.
#[derive(Debug)]
pub struct SubnetMachine {
    /// The estimated block time the loop spaces its retries by; fixed for
    /// the run, inside the estimator's clamp range.
    pub estimate_ms: u64,
    /// Current phase.
    pub phase: SubnetPhase,
    /// When the most recent submission was issued.
    pub last_attempt_ms: u64,
    /// The latest clock stamp the machine has seen.
    pub now_ms: u64,
}

/// Which outcomes can arrive in which phase of the subnet loop.
pub open spec fn subnet_expected(m: SubnetMachine, e: SubnetEvent) -> bool {
    if m.phase is Done {
        false
    } else {
        match e {
            SubnetEvent::Submitted { .. } => m.phase is Submitting,
            SubnetEvent::SubmitFailed { .. } => m.phase is Submitting,
            SubnetEvent::FinalizedOk { .. } => m.phase is AwaitingFinalization,
            SubnetEvent::DispatchFailed { .. } => m.phase is AwaitingFinalization,
            SubnetEvent::Slept { .. } => m.phase is Backoff,
            SubnetEvent::Cancelled { .. } => true,
        }
    }
}

/// The subnet loop's transition function.  Meaningful under
/// [`subnet_expected`]`(m, e)`.
pub open spec fn subnet_step_spec(m: SubnetMachine, e: SubnetEvent) -> (
    SubnetMachine,
    SubnetAction,
) {
    match e {
        SubnetEvent::Submitted { now_ms } => (
            SubnetMachine { now_ms, phase: SubnetPhase::AwaitingFinalization, ..m },
            SubnetAction::WatchFinalization,
        ),
        SubnetEvent::SubmitFailed { now_ms } => (
            SubnetMachine {
                now_ms,
                phase: SubnetPhase::Backoff { until_ms: (now_ms + m.estimate_ms) as u64 },
                ..m
            },
            SubnetAction::Sleep { ms: m.estimate_ms },
        ),
        SubnetEvent::FinalizedOk { now_ms } => (
            SubnetMachine { now_ms, phase: SubnetPhase::Done { result: Ok(()) }, ..m },
            SubnetAction::Stop,
        ),
        SubnetEvent::DispatchFailed { now_ms } => (
            SubnetMachine {
                now_ms,
                phase: SubnetPhase::Backoff { until_ms: (now_ms + m.estimate_ms) as u64 },
                ..m
            },
            SubnetAction::Sleep { ms: m.estimate_ms },
        ),
        SubnetEvent::Slept { now_ms } => {
            let until_ms = match m.phase {
                SubnetPhase::Backoff { until_ms } => until_ms,
                _ => 0,
            };
            if now_ms >= until_ms {
                (
                    SubnetMachine {
                        now_ms,
                        phase: SubnetPhase::Submitting,
                        last_attempt_ms: now_ms,
                        ..m
                    },
                    SubnetAction::Submit,
                )
            } else {
                (
                    SubnetMachine { now_ms, ..m },
                    SubnetAction::Sleep { ms: (until_ms - now_ms) as u64 },
                )
            }
        }
        SubnetEvent::Cancelled { now_ms } => (
            SubnetMachine {
                now_ms,
                phase: SubnetPhase::Done { result: Err(crate::errors::Error::Cancelled) },
                ..m
            },
            SubnetAction::Stop,
        ),
    }
}

impl SubnetMachine {
    /// The machine's internal invariant; every step preserves it.
    pub open spec fn wf(&self) -> bool {
        &&& BASE_BLOCK_TIME_MS <= self.estimate_ms <= MAX_BLOCK_TIME_MS
        &&& self.last_attempt_ms <= self.now_ms
        &&& (self.phase matches SubnetPhase::Backoff { until_ms }
                ==> until_ms >= self.last_attempt_ms + self.estimate_ms)
    }

    /// The machine a run starts from: the first submission is issued at
    /// creation, so the run begins in the submitting phase.
    pub open spec fn init(estimate_ms: u64, start_ms: u64) -> SubnetMachine {
        SubnetMachine {
            estimate_ms,
            phase: SubnetPhase::Submitting,
            last_attempt_ms: start_ms,
            now_ms: start_ms,
        }
    }

    /// Builds the starting machine for one subnet registration run.  The
    /// estimate comes from the block-time estimator, so it lies inside the
    /// clamp range.
    pub fn new(estimate_ms: u64, start_ms: u64) -> (m: SubnetMachine)
        requires
            BASE_BLOCK_TIME_MS <= estimate_ms <= MAX_BLOCK_TIME_MS,
        ensures
            m == SubnetMachine::init(estimate_ms, start_ms),
            m.wf(),
    {
        SubnetMachine {
            estimate_ms,
            phase: SubnetPhase::Submitting,
            last_attempt_ms: start_ms,
            now_ms: start_ms,
        }
    }

    /// Steps the subnet loop by one observed outcome.  The behaviour is
    /// exactly [`subnet_step_spec`]; the extra clauses state the loop's
    /// spacing rule at this step: a retry is never issued sooner than one
    /// estimated block time after the previous submission.
    pub fn step(&mut self, e: SubnetEvent) -> (a: SubnetAction)
        requires
            old(self).wf(),
            subnet_expected(*old(self), e),
            e.now_ms() >= old(self).now_ms,
            e.now_ms() + MAX_BLOCK_TIME_MS <= u64::MAX,
        ensures
            *final(self) == subnet_step_spec(*old(self), e).0,
            a == subnet_step_spec(*old(self), e).1,
            final(self).wf(),
            final(self).estimate_ms == old(self).estimate_ms,
            final(self).now_ms == e.now_ms(),
            a is Submit ==> e.now_ms() >= old(self).last_attempt_ms + old(self).estimate_ms
                && final(self).last_attempt_ms == e.now_ms(),
    {
        match e {
            SubnetEvent::Submitted { now_ms } => {
                self.now_ms = now_ms;
                self.phase = SubnetPhase::AwaitingFinalization;
                SubnetAction::WatchFinalization
            }
            SubnetEvent::SubmitFailed { now_ms } => {
                self.now_ms = now_ms;
                self.phase = SubnetPhase::Backoff { until_ms: now_ms + self.estimate_ms };
                SubnetAction::Sleep { ms: self.estimate_ms }
            }
            SubnetEvent::FinalizedOk { now_ms } => {
                self.now_ms = now_ms;
                self.phase = SubnetPhase::Done { result: Ok(()) };
                SubnetAction::Stop
            }
            SubnetEvent::DispatchFailed { now_ms } => {
                self.now_ms = now_ms;
                self.phase = SubnetPhase::Backoff { until_ms: now_ms + self.estimate_ms };
                SubnetAction::Sleep { ms: self.estimate_ms }
            }
            SubnetEvent::Slept { now_ms } => {
                let until_ms: u64 = match self.phase {
                    SubnetPhase::Backoff { until_ms } => until_ms,
                    _ => 0,
                };
                self.now_ms = now_ms;
                if now_ms >= until_ms {
                    self.phase = SubnetPhase::Submitting;
                    self.last_attempt_ms = now_ms;
                    SubnetAction::Submit
                } else {
                    SubnetAction::Sleep { ms: until_ms - now_ms }
                }
            }
            SubnetEvent::Cancelled { now_ms } => {
                self.now_ms = now_ms;
                self.phase = SubnetPhase::Done { result: Err(crate::errors::Error::Cancelled) };
                SubnetAction::Stop
            }
        }
    }
}

/// A subnet registration run ready to start: the parsed paying key and the
/// machine that will drive it.
pub struct SubnetRun {
    /// The parsed paying key.
    pub coldkey: KeyPair,
    /// The loop's starting state.
    pub machine: SubnetMachine,
}

/// Parses the paying key and builds the starting machine for a subnet
/// registration run.  Fails with [`crate::errors::Error::InvalidKey`] —
/// before anything else happens — exactly when the seed fails to parse.
pub fn prepare(params: &SubnetRegistrationParams, estimate_ms: u64, start_ms: u64) -> (r: Result<
    SubnetRun,
    crate::errors::Error,
>)
    requires
        BASE_BLOCK_TIME_MS <= estimate_ms <= MAX_BLOCK_TIME_MS,
    ensures
        r is Ok <==> seed_parses(params.coldkey@),
        r matches Ok(run) ==> run.coldkey.wf() && run.coldkey.derived_from(params.coldkey@)
            && run.machine == SubnetMachine::init(estimate_ms, start_ms),
        r matches Err(e) ==> e == crate::errors::Error::InvalidKey,
{
    let coldkey = match KeyPair::from_seed(params.coldkey.as_str()) {
        Ok(k) => k,
        Err(e) => {
            return Err(e);
        }
    };
    let machine = SubnetMachine::new(estimate_ms, start_ms);
    Ok(SubnetRun { coldkey, machine })
}

} // verus!
