//! The registration loop as an explicit state machine.
//!
//! One tick of the loop is one observed outcome — a finalized head, a cost
//! read, a submission result, a finalization result, a finished sleep — fed
//! into [`Machine::step`], which is a pure transition: it moves to the next
//! phase and tells the host what to do next.  The host owns the chain client
//! and enacts each [`Action`]; the machine owns every decision: when to
//! submit, when to skip a block, when to back off, when to stop.
//!
//! The contracts pin the loop's safety rules: a submission is only issued
//! for a cost read inside the request's bound, consecutive submissions are spaced
//! by at least one nominal block time, and accepted head numbers strictly
//! increase.  Trace-level statements of those rules are proved in
//! [`crate::props`].

use vstd::prelude::*;

use crate::errors::Error;
use crate::estimator::BASE_BLOCK_TIME_MS;
use crate::keys::KeyPair;
use crate::keys::seed_parses;

verus! {

/// How long the loop sleeps after skipping a block (cost gate closed, or a
/// transient cost-read failure): a one-second floor before the next head.
pub const SKIP_SLEEP_MS: u64 = 1_000;

/// Everything one registration run needs, as parsed from configuration.
#[derive(Debug, Clone)]
pub struct RegistrationRequest {
    /// Secret seed URI of the signing (paying) key.
    pub coldkey: String,
    /// Secret seed URI of the key being registered.
    pub hotkey: String,
    /// Target subnet id.
    pub netuid: u16,
    /// Inclusive upper bound on the acceptable burn cost.
    pub max_cost: u64,
    /// RPC endpoint URL of the chain.
    pub chain_endpoint: String,
}

/// Where the loop stands between two observed outcomes.
#[derive(Debug, PartialEq, Eq)]
pub enum Phase {
    /// Waiting for the next finalized head from the subscription.
    AwaitingHead,
    /// A head arrived; the burn cost is being read.
    CheckingCost {
        /// The block number that triggered this tick.
        block_number: u32,
    },
    /// The cost was acceptable; the extrinsic is being signed and sent.
    Submitting,
    /// The extrinsic was accepted; its finalization watch is unresolved.
    AwaitingFinalization,
    /// Spacing sleep before the next tick.
    Backoff {
        /// The sleep is over once the clock reaches this instant.
        until_ms: u64,
    },
    /// The loop is over.
    Done {
        /// Success, or the fatal error that ended the run.
        result: Result<(), Error>,
    },
}

/// One observed outcome, stamped with the monotone wall clock in
/// milliseconds at which the host observed it.
#[derive(Debug, Clone, Copy, PartialEq, Eq)]
pub enum Event {
    /// The subscription yielded a finalized head.
    Head { now_ms: u64, number: u32 },
    /// The subscription ended.
    StreamEnd { now_ms: u64 },
    /// The burn cost storage read came back: a cost, or an absent entry.
    CostRead { now_ms: u64, read: Option<u64> },
    /// The burn cost storage read failed in transport.
    CostReadFailed { now_ms: u64 },
    /// The signed extrinsic was accepted and a finalization watch opened.
    Submitted { now_ms: u64 },
    /// The submission failed in transport before any watch existed.
    SubmitFailed { now_ms: u64 },
    /// The watched extrinsic was finalized and its dispatch succeeded.
    FinalizedOk { now_ms: u64 },
    /// The watch resolved without success: dispatch error, invalid, dropped.
    DispatchFailed { now_ms: u64 },
    /// The requested sleep is over (or was cut short; the clock decides).
    Slept { now_ms: u64 },
    /// An external shutdown signal arrived.
    Cancelled { now_ms: u64 },
}

impl Event {
    /// The wall-clock stamp of the observation.
    pub open spec fn now_ms(&self) -> u64 {
        match self {
            Event::Head { now_ms, .. } => *now_ms,
            Event::StreamEnd { now_ms } => *now_ms,
            Event::CostRead { now_ms, .. } => *now_ms,
            Event::CostReadFailed { now_ms } => *now_ms,
            Event::Submitted { now_ms } => *now_ms,
            Event::SubmitFailed { now_ms } => *now_ms,
            Event::FinalizedOk { now_ms } => *now_ms,
            Event::DispatchFailed { now_ms } => *now_ms,
            Event::Slept { now_ms } => *now_ms,
            Event::Cancelled { now_ms } => *now_ms,
        }
    }
}

/// What the host is asked to do after a step.
#[derive(Debug, Clone, Copy, PartialEq, Eq)]
pub enum Action {
    /// Await the next finalized head.
    AwaitHead,
    /// Read the burn cost for this subnet at the latest finalized block.
    ReadCost { netuid: u16 },
    /// Sign and submit the `burned_register` extrinsic, with a watch.
    Submit { netuid: u16 },
    /// Await the already-open finalization watch.
    WatchFinalization,
    /// Sleep for this many milliseconds, then report back.
    Sleep { ms: u64 },
    /// The run is over; read the result from the machine.
    Stop,
}

/// The registration loop's state between ticks.
#[derive(Debug)]
pub struct Machine {
    /// Target subnet id; fixed for the run.
    pub netuid: u16,
    /// Inclusive burn cost bound; fixed for the run.
    pub max_cost: u64,
    /// Current phase.
    pub phase: Phase,
    /// How many finalized heads have been accepted as ticks.
    pub iteration: u64,
    /// Whether any head has been accepted yet.
    pub seen_head: bool,
    /// Number of the most recently accepted head; meaningful once
    /// `seen_head` holds.
    pub last_head: u32,
    /// Whether any submission has been issued yet.
    pub attempted: bool,
    /// When the most recent submission was issued; meaningful once
    /// `attempted` holds.
    pub last_attempt_ms: u64,
    /// The latest clock stamp the machine has seen.
    pub now_ms: u64,
}

impl Machine {
    /// The machine's internal invariant; every step preserves it.
    ///
    /// The iteration count never outruns the accepted head numbers (heads
    /// strictly increase, so it stays far from overflow), the clock stamps
    /// are consistent, a submission can only be in flight in the submitting
    /// phases, and — the spacing rule — whenever the machine is in a phase
    /// from which a new submission is reachable, a full nominal block time
    /// has already passed (or is being slept off) since the last one.
    pub open spec fn wf(&self) -> bool {
        &&& self.iteration <= self.last_head as int + 1
        &&& (!self.seen_head ==> self.iteration == 0 && self.last_head == 0)
        &&& (self.attempted ==> self.last_attempt_ms <= self.now_ms)
        &&& ((self.phase is Submitting || self.phase is AwaitingFinalization) ==> self.attempted)
        &&& ((self.phase is AwaitingHead || self.phase is CheckingCost) && self.attempted
                ==> self.now_ms >= self.last_attempt_ms + BASE_BLOCK_TIME_MS)
        &&& (self.phase matches Phase::Backoff { until_ms } ==> (self.attempted
                ==> self.now_ms >= self.last_attempt_ms + BASE_BLOCK_TIME_MS
                    || until_ms >= self.last_attempt_ms + BASE_BLOCK_TIME_MS))
    }

    /// The machine a run starts from.
    pub open spec fn init(netuid: u16, max_cost: u64, start_ms: u64) -> Machine {
        Machine {
            netuid,
            max_cost,
            phase: Phase::AwaitingHead,
            iteration: 0,
            seen_head: false,
            last_head: 0,
            attempted: false,
            last_attempt_ms: 0,
            now_ms: start_ms,
        }
    }

    /// Builds the starting machine for one run.
    pub fn new(netuid: u16, max_cost: u64, start_ms: u64) -> (m: Machine)
        ensures
            m == Machine::init(netuid, max_cost, start_ms),
            m.wf(),
    {
        Machine {
            netuid,
            max_cost,
            phase: Phase::AwaitingHead,
            iteration: 0,
            seen_head: false,
            last_head: 0,
            attempted: false,
            last_attempt_ms: 0,
            now_ms: start_ms,
        }
    }

    /// Steps the machine by one observed outcome and returns what the host
    /// should do next.  The behaviour is exactly [`step_spec`]; the extra
    /// clauses restate the loop's safety rules at this single step:
    /// a submission is issued only for a cost read inside the bound,
    /// never sooner than one nominal block time after the previous one, and
    /// a stale head (number not above the last accepted) is skipped.
    pub fn step(&mut self, e: Event) -> (a: Action)
        requires
            old(self).wf(),
            expected(*old(self), e),
            e.now_ms() >= old(self).now_ms,
            e.now_ms() + BASE_BLOCK_TIME_MS <= u64::MAX,
        ensures
            *final(self) == step_spec(*old(self), e).0,
            a == step_spec(*old(self), e).1,
            final(self).wf(),
            final(self).netuid == old(self).netuid,
            final(self).max_cost == old(self).max_cost,
            final(self).now_ms == e.now_ms(),
            final(self).iteration >= old(self).iteration,
            a is Submit ==> (e matches Event::CostRead { read, .. }
                && read matches Some(c) && c <= old(self).max_cost),
            a is Submit ==> final(self).attempted
                && final(self).last_attempt_ms == e.now_ms()
                && (old(self).attempted
                    ==> e.now_ms() >= old(self).last_attempt_ms + BASE_BLOCK_TIME_MS),
            (e matches Event::Head { number, .. } && old(self).seen_head
                && number <= old(self).last_head) ==> a is AwaitHead,
            e matches Event::Head { number, .. } ==> (a is ReadCost
                ==> final(self).last_head == number
                    && (old(self).seen_head ==> number > old(self).last_head)),
    {
        match e {
            Event::Head { now_ms, number } => {
                if self.seen_head && number <= self.last_head {
                    self.now_ms = now_ms;
                    Action::AwaitHead
                } else {
                    self.now_ms = now_ms;
                    self.iteration = self.iteration + 1;
                    self.seen_head = true;
                    self.last_head = number;
                    self.phase = Phase::CheckingCost { block_number: number };
                    Action::ReadCost { netuid: self.netuid }
                }
            }
            Event::StreamEnd { now_ms } => {
                self.now_ms = now_ms;
                self.phase = Phase::Done { result: Err(Error::StreamClosed) };
                Action::Stop
            }
            Event::CostRead { now_ms, read } => {
                match read {
                    None => {
                        self.now_ms = now_ms;
                        self.phase = Phase::Done {
                            result: Err(Error::CostUnavailable { netuid: self.netuid }),
                        };
                        Action::Stop
                    }
                    Some(cost) => {
                        if cost > self.max_cost {
                            self.now_ms = now_ms;
                            self.phase = Phase::Backoff { until_ms: now_ms + SKIP_SLEEP_MS };
                            Action::Sleep { ms: SKIP_SLEEP_MS }
                        } else {
                            self.now_ms = now_ms;
                            self.attempted = true;
                            self.last_attempt_ms = now_ms;
                            self.phase = Phase::Submitting;
                            Action::Submit { netuid: self.netuid }
                        }
                    }
                }
            }
            Event::CostReadFailed { now_ms } => {
                self.now_ms = now_ms;
                self.phase = Phase::Backoff { until_ms: now_ms + SKIP_SLEEP_MS };
                Action::Sleep { ms: SKIP_SLEEP_MS }
            }
            Event::Submitted { now_ms } => {
                self.now_ms = now_ms;
                self.phase = Phase::AwaitingFinalization;
                Action::WatchFinalization
            }
            Event::SubmitFailed { now_ms } => {
                self.now_ms = now_ms;
                let until_ms: u64 = self.last_attempt_ms + BASE_BLOCK_TIME_MS;
                self.phase = Phase::Backoff { until_ms };
                Action::Sleep { ms: if now_ms < until_ms { until_ms - now_ms } else { 0 } }
            }
            Event::FinalizedOk { now_ms } => {
                self.now_ms = now_ms;
                self.phase = Phase::Done { result: Ok(()) };
                Action::Stop
            }
            Event::DispatchFailed { now_ms } => {
                self.now_ms = now_ms;
                let until_ms: u64 = self.last_attempt_ms + BASE_BLOCK_TIME_MS;
                self.phase = Phase::Backoff { until_ms };
                Action::Sleep { ms: if now_ms < until_ms { until_ms - now_ms } else { 0 } }
            }
            Event::Slept { now_ms } => {
                let until_ms: u64 = match self.phase {
                    Phase::Backoff { until_ms } => until_ms,
                    _ => 0,
                };
                self.now_ms = now_ms;
                if now_ms >= until_ms {
                    self.phase = Phase::AwaitingHead;
                    Action::AwaitHead
                } else {
                    Action::Sleep { ms: until_ms - now_ms }
                }
            }
            Event::Cancelled { now_ms } => {
                self.now_ms = now_ms;
                self.phase = Phase::Done { result: Err(Error::Cancelled) };
                Action::Stop
            }
        }
    }
}

/// Which outcomes can arrive in which phase: each phase awaits the outcome
/// of the one action it issued, and a cancellation can arrive at any
/// suspension point.  Nothing arrives once the run is over.
pub open spec fn expected(m: Machine, e: Event) -> bool {
    if m.phase is Done {
        false
    } else {
        match e {
            Event::Head { .. } => m.phase is AwaitingHead,
            Event::StreamEnd { .. } => m.phase is AwaitingHead,
            Event::CostRead { .. } => m.phase is CheckingCost,
            Event::CostReadFailed { .. } => m.phase is CheckingCost,
            Event::Submitted { .. } => m.phase is Submitting,
            Event::SubmitFailed { .. } => m.phase is Submitting,
            Event::FinalizedOk { .. } => m.phase is AwaitingFinalization,
            Event::DispatchFailed { .. } => m.phase is AwaitingFinalization,
            Event::Slept { .. } => m.phase is Backoff,
            Event::Cancelled { .. } => true,
        }
    }
}

/// The transition function: the next machine and the action the host is
/// asked to enact, as a pure function of the machine and one outcome.
/// Meaningful under [`expected`]`(m, e)`.
pub open spec fn step_spec(m: Machine, e: Event) -> (Machine, Action) {
    match e {
        Event::Head { now_ms, number } => {
            if m.seen_head && number <= m.last_head {
                (Machine { now_ms, ..m }, Action::AwaitHead)
            } else {
                (
                    Machine {
                        now_ms,
                        iteration: (m.iteration + 1) as u64,
                        seen_head: true,
                        last_head: number,
                        phase: Phase::CheckingCost { block_number: number },
                        ..m
                    },
                    Action::ReadCost { netuid: m.netuid },
                )
            }
        }
        Event::StreamEnd { now_ms } => (
            Machine { now_ms, phase: Phase::Done { result: Err(Error::StreamClosed) }, ..m },
            Action::Stop,
        ),
        Event::CostRead { now_ms, read } => {
            match read {
                None => (
                    Machine {
                        now_ms,
                        phase: Phase::Done {
                            result: Err(Error::CostUnavailable { netuid: m.netuid }),
                        },
                        ..m
                    },
                    Action::Stop,
                ),
                Some(cost) => {
                    if cost > m.max_cost {
                        (
                            Machine {
                                now_ms,
                                phase: Phase::Backoff {
                                    until_ms: (now_ms + SKIP_SLEEP_MS) as u64,
                                },
                                ..m
                            },
                            Action::Sleep { ms: SKIP_SLEEP_MS },
                        )
                    } else {
                        (
                            Machine {
                                now_ms,
                                attempted: true,
                                last_attempt_ms: now_ms,
                                phase: Phase::Submitting,
                                ..m
                            },
                            Action::Submit { netuid: m.netuid },
                        )
                    }
                }
            }
        }
        Event::CostReadFailed { now_ms } => (
            Machine {
                now_ms,
                phase: Phase::Backoff { until_ms: (now_ms + SKIP_SLEEP_MS) as u64 },
                ..m
            },
            Action::Sleep { ms: SKIP_SLEEP_MS },
        ),
        Event::Submitted { now_ms } => (
            Machine { now_ms, phase: Phase::AwaitingFinalization, ..m },
            Action::WatchFinalization,
        ),
        Event::SubmitFailed { now_ms } => (
            Machine {
                now_ms,
                phase: Phase::Backoff {
                    until_ms: (m.last_attempt_ms + BASE_BLOCK_TIME_MS) as u64,
                },
                ..m
            },
            Action::Sleep {
                ms: if now_ms < m.last_attempt_ms + BASE_BLOCK_TIME_MS {
                    (m.last_attempt_ms + BASE_BLOCK_TIME_MS - now_ms) as u64
                } else {
                    0
                },
            },
        ),
        Event::FinalizedOk { now_ms } => (
            Machine { now_ms, phase: Phase::Done { result: Ok(()) }, ..m },
            Action::Stop,
        ),
        Event::DispatchFailed { now_ms } => (
            Machine {
                now_ms,
                phase: Phase::Backoff {
                    until_ms: (m.last_attempt_ms + BASE_BLOCK_TIME_MS) as u64,
                },
                ..m
            },
            Action::Sleep {
                ms: if now_ms < m.last_attempt_ms + BASE_BLOCK_TIME_MS {
                    (m.last_attempt_ms + BASE_BLOCK_TIME_MS - now_ms) as u64
                } else {
                    0
                },
            },
        ),
        Event::Slept { now_ms } => {
            let until_ms = match m.phase {
                Phase::Backoff { until_ms } => until_ms,
                _ => 0,
            };
            if now_ms >= until_ms {
                (
                    Machine { now_ms, phase: Phase::AwaitingHead, ..m },
                    Action::AwaitHead,
                )
            } else {
                (
                    Machine { now_ms, ..m },
                    Action::Sleep { ms: (until_ms - now_ms) as u64 },
                )
            }
        }
        Event::Cancelled { now_ms } => (
            Machine { now_ms, phase: Phase::Done { result: Err(Error::Cancelled) }, ..m },
            Action::Stop,
        ),
    }
}

/// A request whose key material has been parsed: the two key pairs and the
/// machine that will drive the run.
pub struct PreparedRegistration {
    /// The parsed paying key.
    pub coldkey: KeyPair,
    /// The parsed key being registered; its public bytes are the extrinsic's
    /// argument.
    pub hotkey: KeyPair,
    /// The loop's starting state.
    pub machine: Machine,
}

/// Parses a request's key material and builds the starting machine.
///
/// Fails with [`Error::InvalidKey`] — before anything else happens — exactly
/// when either seed fails to parse.
pub fn prepare(req: &RegistrationRequest, start_ms: u64) -> (r: Result<
    PreparedRegistration,
    Error,
>)
    ensures
        r is Ok <==> seed_parses(req.coldkey@) && seed_parses(req.hotkey@),
        r matches Ok(p) ==> p.coldkey.wf() && p.coldkey.derived_from(req.coldkey@)
            && p.hotkey.wf() && p.hotkey.derived_from(req.hotkey@)
            && p.machine == Machine::init(req.netuid, req.max_cost, start_ms),
        r matches Err(e) ==> e == Error::InvalidKey,
{
    let coldkey = match KeyPair::from_seed(req.coldkey.as_str()) {
        Ok(k) => k,
        Err(e) => {
            return Err(e);
        }
    };
    let hotkey = match KeyPair::from_seed(req.hotkey.as_str()) {
        Ok(k) => k,
        Err(e) => {
            return Err(e);
        }
    };
    let machine = Machine::new(req.netuid, req.max_cost, start_ms);
    Ok(PreparedRegistration { coldkey, hotkey, machine })
}

} // verus!
