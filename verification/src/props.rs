//! Trace-level laws of the registration loop.
//!
//! A run of the loop is a starting machine plus the sequence of outcomes the
//! host observed, folded through the transition function.  The statements
//! here hold of every well-formed trace, whatever the chain did: the cost
//! gate is never bypassed, consecutive submissions are spaced by at least one
//! nominal block time, a finalization watch always resolves before the next
//! submission, and the accepted head numbers strictly increase.

use vstd::prelude::*;

use crate::estimator::BASE_BLOCK_TIME_MS;
use crate::machine::Action;
use crate::machine::Event;
use crate::machine::Machine;
use crate::machine::expected;
use crate::machine::step_spec;

verus! {

/// The machine after feeding a run's outcomes, first to last.
pub open spec fn run(m0: Machine, evs: Seq<Event>) -> Machine
    decreases evs.len(),
{
    if evs.len() == 0 {
        m0
    } else {
        step_spec(run(m0, evs.drop_last()), evs.last()).0
    }
}

/// The machine just before outcome `i` of the run.
pub open spec fn state_at(m0: Machine, evs: Seq<Event>, i: int) -> Machine {
    run(m0, evs.take(i))
}

/// The action the machine issued at outcome `i` of the run.
pub open spec fn action_at(m0: Machine, evs: Seq<Event>, i: int) -> Action {
    step_spec(state_at(m0, evs, i), evs[i]).1
}

/// A well-formed trace: the run starts well-formed, every outcome arrives in
/// the phase that awaits it, and the clock stamps are monotone and stay
/// clear of the end of the `u64` range.
pub open spec fn wf_trace(m0: Machine, evs: Seq<Event>) -> bool {
    &&& m0.wf()
    &&& forall|i: int|
        0 <= i < evs.len() ==> {
            &&& expected(#[trigger] state_at(m0, evs, i), evs[i])
            &&& evs[i].now_ms() >= state_at(m0, evs, i).now_ms
            &&& evs[i].now_ms() + BASE_BLOCK_TIME_MS <= u64::MAX
        }
}

/// The block number a head outcome carries.
pub open spec fn head_number(e: Event) -> u32 {
    match e {
        Event::Head { number, .. } => number,
        _ => 0,
    }
}

/// Unfolds the run by one outcome.
proof fn lemma_run_unfold(m0: Machine, evs: Seq<Event>, i: int)
    requires
        0 <= i < evs.len(),
    ensures
        state_at(m0, evs, i + 1) == step_spec(state_at(m0, evs, i), evs[i]).0,
{
    assert(evs.take(i + 1).drop_last() =~= evs.take(i));
    assert(evs.take(i + 1).last() == evs[i]);
}

/// One step's facts, at the spec level: the transition preserves the
/// machine's invariant and the run's constants, moves every monotone field
/// forward, and characterizes the submission and head-acceptance steps.
proof fn lemma_step_facts(m: Machine, e: Event)
    requires
        m.wf(),
        expected(m, e),
        e.now_ms() >= m.now_ms,
        e.now_ms() + BASE_BLOCK_TIME_MS <= u64::MAX,
    ensures
        step_spec(m, e).0.wf(),
        step_spec(m, e).0.now_ms == e.now_ms(),
        step_spec(m, e).0.netuid == m.netuid,
        step_spec(m, e).0.max_cost == m.max_cost,
        step_spec(m, e).0.iteration >= m.iteration,
        m.attempted ==> step_spec(m, e).0.attempted
            && step_spec(m, e).0.last_attempt_ms >= m.last_attempt_ms,
        m.seen_head ==> step_spec(m, e).0.seen_head
            && step_spec(m, e).0.last_head >= m.last_head,
        step_spec(m, e).1 is Submit ==> m.phase is CheckingCost
            && (e matches Event::CostRead { read, .. } && read matches Some(c)
                && c <= m.max_cost)
            && step_spec(m, e).0.attempted
            && step_spec(m, e).0.last_attempt_ms == e.now_ms()
            && step_spec(m, e).0.phase is Submitting
            && (m.attempted ==> e.now_ms() >= m.last_attempt_ms + BASE_BLOCK_TIME_MS),
        e matches Event::Head { number, .. } ==> ((step_spec(m, e).1 is ReadCost <==> (!m.seen_head
            || number > m.last_head)) && (step_spec(m, e).1 is ReadCost ==> step_spec(
            m,
            e,
        ).0.seen_head && step_spec(m, e).0.last_head == number)),
        e matches Event::Submitted { .. } ==> step_spec(m, e).0.phase is AwaitingFinalization,
        m.phase is AwaitingFinalization ==> (e matches Event::FinalizedOk { .. } || e matches Event::DispatchFailed { .. }
            || e matches Event::Cancelled { .. }),
        e matches Event::FinalizedOk { .. } ==> step_spec(m, e).0.phase is Done,
        e matches Event::Cancelled { .. } ==> step_spec(m, e).0.phase is Done,
{
}

/// Every state a well-formed trace passes through is well-formed.
pub proof fn lemma_states_wf(m0: Machine, evs: Seq<Event>, i: int)
    requires
        wf_trace(m0, evs),
        0 <= i <= evs.len(),
    ensures
        state_at(m0, evs, i).wf(),
    decreases i,
{
    if i > 0 {
        lemma_states_wf(m0, evs, i - 1);
        lemma_run_unfold(m0, evs, i - 1);
        lemma_step_facts(state_at(m0, evs, i - 1), evs[i - 1]);
    }
}

/// The run's constants stay fixed, and its monotone fields move forward,
/// between any two points of a well-formed trace.
pub proof fn lemma_run_monotone(m0: Machine, evs: Seq<Event>, i: int, j: int)
    requires
        wf_trace(m0, evs),
        0 <= i <= j <= evs.len(),
    ensures
        state_at(m0, evs, j).netuid == state_at(m0, evs, i).netuid,
        state_at(m0, evs, j).max_cost == state_at(m0, evs, i).max_cost,
        state_at(m0, evs, j).now_ms >= state_at(m0, evs, i).now_ms,
        state_at(m0, evs, j).iteration >= state_at(m0, evs, i).iteration,
        state_at(m0, evs, i).attempted ==> state_at(m0, evs, j).attempted
            && state_at(m0, evs, j).last_attempt_ms >= state_at(m0, evs, i).last_attempt_ms,
        state_at(m0, evs, i).seen_head ==> state_at(m0, evs, j).seen_head
            && state_at(m0, evs, j).last_head >= state_at(m0, evs, i).last_head,
    decreases j - i,
{
    if i < j {
        lemma_run_monotone(m0, evs, i, j - 1);
        lemma_states_wf(m0, evs, j - 1);
        lemma_run_unfold(m0, evs, j - 1);
        lemma_step_facts(state_at(m0, evs, j - 1), evs[j - 1]);
    }
}

/// Cost gate: a submission is only ever issued at an outcome that is a cost
/// read whose cost cleared the run's bound.  No tick whose most recently
/// read cost exceeded `max_cost` submits.
pub proof fn lemma_cost_gate(m0: Machine, evs: Seq<Event>, i: int)
    requires
        wf_trace(m0, evs),
        0 <= i < evs.len(),
        action_at(m0, evs, i) is Submit,
    ensures
        evs[i] matches Event::CostRead { read, .. } && read matches Some(c)
            && c <= m0.max_cost,
{
    lemma_states_wf(m0, evs, i);
    lemma_run_monotone(m0, evs, 0, i);
    lemma_step_facts(state_at(m0, evs, i), evs[i]);
    assert(evs.take(0) =~= Seq::<Event>::empty());
}

/// Spacing: any two submissions of a well-formed trace are issued at least
/// one nominal block time apart on the wall clock.
pub proof fn lemma_submission_spacing(m0: Machine, evs: Seq<Event>, i: int, j: int)
    requires
        wf_trace(m0, evs),
        0 <= i < j < evs.len(),
        action_at(m0, evs, i) is Submit,
        action_at(m0, evs, j) is Submit,
    ensures
        evs[j].now_ms() >= evs[i].now_ms() + BASE_BLOCK_TIME_MS,
{
    lemma_states_wf(m0, evs, i);
    lemma_step_facts(state_at(m0, evs, i), evs[i]);
    lemma_run_unfold(m0, evs, i);
    lemma_run_monotone(m0, evs, i + 1, j);
    lemma_states_wf(m0, evs, j);
    lemma_step_facts(state_at(m0, evs, j), evs[j]);
}

/// No overlap: once a submission has been accepted and its finalization
/// watch opened, the very next outcome of a trace that later submits again
/// resolves that watch — here necessarily as a dispatch failure, since a
/// successful finalization ends the run.  No `burned_register` is issued
/// while a watch is unresolved.
pub proof fn lemma_no_overlapping_submissions(m0: Machine, evs: Seq<Event>, k: int, j: int)
    requires
        wf_trace(m0, evs),
        0 <= k < j < evs.len(),
        evs[k] matches Event::Submitted { .. },
        action_at(m0, evs, j) is Submit,
    ensures
        k + 1 < j,
        evs[k + 1] matches Event::DispatchFailed { .. },
{
    lemma_states_wf(m0, evs, k);
    lemma_step_facts(state_at(m0, evs, k), evs[k]);
    lemma_run_unfold(m0, evs, k);
    lemma_states_wf(m0, evs, k + 1);
    lemma_step_facts(state_at(m0, evs, k + 1), evs[k + 1]);
    lemma_states_wf(m0, evs, j);
    lemma_step_facts(state_at(m0, evs, j), evs[j]);
    // The machine awaits the watch at `k + 1`, so that outcome resolves it;
    // success or cancellation would end the run before the submission at `j`.
    if k + 1 < j {
        lemma_run_unfold(m0, evs, k + 1);
        if !(evs[k + 1] matches Event::DispatchFailed { .. }) {
            // The run would be over at `k + 2`, yet the trace still holds an
            // outcome there — nothing is expected once the run is over.
            assert(state_at(m0, evs, k + 2).phase is Done);
            assert(expected(state_at(m0, evs, k + 2), evs[k + 2]));
        }
    }
}

/// Monotone head: the block numbers of the heads the loop accepts as ticks
/// strictly increase along any well-formed trace.
pub proof fn lemma_heads_strictly_increase(m0: Machine, evs: Seq<Event>, i: int, j: int)
    requires
        wf_trace(m0, evs),
        0 <= i < j < evs.len(),
        evs[i] matches Event::Head { .. },
        evs[j] matches Event::Head { .. },
        action_at(m0, evs, i) is ReadCost,
        action_at(m0, evs, j) is ReadCost,
    ensures
        head_number(evs[j]) > head_number(evs[i]),
{
    lemma_states_wf(m0, evs, i);
    lemma_step_facts(state_at(m0, evs, i), evs[i]);
    lemma_run_unfold(m0, evs, i);
    lemma_run_monotone(m0, evs, i + 1, j);
    lemma_states_wf(m0, evs, j);
    lemma_step_facts(state_at(m0, evs, j), evs[j]);
}

} // verus!
