//! Scenarios of the subnet registration loop.

use subtensor_registration::errors::Error;
use subtensor_registration::subnet::{
    prepare, SubnetAction, SubnetEvent, SubnetMachine, SubnetPhase, SubnetRegistrationParams,
};

#[test]
fn first_submission_finalizes() {
    let mut m = SubnetMachine::new(12_000, 0);
    assert_eq!(m.phase, SubnetPhase::Submitting);
    let a1 = m.step(SubnetEvent::Submitted { now_ms: 100 });
    assert_eq!(a1, SubnetAction::WatchFinalization);
    let a2 = m.step(SubnetEvent::FinalizedOk { now_ms: 9_000 });
    assert_eq!(a2, SubnetAction::Stop);
    assert_eq!(m.phase, SubnetPhase::Done { result: Ok(()) });
}

#[test]
fn submit_failure_retries_after_one_estimated_block() {
    let mut m = SubnetMachine::new(12_000, 0);
    let a1 = m.step(SubnetEvent::SubmitFailed { now_ms: 100 });
    assert_eq!(a1, SubnetAction::Sleep { ms: 12_000 });
    let a2 = m.step(SubnetEvent::Slept { now_ms: 12_100 });
    assert_eq!(a2, SubnetAction::Submit);
    assert!(m.last_attempt_ms >= 12_000);
    assert_eq!(m.phase, SubnetPhase::Submitting);
}

#[test]
fn dispatch_failure_then_success() {
    let mut m = SubnetMachine::new(15_000, 0);
    m.step(SubnetEvent::Submitted { now_ms: 100 });
    let a1 = m.step(SubnetEvent::DispatchFailed { now_ms: 5_000 });
    assert_eq!(a1, SubnetAction::Sleep { ms: 15_000 });
    let a2 = m.step(SubnetEvent::Slept { now_ms: 20_000 });
    assert_eq!(a2, SubnetAction::Submit);
    m.step(SubnetEvent::Submitted { now_ms: 20_200 });
    let a3 = m.step(SubnetEvent::FinalizedOk { now_ms: 33_000 });
    assert_eq!(a3, SubnetAction::Stop);
    assert_eq!(m.phase, SubnetPhase::Done { result: Ok(()) });
}

#[test]
fn early_wakeup_keeps_sleeping() {
    let mut m = SubnetMachine::new(12_000, 0);
    m.step(SubnetEvent::SubmitFailed { now_ms: 100 });
    let a = m.step(SubnetEvent::Slept { now_ms: 6_000 });
    assert_eq!(a, SubnetAction::Sleep { ms: 6_100 });
}

#[test]
fn subnet_cancellation_ends_the_run() {
    let mut m = SubnetMachine::new(12_000, 0);
    let a = m.step(SubnetEvent::Cancelled { now_ms: 50 });
    assert_eq!(a, SubnetAction::Stop);
    assert_eq!(m.phase, SubnetPhase::Done { result: Err(Error::Cancelled) });
}

#[test]
fn subnet_bad_coldkey_fails_before_any_action() {
    let params = SubnetRegistrationParams {
        coldkey: String::from("not a seed"),
        chain_endpoint: String::from("ws://127.0.0.1:9944"),
    };
    assert!(matches!(prepare(&params, 12_000, 0), Err(Error::InvalidKey)));
}

#[test]
fn good_coldkey_prepares_a_run() {
    let params = SubnetRegistrationParams {
        coldkey: String::from("//Alice"),
        chain_endpoint: String::from("ws://127.0.0.1:9944"),
    };
    let run = prepare(&params, 30_000, 7).expect("the dev seed parses");
    assert_eq!(run.coldkey.public.len(), 32);
    assert_eq!(run.machine.estimate_ms, 30_000);
    assert_eq!(run.machine.phase, SubnetPhase::Submitting);
}
