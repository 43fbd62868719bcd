//! Tests of the cost oracle's decisions and the error taxonomy.

use subtensor_registration::cost::{cost_acceptable, interpret_cost_read};
use subtensor_registration::errors::Error;
use subtensor_registration::subnet;

#[test]
fn absent_cost_entry_is_unavailable() {
    // An absent `Burn` entry means the subnet id is unknown: fatal.
    let r = interpret_cost_read(None, 42);
    assert_eq!(r, Err(Error::CostUnavailable { netuid: 42 }));
}

#[test]
fn present_cost_entry_is_returned() {
    assert_eq!(interpret_cost_read(Some(123), 1), Ok(123));
}

#[test]
fn cost_gate_bound_is_inclusive() {
    assert!(cost_acceptable(100, 100));
    assert!(cost_acceptable(0, 100));
    assert!(!cost_acceptable(101, 100));
}

#[test]
fn error_messages() {
    assert_eq!(Error::BlockHeaderNotFound.message(), "Block header not found");
    assert_eq!(
        Error::ExceededMaxWaitTime.message(),
        "Exceeded maximum wait time for block sampling"
    );
    assert_eq!(Error::InvalidKey.message(), "Invalid key");
    assert_eq!(Error::InvalidEndpoint.message(), "Invalid chain endpoint");
    assert_eq!(
        Error::CostUnavailable { netuid: 3 }.message(),
        "Burn value not found for the given netuid"
    );
    assert_eq!(Error::StreamClosed.message(), "Finalized block stream closed");
    assert_eq!(Error::Cancelled.message(), "Cancelled");
    assert_eq!(
        Error::SubxtError(String::from("boom")).message(),
        "Subxt error: boom"
    );
    assert_eq!(
        Error::Other(String::from("odd")).message(),
        "Other error: odd"
    );
}

#[test]
fn error_classification() {
    // Fatal: bad inputs, unknown subnet, a closed stream, cancellation.
    assert!(Error::InvalidKey.is_fatal());
    assert!(Error::InvalidEndpoint.is_fatal());
    assert!(Error::CostUnavailable { netuid: 1 }.is_fatal());
    assert!(Error::StreamClosed.is_fatal());
    assert!(Error::Cancelled.is_fatal());
    assert!(Error::ExceededMaxWaitTime.is_fatal());
    assert!(Error::BlockHeaderNotFound.is_fatal());
    // Transient: whatever the chain client reported as text.
    assert!(!Error::SubxtError(String::from("connection reset")).is_fatal());
    assert!(!Error::Other(String::from("hiccup")).is_fatal());
}

#[test]
fn subnet_error_message() {
    let e = subnet::Error::ConnectionError(String::from("refused"));
    assert_eq!(e.message(), "Connection error: refused");
}
