//! Operator tooling around a Substrate-style chain: an adaptive loop that
//! registers a hotkey on a subnet by burning tokens, a retry loop that
//! registers a new subnet, and the block-time estimator both lean on.
//!
//! The decision logic lives here as explicit state machines: every transition
//! is a pure function of the previous state plus one observed outcome, with a
//! verified contract.  Network I/O (the chain client, subscriptions,
//! submission, sleeping) is driven by a thin unverified host around this
//! library, which feeds observations in and enacts the returned actions.

pub mod cost;
pub mod errors;
pub mod estimator;
pub mod keys;
pub mod machine;
pub mod props;
pub mod subnet;
