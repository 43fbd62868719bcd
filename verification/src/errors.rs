//! The error taxonomy of the registration utilities.
//!
//! Fatal errors abort a run: bad key material, an unusable endpoint, an absent
//! cost entry, a closed head subscription, cancellation.  Everything the chain
//! client reports transiently is carried as text and drives a retry instead.

use vstd::prelude::*;
use vstd::string::StringExecFns;

verus! {

/// An error surfaced by the registration loops or the block-time estimator.
#[derive(Debug, Clone, PartialEq, Eq)]
pub enum Error {
    /// A header could not be fetched for a finalized block hash.
    BlockHeaderNotFound,
    /// The block-time estimator ran past its hard timeout.
    ExceededMaxWaitTime,
    /// A secret seed failed to parse into a signing key pair.
    InvalidKey,
    /// The chain endpoint could not be used.
    InvalidEndpoint,
    /// The burn cost entry is absent for this subnet id.
    CostUnavailable { netuid: u16 },
    /// The finalized-head subscription ended.
    StreamClosed,
    /// The run was cancelled from outside.
    Cancelled,
    /// An error reported by the chain client, as text.
    SubxtError(String),
    /// Any other error, as text.
    Other(String),
}

impl Error {
    /// The text that [`Error::message`] returns, at the spec level.
    pub open spec fn message_spec(&self) -> Seq<char> {
        match self {
            Error::BlockHeaderNotFound => "Block header not found"@,
            Error::ExceededMaxWaitTime => "Exceeded maximum wait time for block sampling"@,
            Error::InvalidKey => "Invalid key"@,
            Error::InvalidEndpoint => "Invalid chain endpoint"@,
            Error::CostUnavailable { .. } => "Burn value not found for the given netuid"@,
            Error::StreamClosed => "Finalized block stream closed"@,
            Error::Cancelled => "Cancelled"@,
            Error::SubxtError(s) => "Subxt error: "@ + s@,
            Error::Other(s) => "Other error: "@ + s@,
        }
    }

    /// A human-readable description of the error.
    pub fn message(&self) -> (r: String)
        ensures
            r@ == self.message_spec(),
    {
        match self {
            Error::BlockHeaderNotFound => "Block header not found".to_owned(),
            Error::ExceededMaxWaitTime => "Exceeded maximum wait time for block sampling".to_owned(),
            Error::InvalidKey => "Invalid key".to_owned(),
            Error::InvalidEndpoint => "Invalid chain endpoint".to_owned(),
            Error::CostUnavailable { .. } => "Burn value not found for the given netuid".to_owned(),
            Error::StreamClosed => "Finalized block stream closed".to_owned(),
            Error::Cancelled => "Cancelled".to_owned(),
            Error::SubxtError(s) => String::from_str("Subxt error: ").concat(s.as_str()),
            Error::Other(s) => String::from_str("Other error: ").concat(s.as_str()),
        }
    }

    /// Whether the error ends a run, as opposed to driving one more retry.
    pub open spec fn is_fatal_spec(&self) -> bool {
        match self {
            Error::InvalidKey => true,
            Error::InvalidEndpoint => true,
            Error::CostUnavailable { .. } => true,
            Error::StreamClosed => true,
            Error::Cancelled => true,
            Error::ExceededMaxWaitTime => true,
            Error::BlockHeaderNotFound => true,
            Error::SubxtError(_) => false,
            Error::Other(_) => false,
        }
    }

    /// Classifies the error: `true` means fatal, `false` means transient.
    pub fn is_fatal(&self) -> (r: bool)
        ensures
            r == self.is_fatal_spec(),
    {
        match self {
            Error::SubxtError(_) => false,
            Error::Other(_) => false,
            _ => true,
        }
    }
}

} // verus!
