//! The cost oracle's decisions.
//!
//! The host reads the `SubtensorModule/Burn` storage entry for a subnet id at
//! the latest finalized block; the entry is either a `u64` burn cost or
//! absent.  What that read means — and whether a read cost clears the
//! caller's bound — is decided here.

use vstd::prelude::*;

use crate::errors::Error;

verus! {

/// Interprets one storage read of the burn cost for subnet `netuid`.
///
/// A present entry is the cost as of that finalized block; an absent entry
/// means the subnet id is unknown, which is fatal.
pub fn interpret_cost_read(read: Option<u64>, netuid: u16) -> (r: Result<u64, Error>)
    ensures
        r is Ok <==> read is Some,
        read matches Some(v) ==> r == Result::<u64, Error>::Ok(v),
        read is None ==> r == Result::<u64, Error>::Err(Error::CostUnavailable { netuid }),
{
    match read {
        Some(v) => Ok(v),
        None => Err(Error::CostUnavailable { netuid }),
    }
}

/// Whether a read burn cost clears the caller's inclusive upper bound.
pub fn cost_acceptable(cost: u64, max_cost: u64) -> (r: bool)
    ensures
        r == (cost <= max_cost),
{
    cost <= max_cost
}

} // verus!
