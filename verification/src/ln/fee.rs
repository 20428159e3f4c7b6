//! The fee cap on outgoing payments.

use vstd::prelude::*;

use crate::amount::Amount;

verus! {

/// Whether a payment that costs `fee` in routing stays within `max_fee`.
/// Without a cap every fee does.
pub open spec fn fee_within_cap(max_fee: Option<Amount>, fee: Amount) -> bool {
    match max_fee {
        Some(cap) => fee.sat <= cap.sat,
        None => true,
    }
}

/// Decides whether an outgoing payment may be sent over a route that
/// costs `fee`: a backend sends it only where this holds, and otherwise
/// fails the payment whole rather than exceed the cap.
pub fn within_max_fee(max_fee: Option<Amount>, fee: Amount) -> (allowed: bool)
    ensures
        allowed == fee_within_cap(max_fee, fee),
{
    match max_fee {
        Some(cap) => fee.to_sat() <= cap.to_sat(),
        None => true,
    }
}

} // verus!
