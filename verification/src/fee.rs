use crate::arith::sat_add64;
use vstd::prelude::*;

verus! {

/// The protocol fee owed on the no-auction settlement path: the flat base fee
/// plus the fee that would otherwise have funded auction initiation, capped
/// at `u64::MAX`. With no competitive bid to absorb excess, both flat fees
/// compensate the relayer that posted the order.
pub open spec fn fee_of(base_fee: u64, init_auction_fee: u64) -> u64 {
    sat_add64(base_fee, init_auction_fee)
}

/// Fee policy: computes the protocol fee with saturating addition, so it
/// never overflows or panics.
pub fn compute_fee(base_fee: u64, init_auction_fee: u64) -> (fee: u64)
    ensures
        fee == fee_of(base_fee, init_auction_fee),
{
    base_fee.saturating_add(init_auction_fee)
}

/// Law: for every pair of inputs the computed fee is at least each input
/// (saturating-add monotonicity); being a `u64`, it never overflows.
pub proof fn lemma_fee_monotone(base_fee: u64, init_auction_fee: u64)
    ensures
        fee_of(base_fee, init_auction_fee) >= base_fee,
        fee_of(base_fee, init_auction_fee) >= init_auction_fee,
{
}

} // verus!
