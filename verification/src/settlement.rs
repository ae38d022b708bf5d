//! The settlement fee: a proportional deduction computed when a channel is
//! finalized.

use vstd::prelude::*;
use crate::error::ErrorCode;

verus! {

/// One basis point is a ten-thousandth.
pub const BPS_DENOMINATOR: u64 = 10_000;

/// The highest fee rate a registry accepts, in basis points: one percent.
pub const MAX_FEE_RATE_BPS: u16 = 100;

/// The fee on `total_deposited` at `fee_rate_bps` basis points, rounded down.
pub open spec fn fee_of(total_deposited: nat, fee_rate_bps: nat) -> nat {
    (total_deposited * fee_rate_bps) / 10_000
}

/// What `settlement_fee` returns: the fee, unless the product of deposit and
/// rate leaves the range of `u64`.
pub open spec fn checked_fee(total_deposited: u64, fee_rate_bps: u16) -> Result<u64, ErrorCode> {
    if total_deposited * fee_rate_bps > u64::MAX {
        Err(ErrorCode::ArithmeticOverflow)
    } else {
        Ok(fee_of(total_deposited as nat, fee_rate_bps as nat) as u64)
    }
}

/// Computes the settlement fee with checked arithmetic.
pub fn settlement_fee(total_deposited: u64, fee_rate_bps: u16) -> (r: Result<u64, ErrorCode>)
    ensures
        r == checked_fee(total_deposited, fee_rate_bps),
{
    match total_deposited.checked_mul(fee_rate_bps as u64) {
        Some(product) => Ok(product / BPS_DENOMINATOR),
        None => Err(ErrorCode::ArithmeticOverflow),
    }
}

/// At a rate of at most one hundred percent the fee never exceeds the deposit.
pub proof fn lemma_fee_at_most_deposit(total_deposited: nat, fee_rate_bps: nat)
    requires
        fee_rate_bps <= 10_000,
    ensures
        fee_of(total_deposited, fee_rate_bps) <= total_deposited,
{
    assert(total_deposited * fee_rate_bps <= total_deposited * 10_000) by (nonlinear_arith)
        requires
            fee_rate_bps <= 10_000,
    ;
}

/// Within the cap the fee is at most one percent of the deposit.
pub proof fn lemma_fee_within_cap(total_deposited: nat, fee_rate_bps: nat)
    requires
        fee_rate_bps <= MAX_FEE_RATE_BPS,
    ensures
        fee_of(total_deposited, fee_rate_bps) <= total_deposited / 100,
{
    assert(total_deposited * fee_rate_bps <= total_deposited * 100) by (nonlinear_arith)
        requires
            fee_rate_bps <= 100,
    ;
    assert((total_deposited * 100) / 10_000 == total_deposited / 100) by (nonlinear_arith);
}

/// The fee is zero exactly when deposit times rate stays under one whole unit.
pub proof fn lemma_fee_zero_iff(total_deposited: nat, fee_rate_bps: nat)
    ensures
        fee_of(total_deposited, fee_rate_bps) == 0 <==> total_deposited * fee_rate_bps < 10_000,
{
}

/// The fee grows with the deposit and with the rate.
pub proof fn lemma_fee_monotone(d1: nat, r1: nat, d2: nat, r2: nat)
    requires
        d1 <= d2,
        r1 <= r2,
    ensures
        fee_of(d1, r1) <= fee_of(d2, r2),
{
    assert(d1 * r1 <= d2 * r2) by (nonlinear_arith)
        requires
            d1 <= d2,
            r1 <= r2,
    ;
}

} // verus!
