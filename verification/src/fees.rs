//! The platform fee.
//!
//! The fee is a fixed share of the SOL side of a trade, rounded down: of the
//! SOL paid in on a buy, and of the SOL paid out on a sell.

use vstd::prelude::*;
use vstd::arithmetic::div_mod::lemma_div_is_ordered;
use crate::constants::BASIS_POINTS_DIVISOR;
use crate::constants::PLATFORM_FEE_BPS;
use crate::error::ErrorCode;

verus! {

/// The fee on `amount` at a rate of `bps` basis points, rounded down.
pub open spec fn fee_at(amount: nat, bps: nat) -> nat {
    (amount * bps) / (BASIS_POINTS_DIVISOR as nat)
}

/// What is left of `amount` once the fee at `bps` basis points is taken.
pub open spec fn net_at(amount: nat, bps: nat) -> nat {
    (amount - fee_at(amount, bps)) as nat
}

/// The platform's fee on `amount`.
pub open spec fn spec_platform_fee(amount: nat) -> nat {
    fee_at(amount, PLATFORM_FEE_BPS as nat)
}

/// What is left of `amount` after the platform's fee.
pub open spec fn net_of_fee(amount: nat) -> nat {
    net_at(amount, PLATFORM_FEE_BPS as nat)
}

/// At a rate of at most one whole the fee never exceeds the amount, so the
/// fee and what is left add up to the amount.
pub proof fn lemma_fee_within_amount(amount: nat, bps: nat)
    requires
        bps <= BASIS_POINTS_DIVISOR,
    ensures
        fee_at(amount, bps) <= amount,
        fee_at(amount, bps) + net_at(amount, bps) == amount,
{
    let d = BASIS_POINTS_DIVISOR as int;
    assert(amount * bps <= amount * d) by (nonlinear_arith)
        requires
            bps <= d,
            amount >= 0,
    ;
    lemma_div_is_ordered((amount * bps) as int, amount * d, d);
    assert((amount * d) / d == amount) by (nonlinear_arith)
        requires
            d > 0,
    ;
}

/// The fee on `amount` at `bps` basis points, computed in 64 bits.
///
/// Rejects an amount whose product with the rate does not fit in 64 bits.
pub fn fee_for(amount: u64, bps: u64) -> (r: Result<u64, ErrorCode>)
    ensures
        match r {
            Ok(fee) => amount * bps <= u64::MAX && fee == fee_at(amount as nat, bps as nat),
            Err(e) => e == ErrorCode::MathOverflow && amount * bps > u64::MAX,
        },
{
    amount.checked_mul(bps).ok_or(ErrorCode::MathOverflow)?.checked_div(
        BASIS_POINTS_DIVISOR,
    ).ok_or(ErrorCode::MathOverflow)
}

/// The platform's fee on `amount`, which is never more than `amount`.
///
/// Rejects an amount whose product with the rate does not fit in 64 bits.
pub fn platform_fee(amount: u64) -> (r: Result<u64, ErrorCode>)
    ensures
        match r {
            Ok(fee) => {
                &&& amount * PLATFORM_FEE_BPS <= u64::MAX
                &&& fee == spec_platform_fee(amount as nat)
                &&& fee <= amount
            },
            Err(e) => e == ErrorCode::MathOverflow && amount * PLATFORM_FEE_BPS > u64::MAX,
        },
{
    proof {
        lemma_fee_within_amount(amount as nat, PLATFORM_FEE_BPS as nat);
    }
    fee_for(amount, PLATFORM_FEE_BPS)
}

} // verus!
