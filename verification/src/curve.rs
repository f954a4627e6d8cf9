//! The constant-product curve.
//!
//! A swap adds `amount_in` to one reserve and pays out of the other, so that
//! the product of the two reserves stays as close below its old value as
//! whole units allow. Buying and selling are the same swap with the two
//! reserves in opposite roles.

use vstd::prelude::*;
use vstd::arithmetic::div_mod::lemma_fundamental_div_mod;
use vstd::arithmetic::div_mod::lemma_mod_bound;
use crate::error::ErrorCode;

verus! {

/// What is left of the paying reserve once `amount_in` has joined the
/// receiving reserve: the old product divided by the new receiving reserve,
/// rounded down.
pub open spec fn reserve_after(in_reserve: nat, out_reserve: nat, amount_in: nat) -> nat {
    (in_reserve * out_reserve) / (in_reserve + amount_in)
}

/// What the paying reserve hands out for `amount_in`.
pub open spec fn amount_out(in_reserve: nat, out_reserve: nat, amount_in: nat) -> nat {
    (out_reserve - reserve_after(in_reserve, out_reserve, amount_in)) as nat
}

/// Why a swap is rejected, or `None` where it goes through.
pub open spec fn swap_error(in_reserve: nat, out_reserve: nat, amount_in: nat) -> Option<
    ErrorCode,
> {
    if amount_in == 0 {
        Some(ErrorCode::InvalidAmount)
    } else if in_reserve * out_reserve > u64::MAX || in_reserve + amount_in > u64::MAX {
        Some(ErrorCode::MathOverflow)
    } else if amount_out(in_reserve, out_reserve, amount_in) == 0 {
        Some(ErrorCode::InvalidAmount)
    } else {
        None
    }
}

/// The paying reserve never grows in a swap, and the product of the reserves
/// drops by exactly the remainder of the division, which is less than the new
/// receiving reserve.
pub proof fn lemma_swap_bounds(in_reserve: nat, out_reserve: nat, amount_in: nat)
    requires
        in_reserve + amount_in > 0,
    ensures
        reserve_after(in_reserve, out_reserve, amount_in) <= out_reserve,
        amount_out(in_reserve, out_reserve, amount_in) <= out_reserve,
        reserve_after(in_reserve, out_reserve, amount_in) + amount_out(
            in_reserve,
            out_reserve,
            amount_in,
        ) == out_reserve,
        (in_reserve + amount_in) * reserve_after(in_reserve, out_reserve, amount_in) == in_reserve
            * out_reserve - (in_reserve * out_reserve) % (in_reserve + amount_in),
        (in_reserve * out_reserve) % (in_reserve + amount_in) < in_reserve + amount_in,
{
    let k = (in_reserve * out_reserve) as int;
    let d = (in_reserve + amount_in) as int;
    let q = k / d;
    lemma_fundamental_div_mod(k, d);
    lemma_mod_bound(k, d);
    assert(k == d * q + k % d);
    assert(q <= out_reserve) by (nonlinear_arith)
        requires
            d > 0,
            d * q <= k,
            k == in_reserve * out_reserve,
            d >= in_reserve,
    {
        if q > out_reserve {
            assert(d * q >= d * (out_reserve + 1));
            assert(d * (out_reserve + 1) > in_reserve * out_reserve);
        }
    }
}

/// The outcome of a swap that goes through.
#[derive(Clone, Copy, Debug, PartialEq, Eq, Structural)]
pub struct SwapQuote {
    /// The receiving reserve after the swap.
    pub new_in_reserve: u64,
    /// The paying reserve after the swap.
    pub new_out_reserve: u64,
    /// What the paying reserve hands out.
    pub amount_out: u64,
}

/// Prices a swap of `amount_in` against the two reserves.
///
/// Rejects a zero `amount_in` and a zero output with `InvalidAmount`, and a
/// product or a sum beyond 64 bits with `MathOverflow`.
pub fn quote_swap(in_reserve: u64, out_reserve: u64, amount_in: u64) -> (r: Result<
    SwapQuote,
    ErrorCode,
>)
    ensures
        match r {
            Ok(quote) => {
                &&& swap_error(in_reserve as nat, out_reserve as nat, amount_in as nat) is None
                &&& quote.new_in_reserve == in_reserve + amount_in
                &&& quote.new_out_reserve == reserve_after(
                    in_reserve as nat,
                    out_reserve as nat,
                    amount_in as nat,
                )
                &&& quote.amount_out == amount_out(
                    in_reserve as nat,
                    out_reserve as nat,
                    amount_in as nat,
                )
                &&& quote.new_out_reserve + quote.amount_out == out_reserve
            },
            Err(e) => swap_error(in_reserve as nat, out_reserve as nat, amount_in as nat) == Some(
                e,
            ),
        },
{
    if amount_in == 0 {
        return Err(ErrorCode::InvalidAmount);
    }
    proof {
        lemma_swap_bounds(in_reserve as nat, out_reserve as nat, amount_in as nat);
    }
    let k = in_reserve.checked_mul(out_reserve).ok_or(ErrorCode::MathOverflow)?;
    let new_in_reserve = in_reserve.checked_add(amount_in).ok_or(ErrorCode::MathOverflow)?;
    let new_out_reserve = k.checked_div(new_in_reserve).ok_or(ErrorCode::MathOverflow)?;
    let amount_out = out_reserve.checked_sub(new_out_reserve).ok_or(
        ErrorCode::InsufficientLiquidity,
    )?;
    if amount_out == 0 {
        return Err(ErrorCode::InvalidAmount);
    }
    if amount_out > out_reserve {
        return Err(ErrorCode::InsufficientLiquidity);
    }
    Ok(SwapQuote { new_in_reserve, new_out_reserve, amount_out })
}

} // verus!
