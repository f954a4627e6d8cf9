//! Adding and removing liquidity.
//!
//! A provider adds SOL and tokens in any ratio; the ledger counts the SOL.
//! A withdrawal of `lp_share` units takes the same fraction of both
//! reserves as `lp_share` is of the ledger's total, rounded down.

use vstd::prelude::*;
use vstd::arithmetic::div_mod::lemma_fundamental_div_mod;
use vstd::arithmetic::div_mod::lemma_mod_bound;
use crate::error::ErrorCode;
use crate::state::same_pool;
use crate::state::LpAccount;
use crate::state::LpAccountView;
use crate::state::TokenConfig;
use crate::state::TokenConfigView;

verus! {

/// The amounts a deposit moves, and the ledger's total after it.
#[derive(Clone, Copy, Debug, PartialEq, Eq, Structural)]
pub struct DepositReceipt {
    /// Lamports that go from the provider to the curve.
    pub sol_in: u64,
    /// Tokens that go from the provider to the curve.
    pub tokens_in: u64,
    /// The ledger's total liquidity after the deposit.
    pub liquidity: u64,
}

/// The amounts a withdrawal moves.
#[derive(Clone, Copy, Debug, PartialEq, Eq, Structural)]
pub struct WithdrawalReceipt {
    /// Lamports that go from the curve to the provider.
    pub sol_share: u64,
    /// Tokens that go from the curve to the provider.
    pub token_share: u64,
}

/// The part of `reserve` that `lp_share` units out of `liquidity` stand for,
/// rounded down.
pub open spec fn share_of(reserve: nat, lp_share: nat, liquidity: nat) -> nat {
    (reserve * lp_share) / liquidity
}

/// A share is the proportional part of the reserve to within one unit, and
/// never more than the reserve where no more is withdrawn than the ledger
/// holds.
pub proof fn lemma_share_bounds(reserve: nat, lp_share: nat, liquidity: nat)
    requires
        0 < liquidity,
    ensures
        share_of(reserve, lp_share, liquidity) * liquidity <= reserve * lp_share,
        reserve * lp_share < (share_of(reserve, lp_share, liquidity) + 1) * liquidity,
        lp_share <= liquidity ==> share_of(reserve, lp_share, liquidity) <= reserve,
        lp_share == liquidity ==> share_of(reserve, lp_share, liquidity) == reserve,
{
    let n = (reserve * lp_share) as int;
    let d = liquidity as int;
    let s = n / d;
    lemma_fundamental_div_mod(n, d);
    lemma_mod_bound(n, d);
    assert(s * d == d * s) by (nonlinear_arith);
    assert((s + 1) * d == d * s + d) by (nonlinear_arith);
    if lp_share <= liquidity {
        assert(s <= reserve) by (nonlinear_arith)
            requires
                d > 0,
                d * s <= n,
                n == reserve * lp_share,
                lp_share <= d,
                reserve >= 0,
                lp_share >= 0,
        {
            if s > reserve {
                assert(d * s >= d * (reserve + 1));
                assert(d * (reserve + 1) > reserve * lp_share);
            }
        }
    }
    if lp_share == liquidity {
        assert(s >= reserve) by (nonlinear_arith)
            requires
                d > 0,
                n < d * s + d,
                n == reserve * d,
        {
            if s < reserve {
                assert(d * s + d <= d * reserve);
            }
        }
    }
}

/// Why a deposit is rejected, or `None` where it goes through.
pub open spec fn add_liquidity_error(
    config: TokenConfigView,
    ledger: LpAccountView,
    sol_amount: nat,
    token_amount: nat,
) -> Option<ErrorCode> {
    if sol_amount == 0 || token_amount == 0 {
        Some(ErrorCode::InvalidAmount)
    } else if config.sol_reserves + sol_amount > u64::MAX || config.token_reserves + token_amount
        > u64::MAX || ledger.liquidity + sol_amount > u64::MAX {
        Some(ErrorCode::MathOverflow)
    } else {
        None
    }
}

/// Why a withdrawal is rejected, or `None` where it goes through.
pub open spec fn remove_liquidity_error(
    config: TokenConfigView,
    ledger: LpAccountView,
    lp_share: nat,
) -> Option<ErrorCode> {
    if lp_share == 0 {
        Some(ErrorCode::InvalidAmount)
    } else if lp_share > ledger.liquidity {
        Some(ErrorCode::InsufficientLiquidity)
    } else if config.sol_reserves * lp_share > u64::MAX || config.token_reserves * lp_share
        > u64::MAX {
        Some(ErrorCode::MathOverflow)
    } else {
        None
    }
}

/// Adds `sol_amount` lamports and `token_amount` tokens to the reserves and
/// counts `sol_amount` units of liquidity, at time `now`.
///
/// The two records are those of one pool. Both amounts must be positive;
/// their ratio is not held against the reserves'. A rejected deposit leaves
/// both records as they were.
pub fn add_liquidity(
    token_config: &mut TokenConfig,
    lp_account: &mut LpAccount,
    sol_amount: u64,
    token_amount: u64,
    now: i64,
) -> (r: Result<DepositReceipt, ErrorCode>)
    requires
        same_pool(old(token_config)@, old(lp_account)@),
    ensures
        old(token_config)@.wf() ==> final(token_config)@.wf(),
        same_pool(final(token_config)@, final(lp_account)@),
        match r {
            Ok(receipt) => {
                &&& add_liquidity_error(
                    old(token_config)@,
                    old(lp_account)@,
                    sol_amount as nat,
                    token_amount as nat,
                ) is None
                &&& final(token_config)@ == old(token_config)@.with_trading_state(
                    old(token_config)@.sol_reserves + sol_amount as nat,
                    old(token_config)@.token_reserves + token_amount as nat,
                    old(token_config)@.tokens_sold,
                    old(token_config)@.total_volume,
                )
                &&& final(lp_account)@ == old(lp_account)@.with_liquidity(
                    old(lp_account)@.liquidity + sol_amount as nat,
                    now as int,
                )
                &&& receipt.sol_in == sol_amount
                &&& receipt.tokens_in == token_amount
                &&& receipt.liquidity == old(lp_account).liquidity + sol_amount
            },
            Err(e) => {
                &&& add_liquidity_error(
                    old(token_config)@,
                    old(lp_account)@,
                    sol_amount as nat,
                    token_amount as nat,
                ) == Some(e)
                &&& *final(token_config) == *old(token_config)
                &&& *final(lp_account) == *old(lp_account)
            },
        },
{
    if !(sol_amount > 0 && token_amount > 0) {
        return Err(ErrorCode::InvalidAmount);
    }
    let sol_reserves = token_config.sol_reserves.checked_add(sol_amount).ok_or(
        ErrorCode::MathOverflow,
    )?;
    let token_reserves = token_config.token_reserves.checked_add(token_amount).ok_or(
        ErrorCode::MathOverflow,
    )?;
    let liquidity = lp_account.liquidity.checked_add(sol_amount).ok_or(ErrorCode::MathOverflow)?;

    token_config.sol_reserves = sol_reserves;
    token_config.token_reserves = token_reserves;
    lp_account.liquidity = liquidity;
    lp_account.timestamp = now;
    Ok(DepositReceipt { sol_in: sol_amount, tokens_in: token_amount, liquidity })
}

/// Withdraws `lp_share` units of liquidity at time `now`: the same fraction
/// of each reserve as `lp_share` is of the ledger's total, rounded down.
///
/// The two records are those of one pool. Rejects a zero share with
/// `InvalidAmount` and one beyond the ledger's total with
/// `InsufficientLiquidity`. A rejected withdrawal leaves both records as they
/// were.
pub fn remove_liquidity(
    token_config: &mut TokenConfig,
    lp_account: &mut LpAccount,
    lp_share: u64,
    now: i64,
) -> (r: Result<WithdrawalReceipt, ErrorCode>)
    requires
        same_pool(old(token_config)@, old(lp_account)@),
    ensures
        old(token_config)@.wf() ==> final(token_config)@.wf(),
        same_pool(final(token_config)@, final(lp_account)@),
        match r {
            Ok(receipt) => {
                &&& remove_liquidity_error(old(token_config)@, old(lp_account)@, lp_share as nat)
                    is None
                &&& receipt.sol_share == share_of(
                    old(token_config)@.sol_reserves,
                    lp_share as nat,
                    old(lp_account)@.liquidity,
                )
                &&& receipt.token_share == share_of(
                    old(token_config)@.token_reserves,
                    lp_share as nat,
                    old(lp_account)@.liquidity,
                )
                &&& final(token_config)@ == old(token_config)@.with_trading_state(
                    (old(token_config)@.sol_reserves - receipt.sol_share) as nat,
                    (old(token_config)@.token_reserves - receipt.token_share) as nat,
                    old(token_config)@.tokens_sold,
                    old(token_config)@.total_volume,
                )
                &&& final(lp_account)@ == old(lp_account)@.with_liquidity(
                    (old(lp_account)@.liquidity - lp_share) as nat,
                    now as int,
                )
            },
            Err(e) => {
                &&& remove_liquidity_error(old(token_config)@, old(lp_account)@, lp_share as nat)
                    == Some(e)
                &&& *final(token_config) == *old(token_config)
                &&& *final(lp_account) == *old(lp_account)
            },
        },
{
    if lp_share == 0 {
        return Err(ErrorCode::InvalidAmount);
    }
    let liquidity = lp_account.liquidity;
    let sol_reserves = token_config.sol_reserves;
    let token_reserves = token_config.token_reserves;
    if lp_share > liquidity {
        return Err(ErrorCode::InsufficientLiquidity);
    }
    proof {
        lemma_share_bounds(sol_reserves as nat, lp_share as nat, liquidity as nat);
        lemma_share_bounds(token_reserves as nat, lp_share as nat, liquidity as nat);
    }
    let sol_share = sol_reserves.checked_mul(lp_share).ok_or(
        ErrorCode::MathOverflow,
    )?.checked_div(liquidity).ok_or(ErrorCode::MathOverflow)?;
    let token_share = token_reserves.checked_mul(lp_share).ok_or(
        ErrorCode::MathOverflow,
    )?.checked_div(liquidity).ok_or(ErrorCode::MathOverflow)?;
    let new_sol_reserves = sol_reserves.checked_sub(sol_share).ok_or(ErrorCode::MathOverflow)?;
    let new_token_reserves = token_reserves.checked_sub(token_share).ok_or(
        ErrorCode::MathOverflow,
    )?;
    let new_liquidity = liquidity.checked_sub(lp_share).ok_or(ErrorCode::MathOverflow)?;

    token_config.sol_reserves = new_sol_reserves;
    token_config.token_reserves = new_token_reserves;
    lp_account.liquidity = new_liquidity;
    lp_account.timestamp = now;
    Ok(WithdrawalReceipt { sol_share, token_share })
}

} // verus!
