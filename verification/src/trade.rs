//! Buying from and selling to the curve.
//!
//! A buy pays SOL in and takes tokens out; a sell pays tokens in and takes
//! SOL out. The platform's fee is taken on the SOL side of both. The recorded
//! SOL reserve grows by the whole amount a buyer pays, though only what is
//! left after the fee is sent to the curve.

use vstd::prelude::*;
use crate::constants::PLATFORM_FEE_BPS;
use crate::curve::amount_out;
use crate::curve::quote_swap;
use crate::curve::reserve_after;
use crate::curve::swap_error;
use crate::error::ErrorCode;
use crate::fees::net_of_fee;
use crate::fees::platform_fee;
use crate::fees::spec_platform_fee;
use crate::state::TokenConfig;
use crate::state::TokenConfigView;

verus! {

/// The amounts a buy moves.
#[derive(Clone, Copy, Debug, PartialEq, Eq, Structural)]
pub struct BuyReceipt {
    /// Tokens that go from the curve to the buyer.
    pub tokens_out: u64,
    /// Lamports that go from the buyer to the curve.
    pub sol_to_curve: u64,
    /// Lamports that go from the buyer to the platform.
    pub platform_fee: u64,
}

/// The amounts a sell moves.
#[derive(Clone, Copy, Debug, PartialEq, Eq, Structural)]
pub struct SellReceipt {
    /// Tokens that go from the seller to the curve.
    pub tokens_in: u64,
    /// Lamports that leave the curve: the seller's part and the fee.
    pub sol_out: u64,
    /// Lamports that go from the curve to the seller.
    pub sol_to_seller: u64,
    /// Lamports that go from the curve to the platform.
    pub platform_fee: u64,
}

/// The tokens a buy of `sol_amount` takes out of the pool.
pub open spec fn tokens_for(config: TokenConfigView, sol_amount: nat) -> nat {
    amount_out(config.sol_reserves, config.token_reserves, sol_amount)
}

/// The lamports a sell of `token_amount` takes out of the pool, fee included.
pub open spec fn sol_for(config: TokenConfigView, token_amount: nat) -> nat {
    amount_out(config.token_reserves, config.sol_reserves, token_amount)
}

/// Why a buy is rejected, or `None` where it goes through.
pub open spec fn buy_error(config: TokenConfigView, sol_amount: nat, min_tokens_out: nat) -> Option<
    ErrorCode,
> {
    match swap_error(config.sol_reserves, config.token_reserves, sol_amount) {
        Some(e) => Some(e),
        None => if tokens_for(config, sol_amount) < min_tokens_out {
            Some(ErrorCode::SlippageExceeded)
        } else if sol_amount * PLATFORM_FEE_BPS > u64::MAX || config.tokens_sold + tokens_for(
            config,
            sol_amount,
        ) > u64::MAX || config.total_volume + sol_amount > u64::MAX {
            Some(ErrorCode::MathOverflow)
        } else {
            None
        },
    }
}

/// The pool after a buy of `sol_amount`.
pub open spec fn after_buy(config: TokenConfigView, sol_amount: nat) -> TokenConfigView {
    config.with_trading_state(
        config.sol_reserves + sol_amount,
        reserve_after(config.sol_reserves, config.token_reserves, sol_amount),
        config.tokens_sold + tokens_for(config, sol_amount),
        config.total_volume + sol_amount,
    )
}

/// Why a sell is rejected, or `None` where it goes through.
pub open spec fn sell_error(config: TokenConfigView, token_amount: nat, min_sol_out: nat) -> Option<
    ErrorCode,
> {
    match swap_error(config.token_reserves, config.sol_reserves, token_amount) {
        Some(e) => Some(e),
        None => if sol_for(config, token_amount) * PLATFORM_FEE_BPS > u64::MAX {
            Some(ErrorCode::MathOverflow)
        } else if net_of_fee(sol_for(config, token_amount)) < min_sol_out {
            Some(ErrorCode::SlippageExceeded)
        } else if config.total_volume + sol_for(config, token_amount) > u64::MAX {
            Some(ErrorCode::MathOverflow)
        } else {
            None
        },
    }
}

/// The pool after a sell of `token_amount`.
pub open spec fn after_sell(config: TokenConfigView, token_amount: nat) -> TokenConfigView {
    config.with_trading_state(
        reserve_after(config.token_reserves, config.sol_reserves, token_amount),
        config.token_reserves + token_amount,
        if config.tokens_sold >= token_amount {
            (config.tokens_sold - token_amount) as nat
        } else {
            0
        },
        config.total_volume + sol_for(config, token_amount),
    )
}

/// Buys tokens from the curve for `sol_amount` lamports, fee included.
///
/// The buyer gets what the token reserve hands out for the whole
/// `sol_amount`, and the buy is rejected with `SlippageExceeded` where that
/// is less than `min_tokens_out`. A rejected buy leaves the pool as it was.
pub fn buy_tokens(token_config: &mut TokenConfig, sol_amount: u64, min_tokens_out: u64) -> (r:
    Result<BuyReceipt, ErrorCode>)
    ensures
        old(token_config)@.wf() ==> final(token_config)@.wf(),
        match r {
            Ok(receipt) => {
                &&& buy_error(old(token_config)@, sol_amount as nat, min_tokens_out as nat) is None
                &&& final(token_config)@ == after_buy(old(token_config)@, sol_amount as nat)
                &&& receipt.tokens_out == tokens_for(old(token_config)@, sol_amount as nat)
                &&& receipt.tokens_out <= old(token_config).token_reserves
                &&& receipt.platform_fee == spec_platform_fee(sol_amount as nat)
                &&& receipt.sol_to_curve == net_of_fee(sol_amount as nat)
                &&& receipt.sol_to_curve + receipt.platform_fee == sol_amount
            },
            Err(e) => {
                &&& buy_error(old(token_config)@, sol_amount as nat, min_tokens_out as nat) == Some(
                    e,
                )
                &&& *final(token_config) == *old(token_config)
            },
        },
{
    let quote = quote_swap(token_config.sol_reserves, token_config.token_reserves, sol_amount)?;
    if quote.amount_out < min_tokens_out {
        return Err(ErrorCode::SlippageExceeded);
    }
    let platform_fee = platform_fee(sol_amount)?;
    let sol_to_curve = sol_amount.checked_sub(platform_fee).ok_or(ErrorCode::MathOverflow)?;
    let tokens_sold = token_config.tokens_sold.checked_add(quote.amount_out).ok_or(
        ErrorCode::MathOverflow,
    )?;
    let total_volume = token_config.total_volume.checked_add(sol_amount).ok_or(
        ErrorCode::MathOverflow,
    )?;

    token_config.sol_reserves = quote.new_in_reserve;
    token_config.token_reserves = quote.new_out_reserve;
    token_config.tokens_sold = tokens_sold;
    token_config.total_volume = total_volume;
    Ok(BuyReceipt { tokens_out: quote.amount_out, sol_to_curve, platform_fee })
}

/// Sells `token_amount` tokens back to the curve.
///
/// The seller gets what the SOL reserve hands out less the platform's fee,
/// and the sell is rejected with `SlippageExceeded` where that is less than
/// `min_sol_out`. A rejected sell leaves the pool as it was.
pub fn sell_tokens(token_config: &mut TokenConfig, token_amount: u64, min_sol_out: u64) -> (r:
    Result<SellReceipt, ErrorCode>)
    ensures
        old(token_config)@.wf() ==> final(token_config)@.wf(),
        match r {
            Ok(receipt) => {
                &&& sell_error(old(token_config)@, token_amount as nat, min_sol_out as nat) is None
                &&& final(token_config)@ == after_sell(old(token_config)@, token_amount as nat)
                &&& receipt.tokens_in == token_amount
                &&& receipt.sol_out == sol_for(old(token_config)@, token_amount as nat)
                &&& receipt.platform_fee == spec_platform_fee(receipt.sol_out as nat)
                &&& receipt.sol_to_seller == net_of_fee(receipt.sol_out as nat)
                &&& receipt.sol_to_seller + receipt.platform_fee == receipt.sol_out
                &&& receipt.sol_out <= old(token_config).sol_reserves
            },
            Err(e) => {
                &&& sell_error(old(token_config)@, token_amount as nat, min_sol_out as nat) == Some(
                    e,
                )
                &&& *final(token_config) == *old(token_config)
            },
        },
{
    let quote = quote_swap(token_config.token_reserves, token_config.sol_reserves, token_amount)?;
    let platform_fee = platform_fee(quote.amount_out)?;
    let sol_to_seller = quote.amount_out.checked_sub(platform_fee).ok_or(ErrorCode::MathOverflow)?;
    if sol_to_seller < min_sol_out {
        return Err(ErrorCode::SlippageExceeded);
    }
    let tokens_sold = token_config.tokens_sold.checked_sub(token_amount).unwrap_or(0);
    let total_volume = token_config.total_volume.checked_add(quote.amount_out).ok_or(
        ErrorCode::MathOverflow,
    )?;

    token_config.sol_reserves = quote.new_out_reserve;
    token_config.token_reserves = quote.new_in_reserve;
    token_config.tokens_sold = tokens_sold;
    token_config.total_volume = total_volume;
    Ok(
        SellReceipt {
            tokens_in: token_amount,
            sol_out: quote.amount_out,
            sol_to_seller,
            platform_fee,
        },
    )
}

} // verus!
