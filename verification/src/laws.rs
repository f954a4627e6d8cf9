//! What holds of every pool, whatever the amounts.

use vstd::prelude::*;
use vstd::arithmetic::div_mod::lemma_div_is_ordered;
use vstd::arithmetic::div_mod::lemma_fundamental_div_mod;
use vstd::arithmetic::div_mod::lemma_fundamental_div_mod_converse;
use vstd::arithmetic::div_mod::lemma_mod_bound;
use crate::constants::BASIS_POINTS_DIVISOR;
use crate::constants::PLATFORM_FEE_BPS;
use crate::curve::amount_out;
use crate::curve::lemma_swap_bounds;
use crate::curve::reserve_after;
use crate::error::ErrorCode;
use crate::fees::fee_at;
use crate::fees::lemma_fee_within_amount;
use crate::fees::net_at;
use crate::fees::net_of_fee;
use crate::fees::spec_platform_fee;
use crate::liquidity::lemma_share_bounds;
use crate::liquidity::share_of;
use crate::state::LpAccountView;
use crate::state::TokenConfigView;
use crate::trade::after_buy;
use crate::trade::after_sell;
use crate::trade::buy_error;
use crate::trade::sell_error;
use crate::trade::sol_for;
use crate::trade::tokens_for;

verus! {

/// `x / d`, rounded up.
pub open spec fn ceil_div(x: nat, d: nat) -> nat {
    ((x + d - 1) / (d as int)) as nat
}

/// What the product of the reserves loses to rounding in a buy of
/// `sol_amount`: the remainder of the old product by the new SOL reserve.
pub open spec fn buy_remainder(config: TokenConfigView, sol_amount: nat) -> nat {
    config.product() % (config.sol_reserves + sol_amount)
}

/// What the product of the reserves loses to rounding in a sell of
/// `token_amount`: the remainder of the old product by the new token reserve.
pub open spec fn sell_remainder(config: TokenConfigView, token_amount: nat) -> nat {
    config.product() % (config.token_reserves + token_amount)
}

/// What the recorded SOL reserve loses to rounding when `sol_amount` is
/// spent on tokens and the tokens are sold back at once.
pub open spec fn round_trip_drift(config: TokenConfigView, sol_amount: nat) -> nat {
    ceil_div(buy_remainder(config, sol_amount), config.token_reserves)
}

/// No operation touches what creation fixed: replacing the reserves and the
/// counters keeps the identities, the display strings, the supply, the
/// creation time and the bump, and so keeps a well-formed record well-formed.
pub proof fn lemma_fixed_fields_stay(
    config: TokenConfigView,
    sol_reserves: nat,
    token_reserves: nat,
    tokens_sold: nat,
    total_volume: nat,
)
    ensures
        ({
            let after = config.with_trading_state(
                sol_reserves,
                token_reserves,
                tokens_sold,
                total_volume,
            );
            &&& after.mint == config.mint
            &&& after.creator == config.creator
            &&& after.name == config.name
            &&& after.symbol == config.symbol
            &&& after.metadata_uri == config.metadata_uri
            &&& after.total_supply == config.total_supply
            &&& after.initial_supply == config.initial_supply
            &&& after.created_at == config.created_at
            &&& after.bump == config.bump
            &&& after.wf() == config.wf()
        }),
{
}

/// A buy lowers the product of the reserves by exactly the remainder of the
/// old product by the new SOL reserve, which is less than that reserve: the
/// product never rises, and falls by less than one new SOL reserve.
pub proof fn lemma_buy_product(config: TokenConfigView, sol_amount: nat, min_tokens_out: nat)
    requires
        buy_error(config, sol_amount, min_tokens_out) is None,
    ensures
        after_buy(config, sol_amount).product() + buy_remainder(config, sol_amount)
            == config.product(),
        buy_remainder(config, sol_amount) < config.sol_reserves + sol_amount,
        after_buy(config, sol_amount).product() >= config.product() <==> buy_remainder(
            config,
            sol_amount,
        ) == 0,
{
    lemma_swap_bounds(config.sol_reserves, config.token_reserves, sol_amount);
}

/// Where the new SOL reserve divides the old product, a buy does not lower
/// the product of the reserves.
pub proof fn lemma_buy_keeps_product(config: TokenConfigView, sol_amount: nat, min_tokens_out: nat)
    requires
        buy_error(config, sol_amount, min_tokens_out) is None,
        buy_remainder(config, sol_amount) == 0,
    ensures
        after_buy(config, sol_amount).product() >= config.product(),
{
    lemma_buy_product(config, sol_amount, min_tokens_out);
}

/// A sell lowers the product of the reserves by exactly the remainder of the
/// old product by the new token reserve, which is less than that reserve.
pub proof fn lemma_sell_product(config: TokenConfigView, token_amount: nat, min_sol_out: nat)
    requires
        sell_error(config, token_amount, min_sol_out) is None,
    ensures
        after_sell(config, token_amount).product() + sell_remainder(config, token_amount)
            == config.product(),
        sell_remainder(config, token_amount) < config.token_reserves + token_amount,
{
    let q = config.sol_reserves;
    let a = config.token_reserves;
    lemma_swap_bounds(a, q, token_amount);
    assert(a * q == q * a) by (nonlinear_arith);
    assert(reserve_after(a, q, token_amount) * (a + token_amount) == (a + token_amount)
        * reserve_after(a, q, token_amount)) by (nonlinear_arith);
}

/// A buy raises the SOL reserve by the whole payment and never raises the
/// token reserve; a sell raises the token reserve by the tokens sold and never
/// raises the SOL reserve.
pub proof fn lemma_trade_directions(config: TokenConfigView, amount: nat)
    requires
        amount > 0,
    ensures
        after_buy(config, amount).sol_reserves == config.sol_reserves + amount,
        after_buy(config, amount).token_reserves + tokens_for(config, amount)
            == config.token_reserves,
        after_sell(config, amount).token_reserves == config.token_reserves + amount,
        after_sell(config, amount).sol_reserves + sol_for(config, amount) == config.sol_reserves,
{
    lemma_swap_bounds(config.sol_reserves, config.token_reserves, amount);
    lemma_swap_bounds(config.token_reserves, config.sol_reserves, amount);
}

/// A trade never takes more out of a reserve than the reserve holds, so that
/// neither a buy nor a sell is ever rejected for want of liquidity.
pub proof fn lemma_trade_within_reserves(config: TokenConfigView, amount: nat, floor: nat)
    requires
        amount > 0,
    ensures
        tokens_for(config, amount) <= config.token_reserves,
        sol_for(config, amount) <= config.sol_reserves,
        buy_error(config, amount, floor) != Some(ErrorCode::InsufficientLiquidity),
        sell_error(config, amount, floor) != Some(ErrorCode::InsufficientLiquidity),
{
    lemma_swap_bounds(config.sol_reserves, config.token_reserves, amount);
    lemma_swap_bounds(config.token_reserves, config.sol_reserves, amount);
}

/// The fee on an amount does not fall as the rate rises, and what is left of
/// the amount does not rise. What is left falls strictly exactly where the
/// two fees differ, which they do wherever the amount times the difference
/// of the rates reaches one whole.
pub proof fn lemma_fee_rises_with_rate(amount: nat, low_bps: nat, high_bps: nat)
    requires
        low_bps <= high_bps <= BASIS_POINTS_DIVISOR,
    ensures
        fee_at(amount, low_bps) <= fee_at(amount, high_bps),
        net_at(amount, high_bps) <= net_at(amount, low_bps),
        net_at(amount, high_bps) < net_at(amount, low_bps) <==> fee_at(amount, low_bps) < fee_at(
            amount,
            high_bps,
        ),
        amount * (high_bps - low_bps) >= BASIS_POINTS_DIVISOR ==> fee_at(amount, low_bps) < fee_at(
            amount,
            high_bps,
        ),
{
    let d = BASIS_POINTS_DIVISOR as int;
    let lo = (amount * low_bps) as int;
    let hi = (amount * high_bps) as int;
    assert(hi == lo + amount * (high_bps - low_bps)) by (nonlinear_arith)
        requires
            lo == amount * low_bps,
            hi == amount * high_bps,
    ;
    assert(amount * (high_bps - low_bps) >= 0) by (nonlinear_arith)
        requires
            low_bps <= high_bps,
    ;
    lemma_div_is_ordered(lo, hi, d);
    lemma_fee_within_amount(amount, low_bps);
    lemma_fee_within_amount(amount, high_bps);
    if amount * (high_bps - low_bps) >= d {
        lemma_div_is_ordered(lo + d, hi, d);
        assert((lo + d) / d == lo / d + 1);
    }
}

/// Holding the traded amount fixed, what a trade leaves after the fee falls
/// strictly as the rate rises, wherever the fee itself rises: the lamports
/// that reach the curve on a buy, and those that reach the seller on a sell.
pub proof fn lemma_net_falls_as_rate_rises(amount: nat, low_bps: nat, high_bps: nat)
    requires
        low_bps < high_bps <= BASIS_POINTS_DIVISOR,
        fee_at(amount, low_bps) < fee_at(amount, high_bps),
    ensures
        net_at(amount, high_bps) < net_at(amount, low_bps),
{
    lemma_fee_rises_with_rate(amount, low_bps, high_bps);
}

/// Buying for `sol_amount` and selling the tokens straight back restores the
/// token reserve and the count of tokens sold, and leaves the recorded SOL
/// reserve short by the rounding drift alone, which is at most one lamport
/// where the token reserve is no smaller than the SOL reserve after the buy.
/// The sell pays out `sol_amount` and the drift before the fee, so the seller
/// ends with less than was spent exactly where the fee on the sell outweighs
/// the drift.
pub proof fn lemma_round_trip(config: TokenConfigView, sol_amount: nat)
    requires
        buy_error(config, sol_amount, 0) is None,
        sell_error(after_buy(config, sol_amount), tokens_for(config, sol_amount), 0) is None,
    ensures
        ({
            let bought = after_buy(config, sol_amount);
            let tokens = tokens_for(config, sol_amount);
            let sold = after_sell(bought, tokens);
            let drift = round_trip_drift(config, sol_amount);
            &&& sold.token_reserves == config.token_reserves
            &&& sold.tokens_sold == config.tokens_sold
            &&& sold.sol_reserves + drift == config.sol_reserves
            &&& sol_for(bought, tokens) == sol_amount + drift
            &&& sold.total_volume == config.total_volume + 2 * sol_amount + drift
            &&& (drift - 1) * config.token_reserves < buy_remainder(config, sol_amount) <= drift
                * config.token_reserves
            &&& buy_remainder(config, sol_amount) < config.sol_reserves + sol_amount
            &&& config.token_reserves >= config.sol_reserves + sol_amount ==> drift <= 1
            &&& net_of_fee(sol_for(bought, tokens)) < sol_amount <==> spec_platform_fee(
                sol_amount + drift,
            ) > drift
        }),
{
    let q = config.sol_reserves;
    let a = config.token_reserves;
    let k = q * a;
    let q1 = q + sol_amount;
    let a1 = reserve_after(q, a, sol_amount);
    let tokens = amount_out(q, a, sol_amount);
    let r = k % q1;
    let drift = round_trip_drift(config, sol_amount);
    lemma_swap_bounds(q, a, sol_amount);
    assert(a1 + tokens == a);
    assert(a > 0);
    assert(q1 * a1 == k - r);
    assert(a1 * q1 == k - r) by (nonlinear_arith)
        requires
            q1 * a1 == k - r,
    ;
    // The drift is the remainder over the token reserve, rounded up.
    let m = (r + a - 1) % (a as int);
    lemma_fundamental_div_mod(r + a - 1, a as int);
    lemma_mod_bound(r + a - 1, a as int);
    assert(r + a - 1 == a * drift + m);
    assert(k - r == (q - drift) * a + (a - 1 - m)) by (nonlinear_arith)
        requires
            k == q * a,
            r + a - 1 == a * drift + m,
    ;
    lemma_fundamental_div_mod_converse(k - r, a as int, q - drift, a - 1 - m);
    assert(reserve_after(a1, q1, tokens) == q - drift);
    assert((drift - 1) * a < r <= drift * a) by (nonlinear_arith)
        requires
            r + a - 1 == a * drift + m,
            0 <= m < a,
    ;
    if a >= q1 {
        assert(drift <= 1) by (nonlinear_arith)
            requires
                (drift - 1) * a < r,
                r < q1,
                q1 <= a,
        ;
    }
    lemma_fee_within_amount(sol_amount + drift, PLATFORM_FEE_BPS as nat);
}

/// Where the fee on the sell outweighs the rounding drift, buying for
/// `sol_amount` and selling the tokens straight back returns less than was
/// spent.
pub proof fn lemma_round_trip_loses(config: TokenConfigView, sol_amount: nat)
    requires
        buy_error(config, sol_amount, 0) is None,
        sell_error(after_buy(config, sol_amount), tokens_for(config, sol_amount), 0) is None,
        spec_platform_fee(sol_amount + round_trip_drift(config, sol_amount)) > round_trip_drift(
            config,
            sol_amount,
        ),
    ensures
        net_of_fee(sol_for(after_buy(config, sol_amount), tokens_for(config, sol_amount)))
            < sol_amount,
{
    lemma_round_trip(config, sol_amount);
}

/// On a pool whose token reserve is no smaller than its SOL reserve after
/// the buy, the drift is at most one lamport, and a round trip of 799
/// lamports or more returns less than was spent.
pub proof fn lemma_round_trip_loses_on_deep_pool(config: TokenConfigView, sol_amount: nat)
    requires
        buy_error(config, sol_amount, 0) is None,
        sell_error(after_buy(config, sol_amount), tokens_for(config, sol_amount), 0) is None,
        config.token_reserves >= config.sol_reserves + sol_amount,
        sol_amount >= 799,
    ensures
        round_trip_drift(config, sol_amount) <= 1,
        net_of_fee(sol_for(after_buy(config, sol_amount), tokens_for(config, sol_amount)))
            < sol_amount,
{
    lemma_round_trip(config, sol_amount);
    let drift = round_trip_drift(config, sol_amount);
    assert((sol_amount + drift) * PLATFORM_FEE_BPS >= 10000 * (drift + 1));
}

/// A withdrawal takes from each reserve the proportional part to within one
/// unit: the share times the ledger's total is at most the reserve times the
/// units withdrawn, and less than one ledger's total below it. It never
/// takes more than the reserve, and takes all of it where all units are
/// withdrawn.
pub proof fn lemma_withdrawal_is_proportional(
    config: TokenConfigView,
    ledger: LpAccountView,
    lp_share: nat,
)
    requires
        0 < lp_share <= ledger.liquidity,
    ensures
        ({
            let sol_share = share_of(config.sol_reserves, lp_share, ledger.liquidity);
            let token_share = share_of(config.token_reserves, lp_share, ledger.liquidity);
            &&& sol_share * ledger.liquidity <= config.sol_reserves * lp_share < (sol_share + 1)
                * ledger.liquidity
            &&& token_share * ledger.liquidity <= config.token_reserves * lp_share < (token_share
                + 1) * ledger.liquidity
            &&& sol_share <= config.sol_reserves
            &&& token_share <= config.token_reserves
            &&& lp_share == ledger.liquidity ==> sol_share == config.sol_reserves && token_share
                == config.token_reserves
        }),
{
    lemma_share_bounds(config.sol_reserves, lp_share, ledger.liquidity);
    lemma_share_bounds(config.token_reserves, lp_share, ledger.liquidity);
}

} // verus!
