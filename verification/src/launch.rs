//! Creating a pool.
//!
//! A new pool is seeded with a fixed SOL reserve and with a fixed share of
//! the token's total supply, which is minted into the curve's custody. Its
//! liquidity ledger starts at the seeded SOL.

use vstd::prelude::*;
use crate::constants::CREATION_FEE;
use crate::constants::INITIAL_SOL_RESERVE;
use crate::constants::INITIAL_TOKEN_RESERVE_PERCENT;
use crate::constants::MAX_METADATA_URI_LEN;
use crate::constants::MAX_NAME_LEN;
use crate::constants::MAX_SYMBOL_LEN;
use crate::error::ErrorCode;
use crate::state::byte_len;
use crate::state::same_pool;
use crate::state::Identity;
use crate::state::LpAccount;
use crate::state::LpAccountView;
use crate::state::TokenConfig;
use crate::state::TokenConfigView;

verus! {

/// A newly created pool: its two records and the amounts its creation moves.
#[derive(Clone, Debug, PartialEq, Eq)]
pub struct NewPool {
    /// The pool's configuration and reserves.
    pub token_config: TokenConfig,
    /// The pool's liquidity ledger.
    pub lp_account: LpAccount,
    /// Lamports that go from the creator to the platform.
    pub platform_fee: u64,
    /// Tokens that are minted into the curve's custody.
    pub tokens_minted: u64,
}

/// The token reserve that a pool of the given total supply is seeded with.
pub open spec fn initial_token_reserve(total_supply: nat) -> nat {
    total_supply * (INITIAL_TOKEN_RESERVE_PERCENT as nat) / 100
}

/// Why a creation is rejected, or `None` where it goes through.
pub open spec fn create_error(
    name: Seq<char>,
    symbol: Seq<char>,
    metadata_uri: Seq<char>,
    total_supply: nat,
) -> Option<ErrorCode> {
    if byte_len(name) > MAX_NAME_LEN || byte_len(symbol) > MAX_SYMBOL_LEN || byte_len(metadata_uri)
        > MAX_METADATA_URI_LEN {
        Some(ErrorCode::InvalidInput)
    } else if total_supply == 0 {
        Some(ErrorCode::InvalidAmount)
    } else if total_supply * INITIAL_TOKEN_RESERVE_PERCENT > u64::MAX {
        Some(ErrorCode::MathOverflow)
    } else {
        None
    }
}

/// The configuration record of a pool created with these values.
pub open spec fn created_config(
    mint: Seq<u8>,
    creator: Seq<u8>,
    bump: nat,
    name: Seq<char>,
    symbol: Seq<char>,
    metadata_uri: Seq<char>,
    total_supply: nat,
    now: int,
) -> TokenConfigView {
    TokenConfigView {
        mint,
        creator,
        name,
        symbol,
        metadata_uri,
        total_supply,
        initial_supply: initial_token_reserve(total_supply),
        sol_reserves: INITIAL_SOL_RESERVE as nat,
        token_reserves: initial_token_reserve(total_supply),
        tokens_sold: 0,
        total_volume: 0,
        created_at: now,
        bump,
    }
}

/// The liquidity ledger of a pool created with these values.
pub open spec fn created_ledger(mint: Seq<u8>, bump: nat, now: int) -> LpAccountView {
    LpAccountView { mint, liquidity: INITIAL_SOL_RESERVE as nat, timestamp: now, bump }
}

/// Creates the pool of the token `mint` at time `now`.
///
/// Rejects a display string beyond its bound with `InvalidInput`, a zero
/// supply with `InvalidAmount`, and a supply whose seeded share does not
/// compute in 64 bits with `MathOverflow`.
pub fn create_audio_token(
    mint: Identity,
    creator: Identity,
    token_config_bump: u8,
    lp_account_bump: u8,
    name: String,
    symbol: String,
    metadata_uri: String,
    total_supply: u64,
    now: i64,
) -> (r: Result<NewPool, ErrorCode>)
    ensures
        match r {
            Ok(pool) => {
                &&& create_error(name@, symbol@, metadata_uri@, total_supply as nat) is None
                &&& pool.token_config@ == created_config(
                    mint@,
                    creator@,
                    token_config_bump as nat,
                    name@,
                    symbol@,
                    metadata_uri@,
                    total_supply as nat,
                    now as int,
                )
                &&& pool.lp_account@ == created_ledger(mint@, lp_account_bump as nat, now as int)
                &&& pool.token_config@.wf()
                &&& same_pool(pool.token_config@, pool.lp_account@)
                &&& pool.platform_fee == CREATION_FEE
                &&& pool.tokens_minted == initial_token_reserve(total_supply as nat)
            },
            Err(e) => create_error(name@, symbol@, metadata_uri@, total_supply as nat) == Some(e),
        },
{
    if name.as_str().as_bytes().len() > MAX_NAME_LEN {
        return Err(ErrorCode::InvalidInput);
    }
    if symbol.as_str().as_bytes().len() > MAX_SYMBOL_LEN {
        return Err(ErrorCode::InvalidInput);
    }
    if metadata_uri.as_str().as_bytes().len() > MAX_METADATA_URI_LEN {
        return Err(ErrorCode::InvalidInput);
    }
    if total_supply == 0 {
        return Err(ErrorCode::InvalidAmount);
    }
    let initial_token_reserve = total_supply.checked_mul(INITIAL_TOKEN_RESERVE_PERCENT).ok_or(
        ErrorCode::MathOverflow,
    )?.checked_div(100).ok_or(ErrorCode::MathOverflow)?;

    let token_config = TokenConfig {
        mint,
        creator,
        name,
        symbol,
        metadata_uri,
        total_supply,
        initial_supply: initial_token_reserve,
        sol_reserves: INITIAL_SOL_RESERVE,
        token_reserves: initial_token_reserve,
        tokens_sold: 0,
        total_volume: 0,
        created_at: now,
        bump: token_config_bump,
    };
    let lp_account = LpAccount {
        mint,
        liquidity: INITIAL_SOL_RESERVE,
        timestamp: now,
        bump: lp_account_bump,
    };
    Ok(
        NewPool {
            token_config,
            lp_account,
            platform_fee: CREATION_FEE,
            tokens_minted: initial_token_reserve,
        },
    )
}

} // verus!
