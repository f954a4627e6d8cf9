//! Protocol parameters.

use vstd::prelude::*;

verus! {

/// Platform fee on the SOL side of a trade, in basis points (0.25%).
pub const PLATFORM_FEE_BPS: u64 = 25;

/// Basis points in one whole.
pub const BASIS_POINTS_DIVISOR: u64 = 10000;

/// Longest token name, in bytes.
pub const MAX_NAME_LEN: usize = 32;

/// Longest token symbol, in bytes.
pub const MAX_SYMBOL_LEN: usize = 10;

/// Longest metadata URI, in bytes.
pub const MAX_METADATA_URI_LEN: usize = 200;

/// SOL reserve a new pool is seeded with, in lamports (0.01 SOL).
pub const INITIAL_SOL_RESERVE: u64 = 10_000_000;

/// Share of the total supply that seeds the token reserve, in percent.
pub const INITIAL_TOKEN_RESERVE_PERCENT: u64 = 10;

/// Flat fee for creating a pool, in lamports (0.02 SOL).
pub const CREATION_FEE: u64 = 20_000_000;

} // verus!
