//! The records of a pool.
//!
//! A pool has two records, both keyed by the mint of its token: the
//! [`TokenConfig`], which holds the display fields fixed at creation, the two
//! recorded reserves and the trade counters, and the [`LpAccount`], which
//! holds the liquidity contributed to the pool.

use vstd::prelude::*;
use vstd::utf8::encode_utf8;
use crate::constants::INITIAL_TOKEN_RESERVE_PERCENT;
use crate::constants::MAX_METADATA_URI_LEN;
use crate::constants::MAX_NAME_LEN;
use crate::constants::MAX_SYMBOL_LEN;

verus! {

/// A 32-byte identity on the host ledger.
pub type Identity = [u8; 32];

/// The length of a string in bytes, which is the unit its bounds are in.
pub open spec fn byte_len(text: Seq<char>) -> nat {
    encode_utf8(text).len()
}

/// The configuration and reserves of one pool.
#[derive(Clone, Debug, PartialEq, Eq)]
pub struct TokenConfig {
    /// The mint of the traded token; the key of the pool.
    pub mint: Identity,
    /// Who created the pool.
    pub creator: Identity,
    /// Display name.
    pub name: String,
    /// Display symbol.
    pub symbol: String,
    /// Where the token's metadata lives.
    pub metadata_uri: String,
    /// Total supply of the token, in its smallest units.
    pub total_supply: u64,
    /// The token reserve the pool was seeded with.
    pub initial_supply: u64,
    /// Recorded SOL reserve, in lamports.
    pub sol_reserves: u64,
    /// Recorded token reserve.
    pub token_reserves: u64,
    /// Tokens bought from the curve and not sold back, never below zero.
    pub tokens_sold: u64,
    /// SOL side of all trades so far, in lamports.
    pub total_volume: u64,
    /// When the pool was created, in seconds.
    pub created_at: i64,
    /// Bump of the record's derived address.
    pub bump: u8,
}

/// The mathematical content of a [`TokenConfig`].
pub struct TokenConfigView {
    pub mint: Seq<u8>,
    pub creator: Seq<u8>,
    pub name: Seq<char>,
    pub symbol: Seq<char>,
    pub metadata_uri: Seq<char>,
    pub total_supply: nat,
    pub initial_supply: nat,
    pub sol_reserves: nat,
    pub token_reserves: nat,
    pub tokens_sold: nat,
    pub total_volume: nat,
    pub created_at: int,
    pub bump: nat,
}

impl View for TokenConfig {
    type V = TokenConfigView;

    open spec fn view(&self) -> TokenConfigView {
        TokenConfigView {
            mint: self.mint@,
            creator: self.creator@,
            name: self.name@,
            symbol: self.symbol@,
            metadata_uri: self.metadata_uri@,
            total_supply: self.total_supply as nat,
            initial_supply: self.initial_supply as nat,
            sol_reserves: self.sol_reserves as nat,
            token_reserves: self.token_reserves as nat,
            tokens_sold: self.tokens_sold as nat,
            total_volume: self.total_volume as nat,
            created_at: self.created_at as int,
            bump: self.bump as nat,
        }
    }
}

impl TokenConfigView {
    /// What creation establishes and no operation changes: the display
    /// strings are within their bounds, the supply is positive, and the
    /// seeded token reserve is its fixed share of the supply.
    pub open spec fn wf(self) -> bool {
        &&& byte_len(self.name) <= MAX_NAME_LEN
        &&& byte_len(self.symbol) <= MAX_SYMBOL_LEN
        &&& byte_len(self.metadata_uri) <= MAX_METADATA_URI_LEN
        &&& self.total_supply > 0
        &&& self.initial_supply == self.total_supply * (INITIAL_TOKEN_RESERVE_PERCENT as nat) / 100
    }

    /// The product of the two recorded reserves.
    pub open spec fn product(self) -> nat {
        self.sol_reserves * self.token_reserves
    }

    /// This record with its reserves and counters replaced, and all that is
    /// fixed at creation kept.
    pub open spec fn with_trading_state(
        self,
        sol_reserves: nat,
        token_reserves: nat,
        tokens_sold: nat,
        total_volume: nat,
    ) -> TokenConfigView {
        TokenConfigView { sol_reserves, token_reserves, tokens_sold, total_volume, ..self }
    }
}

/// The liquidity ledger of one pool.
#[derive(Clone, Copy, Debug, PartialEq, Eq)]
pub struct LpAccount {
    /// The mint of the traded token; the key of the pool.
    pub mint: Identity,
    /// Liquidity contributed so far, in lamports of SOL paid in.
    pub liquidity: u64,
    /// When the ledger last changed, in seconds.
    pub timestamp: i64,
    /// Bump of the record's derived address.
    pub bump: u8,
}

/// The mathematical content of an [`LpAccount`].
pub struct LpAccountView {
    pub mint: Seq<u8>,
    pub liquidity: nat,
    pub timestamp: int,
    pub bump: nat,
}

impl View for LpAccount {
    type V = LpAccountView;

    open spec fn view(&self) -> LpAccountView {
        LpAccountView {
            mint: self.mint@,
            liquidity: self.liquidity as nat,
            timestamp: self.timestamp as int,
            bump: self.bump as nat,
        }
    }
}

impl LpAccountView {
    /// This ledger with its liquidity and timestamp replaced.
    pub open spec fn with_liquidity(self, liquidity: nat, timestamp: int) -> LpAccountView {
        LpAccountView { liquidity, timestamp, ..self }
    }
}

/// The two records belong to the same pool.
pub open spec fn same_pool(config: TokenConfigView, ledger: LpAccountView) -> bool {
    config.mint == ledger.mint
}

} // verus!
