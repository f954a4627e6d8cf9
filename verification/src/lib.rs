//! Constant-product bonding-curve market for a community token.
//!
//! A pool holds two recorded reserves, SOL and tokens. Trades move along the
//! curve `sol * token = k`, a platform fee is taken on the SOL side of every
//! trade, and liquidity providers add to and withdraw from both reserves.
//! Every operation is a function from the pool's records and the caller's
//! amounts to the updated records and a receipt of the amounts to be moved;
//! moving them is left to the host.

pub mod constants;
pub mod curve;
pub mod error;
pub mod fees;
pub mod launch;
pub mod laws;
pub mod liquidity;
pub mod settlement;
pub mod state;
pub mod trade;

pub use crate::error::ErrorCode;
pub use crate::launch::create_audio_token;
pub use crate::launch::NewPool;
pub use crate::liquidity::add_liquidity;
pub use crate::liquidity::remove_liquidity;
pub use crate::state::LpAccount;
pub use crate::state::TokenConfig;
pub use crate::trade::buy_tokens;
pub use crate::trade::sell_tokens;
