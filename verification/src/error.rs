//! Reasons an operation is rejected.

use vstd::prelude::*;

verus! {

/// Why an operation was rejected. A rejected operation leaves every record
/// as it was.
#[derive(Clone, Copy, Debug, PartialEq, Eq, Structural)]
pub enum ErrorCode {
    /// An amount is zero, or the computed output is zero.
    InvalidAmount,
    /// A display string is longer than its bound.
    InvalidInput,
    /// A 64-bit computation would overflow.
    MathOverflow,
    /// More is asked of a reserve, or of the liquidity ledger, than it holds.
    InsufficientLiquidity,
    /// The computed output is below the caller's floor.
    SlippageExceeded,
    /// Reserved for a check of the deposit ratio.
    InvalidPriceRatio,
}

impl ErrorCode {
    /// The text of the message that goes with each error.
    pub open spec fn spec_message(self) -> Seq<char> {
        match self {
            ErrorCode::InvalidAmount => "Invalid amount"@,
            ErrorCode::InvalidInput => "Invalid input"@,
            ErrorCode::MathOverflow => "Math overflow"@,
            ErrorCode::InsufficientLiquidity => "Insufficient liquidity"@,
            ErrorCode::SlippageExceeded => "Slippage exceeded"@,
            ErrorCode::InvalidPriceRatio => "Invalid price ratio"@,
        }
    }

    /// A short human-readable message for the error.
    pub fn message(&self) -> (text: &'static str)
        ensures
            text@ == self.spec_message(),
    {
        match self {
            ErrorCode::InvalidAmount => "Invalid amount",
            ErrorCode::InvalidInput => "Invalid input",
            ErrorCode::MathOverflow => "Math overflow",
            ErrorCode::InsufficientLiquidity => "Insufficient liquidity",
            ErrorCode::SlippageExceeded => "Slippage exceeded",
            ErrorCode::InvalidPriceRatio => "Invalid price ratio",
        }
    }
}

} // verus!
