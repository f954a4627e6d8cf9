//! What an operation asks of the host.
//!
//! An operation changes the pool's records and yields a receipt of amounts.
//! The SOL and the tokens themselves are held by the host ledger, and each
//! receipt lists, in order, the movements that the host is to carry out. The
//! operation stands only if all of them succeed.

use vstd::prelude::*;
use crate::launch::NewPool;
use crate::liquidity::DepositReceipt;
use crate::liquidity::WithdrawalReceipt;
use crate::trade::BuyReceipt;
use crate::trade::SellReceipt;

verus! {

/// A holder of SOL or tokens.
#[derive(Clone, Copy, Debug, PartialEq, Eq, Structural)]
pub enum Party {
    /// Who signed the operation: the creator, buyer, seller or provider.
    Signer,
    /// The custody of the pool.
    Curve,
    /// The platform's fee account.
    Platform,
}

/// One movement that the host is asked to carry out.
#[derive(Clone, Copy, Debug, PartialEq, Eq, Structural)]
pub enum Request {
    /// Move `amount` lamports.
    TransferSol { from: Party, to: Party, amount: u64 },
    /// Move `amount` tokens.
    TransferTokens { from: Party, to: Party, amount: u64 },
    /// Mint `amount` tokens into the custody of the pool.
    MintTokens { amount: u64 },
    /// Record the pool's name, symbol and metadata URI with the registry.
    RegisterMetadata,
}

/// The movement of a platform fee from `from`, which is asked for only where
/// the fee is positive.
pub open spec fn fee_requests(from: Party, platform_fee: u64) -> Seq<Request> {
    if platform_fee > 0 {
        seq![Request::TransferSol { from, to: Party::Platform, amount: platform_fee }]
    } else {
        seq![]
    }
}

impl NewPool {
    /// The creation fee, the minting of the seeded reserve, and the
    /// registration of the display fields.
    pub open spec fn spec_requests(&self) -> Seq<Request> {
        seq![
            Request::TransferSol {
                from: Party::Signer,
                to: Party::Platform,
                amount: self.platform_fee,
            },
            Request::MintTokens { amount: self.tokens_minted },
            Request::RegisterMetadata,
        ]
    }

    /// What the creation of the pool asks of the host, in order.
    pub fn requests(&self) -> (r: Vec<Request>)
        ensures
            r@ == self.spec_requests(),
    {
        let mut r = Vec::new();
        r.push(
            Request::TransferSol {
                from: Party::Signer,
                to: Party::Platform,
                amount: self.platform_fee,
            },
        );
        r.push(Request::MintTokens { amount: self.tokens_minted });
        r.push(Request::RegisterMetadata);
        assert(r@ =~= self.spec_requests());
        r
    }
}

impl BuyReceipt {
    /// The buyer's payment to the curve, the fee, and the tokens bought.
    pub open spec fn spec_requests(&self) -> Seq<Request> {
        seq![
            Request::TransferSol {
                from: Party::Signer,
                to: Party::Curve,
                amount: self.sol_to_curve,
            },
        ] + fee_requests(Party::Signer, self.platform_fee) + seq![
            Request::TransferTokens {
                from: Party::Curve,
                to: Party::Signer,
                amount: self.tokens_out,
            },
        ]
    }

    /// What the buy asks of the host, in order.
    pub fn requests(&self) -> (r: Vec<Request>)
        ensures
            r@ == self.spec_requests(),
    {
        let mut r = Vec::new();
        r.push(
            Request::TransferSol {
                from: Party::Signer,
                to: Party::Curve,
                amount: self.sol_to_curve,
            },
        );
        if self.platform_fee > 0 {
            r.push(
                Request::TransferSol {
                    from: Party::Signer,
                    to: Party::Platform,
                    amount: self.platform_fee,
                },
            );
        }
        r.push(
            Request::TransferTokens {
                from: Party::Curve,
                to: Party::Signer,
                amount: self.tokens_out,
            },
        );
        assert(r@ =~= self.spec_requests());
        r
    }
}

impl SellReceipt {
    /// The tokens sold, the seller's proceeds, and the fee.
    pub open spec fn spec_requests(&self) -> Seq<Request> {
        seq![
            Request::TransferTokens {
                from: Party::Signer,
                to: Party::Curve,
                amount: self.tokens_in,
            },
            Request::TransferSol {
                from: Party::Curve,
                to: Party::Signer,
                amount: self.sol_to_seller,
            },
        ] + fee_requests(Party::Curve, self.platform_fee)
    }

    /// What the sell asks of the host, in order.
    pub fn requests(&self) -> (r: Vec<Request>)
        ensures
            r@ == self.spec_requests(),
    {
        let mut r = Vec::new();
        r.push(
            Request::TransferTokens {
                from: Party::Signer,
                to: Party::Curve,
                amount: self.tokens_in,
            },
        );
        r.push(
            Request::TransferSol {
                from: Party::Curve,
                to: Party::Signer,
                amount: self.sol_to_seller,
            },
        );
        if self.platform_fee > 0 {
            r.push(
                Request::TransferSol {
                    from: Party::Curve,
                    to: Party::Platform,
                    amount: self.platform_fee,
                },
            );
        }
        assert(r@ =~= self.spec_requests());
        r
    }
}

impl DepositReceipt {
    /// The provider's SOL and tokens, both into the curve.
    pub open spec fn spec_requests(&self) -> Seq<Request> {
        seq![
            Request::TransferSol { from: Party::Signer, to: Party::Curve, amount: self.sol_in },
            Request::TransferTokens {
                from: Party::Signer,
                to: Party::Curve,
                amount: self.tokens_in,
            },
        ]
    }

    /// What the deposit asks of the host, in order.
    pub fn requests(&self) -> (r: Vec<Request>)
        ensures
            r@ == self.spec_requests(),
    {
        let mut r = Vec::new();
        r.push(Request::TransferSol { from: Party::Signer, to: Party::Curve, amount: self.sol_in });
        r.push(
            Request::TransferTokens {
                from: Party::Signer,
                to: Party::Curve,
                amount: self.tokens_in,
            },
        );
        assert(r@ =~= self.spec_requests());
        r
    }
}

impl WithdrawalReceipt {
    /// The provider's share of the SOL and of the tokens, both out of the
    /// curve.
    pub open spec fn spec_requests(&self) -> Seq<Request> {
        seq![
            Request::TransferSol {
                from: Party::Curve,
                to: Party::Signer,
                amount: self.sol_share,
            },
            Request::TransferTokens {
                from: Party::Curve,
                to: Party::Signer,
                amount: self.token_share,
            },
        ]
    }

    /// What the withdrawal asks of the host, in order.
    pub fn requests(&self) -> (r: Vec<Request>)
        ensures
            r@ == self.spec_requests(),
    {
        let mut r = Vec::new();
        r.push(
            Request::TransferSol { from: Party::Curve, to: Party::Signer, amount: self.sol_share },
        );
        r.push(
            Request::TransferTokens {
                from: Party::Curve,
                to: Party::Signer,
                amount: self.token_share,
            },
        );
        assert(r@ =~= self.spec_requests());
        r
    }
}

} // verus!
