//! Instructions to the custody ledger.
//!
//! The engine never touches balances. An operation that succeeds hands back
//! the instructions that move the funds; the caller carries them out, in
//! order, and keeps the new escrow record only if every one of them went
//! through.

use vstd::prelude::*;
use crate::party::{Address, Party};

verus! {

/// A value account that an instruction can name.
#[derive(Clone, Copy, Debug, PartialEq, Eq, Structural)]
pub enum CustodyAccount {
    /// The escrow's own holding account, for principal and fee.
    EscrowVault,
    /// The holding account for the buyer's dispute bond.
    BuyerBond,
    /// The holding account for the seller's dispute bond.
    SellerBond,
    /// The seller's own account.
    SellerTokens,
    /// The buyer's own account.
    BuyerTokens,
    /// The arbitrator's account, which collects fees and forfeited bonds.
    ArbitratorTokens,
    /// The funding account of the downstream escrow of a sequential trade.
    SequentialTokens,
}

impl CustodyAccount {
    /// The own account of a side of the trade.
    pub open spec fn tokens_of(party: Party) -> CustodyAccount {
        match party {
            Party::Buyer => CustodyAccount::BuyerTokens,
            Party::Seller => CustodyAccount::SellerTokens,
        }
    }

    /// The account that holds the dispute bond of a side of the trade.
    pub open spec fn bond_of(party: Party) -> CustodyAccount {
        match party {
            Party::Buyer => CustodyAccount::BuyerBond,
            Party::Seller => CustodyAccount::SellerBond,
        }
    }

    /// The own account of a side of the trade.
    pub fn tokens(party: Party) -> (account: CustodyAccount)
        ensures
            account == CustodyAccount::tokens_of(party),
    {
        match party {
            Party::Buyer => CustodyAccount::BuyerTokens,
            Party::Seller => CustodyAccount::SellerTokens,
        }
    }

    /// The account that holds the dispute bond of a side of the trade.
    pub fn bond(party: Party) -> (account: CustodyAccount)
        ensures
            account == CustodyAccount::bond_of(party),
    {
        match party {
            Party::Buyer => CustodyAccount::BuyerBond,
            Party::Seller => CustodyAccount::SellerBond,
        }
    }
}

/// One instruction to the custody ledger. Each succeeds or fails as a whole.
#[derive(Clone, Copy, Debug, PartialEq, Eq)]
pub enum CustodyInstruction {
    /// Move `amount` from a party's own account into a holding account.
    Hold { from: CustodyAccount, into: CustodyAccount, amount: u64 },
    /// Pay `amount` out of a holding account.
    Release { from: CustodyAccount, to: CustodyAccount, amount: u64 },
    /// Close a holding account and return its storage deposit.
    Close { account: CustodyAccount, rent_destination: Address },
}

} // verus!
