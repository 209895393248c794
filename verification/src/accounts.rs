//! What each operation is told about its caller and about the accounts
//! that came with the call.

use vstd::prelude::*;
use crate::party::Address;

verus! {

/// Accounts of `create_escrow`.
#[derive(Clone, Copy, Debug, PartialEq, Eq)]
pub struct CreateEscrow {
    /// The caller, who becomes the seller.
    pub seller: Address,
    pub buyer: Address,
    /// Address of the record that is being created.
    pub escrow_key: Address,
}

/// Accounts of `fund_escrow`.
#[derive(Clone, Copy, Debug, PartialEq, Eq)]
pub struct FundEscrow {
    /// The caller.
    pub seller: Address,
    pub escrow_key: Address,
    /// What the caller's own account holds.
    pub seller_token_balance: u64,
}

/// Accounts of `mark_fiat_paid`.
#[derive(Clone, Copy, Debug, PartialEq, Eq)]
pub struct MarkFiatPaid {
    /// The caller.
    pub buyer: Address,
    pub escrow_key: Address,
}

/// Accounts of `update_sequential_address`.
#[derive(Clone, Copy, Debug, PartialEq, Eq)]
pub struct UpdateSequentialAddress {
    /// The caller.
    pub buyer: Address,
    pub escrow_key: Address,
}

/// Accounts of `release_escrow`.
#[derive(Clone, Copy, Debug, PartialEq, Eq)]
pub struct ReleaseEscrow {
    /// The caller.
    pub authority: Address,
    pub escrow_key: Address,
    /// Whether the downstream escrow's funding account came with the call.
    pub sequential_escrow_token_account: bool,
}

/// Accounts of `cancel_escrow`.
#[derive(Clone, Copy, Debug, PartialEq, Eq)]
pub struct CancelEscrow {
    /// The caller.
    pub authority: Address,
    pub escrow_key: Address,
    /// Whether the escrow's holding account came with the call.
    pub escrow_token_account: bool,
    /// Whether the seller's own account came with the call.
    pub seller_token_account: bool,
}

/// Accounts of `open_dispute_with_bond`.
#[derive(Clone, Copy, Debug, PartialEq, Eq)]
pub struct OpenDispute {
    /// The caller.
    pub disputing_party: Address,
    pub escrow_key: Address,
    /// What the caller's own account holds.
    pub disputing_party_token_balance: u64,
}

/// Accounts of `respond_to_dispute_with_bond`.
#[derive(Clone, Copy, Debug, PartialEq, Eq)]
pub struct RespondToDispute {
    /// The caller.
    pub responding_party: Address,
    pub escrow_key: Address,
    /// What the caller's own account holds.
    pub responding_party_token_balance: u64,
}

/// Accounts of `default_judgment`.
#[derive(Clone, Copy, Debug, PartialEq, Eq)]
pub struct DefaultJudgment {
    /// The caller.
    pub arbitrator: Address,
    pub escrow_key: Address,
}

/// Accounts of `resolve_dispute_with_explanation`.
#[derive(Clone, Copy, Debug, PartialEq, Eq)]
pub struct ResolveDispute {
    /// The caller.
    pub arbitrator: Address,
    pub escrow_key: Address,
    /// What the buyer's bond account holds.
    pub buyer_bond_balance: u64,
    /// What the seller's bond account holds.
    pub seller_bond_balance: u64,
}

/// Accounts of `auto_cancel`.
#[derive(Clone, Copy, Debug, PartialEq, Eq)]
pub struct AutoCancel {
    /// The caller.
    pub arbitrator: Address,
    pub escrow_key: Address,
    /// Whether the escrow's holding account came with the call.
    pub escrow_token_account: bool,
    /// Whether the seller's own account came with the call.
    pub seller_token_account: bool,
}

} // verus!
