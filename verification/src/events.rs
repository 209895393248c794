//! Notifications for the event sink, one for each distinct change, and the
//! bundle that an operation hands back when it succeeds.

use vstd::prelude::*;
use crate::custody::CustodyInstruction;
use crate::party::Address;

verus! {

#[derive(Clone, Copy, Debug, PartialEq, Eq)]
pub struct EscrowCreated {
    pub object_id: Address,
    pub escrow_id: u64,
    pub trade_id: u64,
    pub seller: Address,
    pub buyer: Address,
    pub arbitrator: Address,
    pub amount: u64,
    pub fee: u64,
    pub deposit_deadline: i64,
    pub fiat_deadline: i64,
    pub sequential: bool,
    pub sequential_escrow_address: Option<Address>,
    pub timestamp: i64,
}

#[derive(Clone, Copy, Debug, PartialEq, Eq)]
pub struct FundsDeposited {
    pub object_id: Address,
    pub escrow_id: u64,
    pub trade_id: u64,
    pub amount: u64,
    pub fee: u64,
    pub counter: u64,
    pub timestamp: i64,
}

#[derive(Clone, Copy, Debug, PartialEq, Eq)]
pub struct FiatMarkedPaid {
    pub object_id: Address,
    pub escrow_id: u64,
    pub trade_id: u64,
    pub timestamp: i64,
}

#[derive(Clone, Copy, Debug, PartialEq, Eq)]
pub struct EscrowReleased {
    pub object_id: Address,
    pub escrow_id: u64,
    pub trade_id: u64,
    pub buyer: Address,
    pub amount: u64,
    pub fee: u64,
    pub counter: u64,
    pub timestamp: i64,
    pub destination: Address,
}

#[derive(Clone, Copy, Debug, PartialEq, Eq)]
pub struct EscrowCancelled {
    pub object_id: Address,
    pub escrow_id: u64,
    pub trade_id: u64,
    pub seller: Address,
    pub amount: u64,
    pub fee: u64,
    pub counter: u64,
    pub timestamp: i64,
}

#[derive(Clone, Copy, Debug, PartialEq, Eq)]
pub struct DisputeOpened {
    pub object_id: Address,
    pub escrow_id: u64,
    pub trade_id: u64,
    pub disputing_party: Address,
    pub timestamp: i64,
    pub evidence_hash: [u8; 32],
    pub bond_amount: u64,
}

#[derive(Clone, Copy, Debug, PartialEq, Eq)]
pub struct DisputeResponseSubmitted {
    pub object_id: Address,
    pub escrow_id: u64,
    pub trade_id: u64,
    pub responding_party: Address,
    pub timestamp: i64,
    pub evidence_hash: [u8; 32],
    pub bond_amount: u64,
}

#[derive(Clone, Debug, PartialEq, Eq)]
pub struct DisputeResolved {
    pub object_id: Address,
    pub escrow_id: u64,
    pub trade_id: u64,
    /// `true` sends the principal to the buyer, `false` back to the seller.
    pub decision: bool,
    pub fee: u64,
    pub counter: u64,
    pub timestamp: i64,
    pub resolution_hash: [u8; 32],
    pub winner: Address,
    /// Where the arbitrator's written explanation can be found; empty when
    /// it is kept elsewhere.
    pub explanation_reference: String,
}

#[derive(Clone, Copy, Debug, PartialEq, Eq)]
pub struct DisputeDefaultJudgment {
    pub object_id: Address,
    pub escrow_id: u64,
    pub trade_id: u64,
    pub defaulting_party: Address,
    /// `true` when the funds went to the buyer.
    pub decision: bool,
    pub timestamp: i64,
}

#[derive(Clone, Debug, PartialEq, Eq)]
pub struct EscrowBalanceChanged {
    pub object_id: Address,
    pub escrow_id: u64,
    pub trade_id: u64,
    pub new_balance: u64,
    pub reason: String,
    pub timestamp: i64,
}

#[derive(Clone, Copy, Debug, PartialEq, Eq)]
pub struct SequentialAddressUpdated {
    pub object_id: Address,
    pub escrow_id: u64,
    pub trade_id: u64,
    pub old_address: Option<Address>,
    pub new_address: Address,
    pub timestamp: i64,
}

/// Any one notification.
#[derive(Clone, Debug, PartialEq, Eq)]
pub enum EscrowEvent {
    Created(EscrowCreated),
    Deposited(FundsDeposited),
    FiatPaid(FiatMarkedPaid),
    Released(EscrowReleased),
    Cancelled(EscrowCancelled),
    DisputeOpened(DisputeOpened),
    DisputeResponse(DisputeResponseSubmitted),
    DisputeResolved(DisputeResolved),
    DefaultJudgment(DisputeDefaultJudgment),
    BalanceChanged(EscrowBalanceChanged),
    SequentialAddressUpdated(SequentialAddressUpdated),
}

impl EscrowEvent {
    /// Whether this is the notice that the funds held for `escrow_key` now
    /// come to `new_balance`, for the reason given.
    pub open spec fn is_balance_change(
        self,
        escrow_key: Address,
        escrow_id: u64,
        trade_id: u64,
        new_balance: u64,
        reason: Seq<char>,
        timestamp: i64,
    ) -> bool {
        &&& self matches EscrowEvent::BalanceChanged(e)
        &&& e.object_id == escrow_key
        &&& e.escrow_id == escrow_id
        &&& e.trade_id == trade_id
        &&& e.new_balance == new_balance
        &&& e.reason@ == reason
        &&& e.timestamp == timestamp
    }

    /// Whether this is the notice of an arbitrated resolution with the
    /// given payload and no explanation reference.
    pub open spec fn is_resolution(
        self,
        escrow_key: Address,
        escrow_id: u64,
        trade_id: u64,
        decision: bool,
        fee: u64,
        counter: u64,
        timestamp: i64,
        resolution_hash: [u8; 32],
        winner: Address,
    ) -> bool {
        &&& self matches EscrowEvent::DisputeResolved(e)
        &&& e.object_id == escrow_key
        &&& e.escrow_id == escrow_id
        &&& e.trade_id == trade_id
        &&& e.decision == decision
        &&& e.fee == fee
        &&& e.counter == counter
        &&& e.timestamp == timestamp
        &&& e.resolution_hash == resolution_hash
        &&& e.winner == winner
        &&& e.explanation_reference@ == Seq::<char>::empty()
    }
}

/// What a successful operation asks of the outside world: instructions for
/// the custody ledger, to be carried out in order, and notifications for the
/// event sink.
#[derive(Clone, Debug, PartialEq, Eq)]
pub struct Effects {
    pub instructions: Vec<CustodyInstruction>,
    pub events: Vec<EscrowEvent>,
}

/// Builds the notice of a balance change.
pub fn balance_changed(
    escrow_key: Address,
    escrow_id: u64,
    trade_id: u64,
    new_balance: u64,
    reason: &str,
    timestamp: i64,
) -> (event: EscrowEvent)
    ensures
        event.is_balance_change(escrow_key, escrow_id, trade_id, new_balance, reason@, timestamp),
{
    EscrowEvent::BalanceChanged(
        EscrowBalanceChanged {
            object_id: escrow_key,
            escrow_id,
            trade_id,
            new_balance,
            reason: reason.to_owned(),
            timestamp,
        },
    )
}

} // verus!
