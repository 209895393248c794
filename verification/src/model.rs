//! The escrow record, its lifecycle states and the errors of its operations.

use vstd::prelude::*;
use crate::calc::{fee_of, total_of, MAX_AMOUNT};
use crate::party::{Address, Party};

verus! {

/// Where an escrow stands in its lifecycle.
#[derive(Clone, Copy, Debug, PartialEq, Eq, Structural)]
pub enum EscrowState {
    Created,
    Funded,
    Released,
    Cancelled,
    Disputed,
    Resolved,
}

impl EscrowState {
    /// `Released`, `Cancelled` and `Resolved` are terminal: nothing leaves them.
    pub open spec fn terminal(self) -> bool {
        self == EscrowState::Released || self == EscrowState::Cancelled
            || self == EscrowState::Resolved
    }

    /// A dispute was opened on the way to `Disputed` and `Resolved`.
    pub open spec fn disputed_path(self) -> bool {
        self == EscrowState::Disputed || self == EscrowState::Resolved
    }

    /// Whether no further transition is permitted.
    pub fn is_terminal(&self) -> (r: bool)
        ensures
            r == self.terminal(),
    {
        match self {
            EscrowState::Released | EscrowState::Cancelled | EscrowState::Resolved => true,
            EscrowState::Created | EscrowState::Funded | EscrowState::Disputed => false,
        }
    }
}

/// Why an operation was rejected.
#[derive(Clone, Copy, Debug, PartialEq, Eq, Structural)]
pub enum EscrowError {
    InvalidAmount,
    ExceedsMaximum,
    Unauthorized,
    DepositDeadlineExpired,
    FiatDeadlineExpired,
    InvalidState,
    MissingSequentialAddress,
    TerminalState,
    FeeCalculationError,
    InsufficientFunds,
    IncorrectBondAmount,
    ResponseDeadlineExpired,
    InvalidEvidenceHash,
    DuplicateEvidence,
    ArbitrationDeadlineExpired,
    MissingDisputeBond,
    InvalidResolutionExplanation,
    BumpNotFound,
}

impl EscrowError {
    /// The text shown to a caller for this error.
    pub open spec fn message_text(self) -> Seq<char> {
        match self {
            EscrowError::InvalidAmount => "Invalid amount: Zero or negative"@,
            EscrowError::ExceedsMaximum => "Amount exceeds maximum (100 USDC)"@,
            EscrowError::Unauthorized => "Unauthorized caller"@,
            EscrowError::DepositDeadlineExpired => "Deposit deadline expired"@,
            EscrowError::FiatDeadlineExpired => "Fiat payment deadline expired"@,
            EscrowError::InvalidState => "Invalid state transition"@,
            EscrowError::MissingSequentialAddress => "Missing sequential escrow address"@,
            EscrowError::TerminalState => "Already in terminal state"@,
            EscrowError::FeeCalculationError => "Fee calculation error"@,
            EscrowError::InsufficientFunds => "Insufficient funds to cover principal and fee"@,
            EscrowError::IncorrectBondAmount => "Dispute bond amount incorrect"@,
            EscrowError::ResponseDeadlineExpired => "Dispute response deadline expired"@,
            EscrowError::InvalidEvidenceHash => "Evidence hash missing or invalid"@,
            EscrowError::DuplicateEvidence => "Duplicate evidence submission"@,
            EscrowError::ArbitrationDeadlineExpired => "Arbitration deadline expired"@,
            EscrowError::MissingDisputeBond => "Missing dispute bond"@,
            EscrowError::InvalidResolutionExplanation => "Invalid resolution explanation"@,
            EscrowError::BumpNotFound => "Required bump seed not found"@,
        }
    }

    /// The text shown to a caller for this error, as an owned string.
    pub fn message(&self) -> (text: String)
        ensures
            text@ == self.message_text(),
    {
        let literal: &str = match self {
            EscrowError::InvalidAmount => "Invalid amount: Zero or negative",
            EscrowError::ExceedsMaximum => "Amount exceeds maximum (100 USDC)",
            EscrowError::Unauthorized => "Unauthorized caller",
            EscrowError::DepositDeadlineExpired => "Deposit deadline expired",
            EscrowError::FiatDeadlineExpired => "Fiat payment deadline expired",
            EscrowError::InvalidState => "Invalid state transition",
            EscrowError::MissingSequentialAddress => "Missing sequential escrow address",
            EscrowError::TerminalState => "Already in terminal state",
            EscrowError::FeeCalculationError => "Fee calculation error",
            EscrowError::InsufficientFunds => "Insufficient funds to cover principal and fee",
            EscrowError::IncorrectBondAmount => "Dispute bond amount incorrect",
            EscrowError::ResponseDeadlineExpired => "Dispute response deadline expired",
            EscrowError::InvalidEvidenceHash => "Evidence hash missing or invalid",
            EscrowError::DuplicateEvidence => "Duplicate evidence submission",
            EscrowError::ArbitrationDeadlineExpired => "Arbitration deadline expired",
            EscrowError::MissingDisputeBond => "Missing dispute bond",
            EscrowError::InvalidResolutionExplanation => "Invalid resolution explanation",
            EscrowError::BumpNotFound => "Required bump seed not found",
        };
        literal.to_owned()
    }
}

/// The persistent record of one trade.
#[derive(Clone, Copy, Debug, PartialEq, Eq)]
pub struct Escrow {
    pub escrow_id: u64,
    pub trade_id: u64,
    pub seller: Address,
    pub buyer: Address,
    pub arbitrator: Address,
    pub amount: u64,
    pub fee: u64,
    pub deposit_deadline: i64,
    pub fiat_deadline: i64,
    pub state: EscrowState,
    pub sequential: bool,
    pub sequential_escrow_address: Option<Address>,
    pub fiat_paid: bool,
    pub counter: u64,
    pub dispute_initiator: Option<Address>,
    pub dispute_initiated_time: Option<i64>,
    pub dispute_evidence_hash_buyer: Option<[u8; 32]>,
    pub dispute_evidence_hash_seller: Option<[u8; 32]>,
    pub dispute_resolution_hash: Option<[u8; 32]>,
    pub tracked_balance: u64,
}

impl Escrow {
    /// The invariant of a record that the operations of this crate made:
    /// every operation establishes or preserves it.
    pub open spec fn well_formed(&self) -> bool {
        &&& 0 < self.amount <= MAX_AMOUNT
        &&& self.fee == fee_of(self.amount as int)
        &&& self.tracked_balance == if self.state == EscrowState::Funded {
            total_of(self.amount as int)
        } else {
            0
        }
        &&& self.sequential ==> self.sequential_escrow_address is Some
        &&& self.state == EscrowState::Created ==> self.fiat_deadline == 0
        &&& self.fiat_paid ==> self.state != EscrowState::Created
        &&& self.state.disputed_path() ==> self.fiat_paid
        &&& self.dispute_initiator is Some <==> self.state.disputed_path()
        &&& self.dispute_initiated_time is Some <==> self.state.disputed_path()
        &&& self.state.disputed_path() ==> {
            &&& self.dispute_initiator matches Some(initiator)
            &&& initiator == self.buyer || initiator == self.seller
            &&& evidence_of(*self, side_of(*self, initiator)) is Some
        }
        &&& !self.state.disputed_path() ==> self.dispute_evidence_hash_buyer is None
            && self.dispute_evidence_hash_seller is None
        &&& self.dispute_resolution_hash is Some ==> self.state == EscrowState::Resolved
    }

    /// Whether the escrow has reached a state that nothing leaves.
    pub fn is_terminal(&self) -> (r: bool)
        ensures
            r == self.state.terminal(),
    {
        self.state.is_terminal()
    }
}

/// The side of the trade that `caller` acts for: the buyer's when the
/// caller is the buyer, the seller's otherwise.
pub open spec fn side_of(escrow: Escrow, caller: Address) -> Party {
    if caller == escrow.buyer {
        Party::Buyer
    } else {
        Party::Seller
    }
}

/// The record with `evidence_hash` stored as the evidence of `side`.
pub open spec fn with_evidence(escrow: Escrow, side: Party, evidence_hash: [u8; 32]) -> Escrow {
    match side {
        Party::Buyer => Escrow { dispute_evidence_hash_buyer: Some(evidence_hash), ..escrow },
        Party::Seller => Escrow { dispute_evidence_hash_seller: Some(evidence_hash), ..escrow },
    }
}

/// The evidence that `side` has given so far.
pub open spec fn evidence_of(escrow: Escrow, side: Party) -> Option<[u8; 32]> {
    match side {
        Party::Buyer => escrow.dispute_evidence_hash_buyer,
        Party::Seller => escrow.dispute_evidence_hash_seller,
    }
}

} // verus!
