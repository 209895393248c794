//! The dispute protocol: bonded evidence from both sides, judgment by
//! default when one side stays silent, and the arbitrator's resolution.
//!
//! Every operation checks the caller first, then the state of the escrow,
//! then deadlines, amounts and evidence. A call that is rejected leaves the
//! record as it was.

use vstd::prelude::*;
use crate::accounts::{DefaultJudgment, OpenDispute, ResolveDispute, RespondToDispute};
use crate::calc::{bond_of, bps, sum, DISPUTE_BOND_BASIS_POINTS};
use crate::custody::{CustodyAccount, CustodyInstruction};
use crate::deadline::{
    deadline_after, expired, window_fits, ARBITRATION_WINDOW_SECONDS,
    DISPUTE_RESPONSE_WINDOW_SECONDS,
};
use crate::events::{
    balance_changed, DisputeDefaultJudgment, DisputeOpened, DisputeResolved,
    DisputeResponseSubmitted, Effects, EscrowEvent,
};
use crate::model::{evidence_of, side_of, with_evidence, Escrow, EscrowError, EscrowState};
use crate::party::{Address, Party};

verus! {

/// How a dispute is settled with the custody ledger.
///
/// The funds go first: with `fee_to_arbitrator` the fee to the arbitrator
/// and the principal to the winner, without it principal and fee together
/// to the winner. Then the bonds: the winner's back to the winner and, when
/// `both_bonded`, the loser's to the arbitrator. Last the holding accounts
/// that were emptied are closed, and their storage deposit goes to the seller.
pub open spec fn settlement(
    escrow: Escrow,
    winner: Party,
    fee_to_arbitrator: bool,
    both_bonded: bool,
) -> Seq<CustodyInstruction> {
    let vault = CustodyAccount::EscrowVault;
    let winner_tokens = CustodyAccount::tokens_of(winner);
    let winner_bond = CustodyAccount::bond_of(winner);
    let loser_bond = CustodyAccount::bond_of(winner.counterpart());
    let bond = bond_of(escrow.amount as int) as u64;
    let funds = if fee_to_arbitrator {
        seq![
            CustodyInstruction::Release {
                from: vault,
                to: CustodyAccount::ArbitratorTokens,
                amount: escrow.fee,
            },
            CustodyInstruction::Release { from: vault, to: winner_tokens, amount: escrow.amount },
        ]
    } else {
        seq![
            CustodyInstruction::Release {
                from: vault,
                to: winner_tokens,
                amount: (escrow.amount + escrow.fee) as u64,
            },
        ]
    };
    let bonds = if both_bonded {
        seq![
            CustodyInstruction::Release { from: winner_bond, to: winner_tokens, amount: bond },
            CustodyInstruction::Release {
                from: loser_bond,
                to: CustodyAccount::ArbitratorTokens,
                amount: bond,
            },
        ]
    } else {
        seq![CustodyInstruction::Release { from: winner_bond, to: winner_tokens, amount: bond }]
    };
    let closes = if both_bonded {
        seq![
            CustodyInstruction::Close { account: vault, rent_destination: escrow.seller },
            CustodyInstruction::Close { account: winner_bond, rent_destination: escrow.seller },
            CustodyInstruction::Close { account: loser_bond, rent_destination: escrow.seller },
        ]
    } else {
        seq![
            CustodyInstruction::Close { account: vault, rent_destination: escrow.seller },
            CustodyInstruction::Close { account: winner_bond, rent_destination: escrow.seller },
        ]
    };
    funds + bonds + closes
}

/// Writes out the instructions that settle a dispute in favour of `winner`.
/// `bond` is the bond on the escrow's principal, and `total` its principal
/// and fee together.
fn settle(
    escrow: &Escrow,
    winner: Party,
    fee_to_arbitrator: bool,
    both_bonded: bool,
    bond: u64,
    total: u64,
) -> (instructions: Vec<CustodyInstruction>)
    requires
        bond == bond_of(escrow.amount as int),
        !fee_to_arbitrator ==> total == escrow.amount + escrow.fee,
    ensures
        instructions@ == settlement(*escrow, winner, fee_to_arbitrator, both_bonded),
{
    let vault = CustodyAccount::EscrowVault;
    let winner_tokens = CustodyAccount::tokens(winner);
    let winner_bond = CustodyAccount::bond(winner);
    let loser_bond = CustodyAccount::bond(winner.other());
    let mut instructions: Vec<CustodyInstruction> = Vec::new();
    if fee_to_arbitrator {
        instructions.push(
            CustodyInstruction::Release {
                from: vault,
                to: CustodyAccount::ArbitratorTokens,
                amount: escrow.fee,
            },
        );
        instructions.push(
            CustodyInstruction::Release { from: vault, to: winner_tokens, amount: escrow.amount },
        );
    } else {
        instructions.push(
            CustodyInstruction::Release { from: vault, to: winner_tokens, amount: total },
        );
    }
    instructions.push(
        CustodyInstruction::Release { from: winner_bond, to: winner_tokens, amount: bond },
    );
    if both_bonded {
        instructions.push(
            CustodyInstruction::Release {
                from: loser_bond,
                to: CustodyAccount::ArbitratorTokens,
                amount: bond,
            },
        );
    }
    instructions.push(
        CustodyInstruction::Close { account: vault, rent_destination: escrow.seller },
    );
    instructions.push(
        CustodyInstruction::Close { account: winner_bond, rent_destination: escrow.seller },
    );
    if both_bonded {
        instructions.push(
            CustodyInstruction::Close { account: loser_bond, rent_destination: escrow.seller },
        );
    }
    assert(instructions@ =~= settlement(*escrow, winner, fee_to_arbitrator, both_bonded));
    instructions
}

/// The side that an arbitrated decision favours: the buyer when the
/// decision is to release, the seller when it is to return.
pub open spec fn favoured(decision: bool) -> Party {
    if decision {
        Party::Buyer
    } else {
        Party::Seller
    }
}

/// Why `resolve_dispute_with_explanation` rejects a call, if it does.
pub open spec fn resolve_rejection(escrow: Escrow, ctx: ResolveDispute, decision: bool) -> Option<
    EscrowError,
> {
    let bond = bond_of(escrow.amount as int);
    if ctx.arbitrator != escrow.arbitrator {
        Some(EscrowError::Unauthorized)
    } else if escrow.state != EscrowState::Disputed {
        Some(EscrowError::InvalidState)
    } else if escrow.dispute_evidence_hash_buyer is None
        || escrow.dispute_evidence_hash_seller is None {
        Some(EscrowError::InvalidEvidenceHash)
    } else if escrow.amount * DISPUTE_BOND_BASIS_POINTS > u64::MAX {
        Some(EscrowError::FeeCalculationError)
    } else if ctx.buyer_bond_balance < bond || ctx.seller_bond_balance < bond {
        Some(EscrowError::MissingDisputeBond)
    } else if !decision && escrow.amount + escrow.fee > u64::MAX {
        Some(EscrowError::FeeCalculationError)
    } else if escrow.counter == u64::MAX {
        Some(EscrowError::FeeCalculationError)
    } else {
        None
    }
}

/// The record after a dispute was settled: resolved, nothing held, one
/// more change counted.
pub open spec fn settled(escrow: Escrow, resolution_hash: Option<[u8; 32]>) -> Escrow {
    Escrow {
        state: EscrowState::Resolved,
        tracked_balance: 0,
        counter: (escrow.counter + 1) as u64,
        dispute_resolution_hash: resolution_hash,
        ..escrow
    }
}

/// The text that goes with the balance change of an arbitrated resolution.
pub open spec fn resolution_reason(decision: bool) -> Seq<char> {
    if decision {
        "Dispute resolved to buyer"@
    } else {
        "Dispute resolved to seller"@
    }
}

/// The two notifications of an arbitrated resolution.
pub open spec fn resolve_announced(
    escrow: Escrow,
    ctx: ResolveDispute,
    decision: bool,
    resolution_hash: [u8; 32],
    now: i64,
    events: Seq<EscrowEvent>,
) -> bool {
    &&& events.len() == 2
    &&& events[0].is_balance_change(
        ctx.escrow_key,
        escrow.escrow_id,
        escrow.trade_id,
        0,
        resolution_reason(decision),
        now,
    )
    &&& events[1].is_resolution(
        ctx.escrow_key,
        escrow.escrow_id,
        escrow.trade_id,
        decision,
        escrow.fee,
        (escrow.counter + 1) as u64,
        now,
        resolution_hash,
        if decision {
            escrow.buyer
        } else {
            escrow.seller
        },
    )
}

/// The arbitrator decides a dispute in which both sides gave evidence and
/// posted their bond.
///
/// With `decision` set the principal goes to the buyer and the fee to the
/// arbitrator; without it principal and fee go back to the seller. The side
/// that the decision favours gets its bond back, the other side's bond goes
/// to the arbitrator, and all three holding accounts are closed. The record
/// keeps `resolution_hash` and becomes `Resolved`.
pub fn resolve_dispute_with_explanation(
    escrow: &mut Escrow,
    ctx: &ResolveDispute,
    decision: bool,
    resolution_hash: [u8; 32],
    now: i64,
) -> (result: Result<Effects, EscrowError>)
    ensures
        match result {
            Ok(effects) => {
                &&& resolve_rejection(*old(escrow), *ctx, decision) is None
                &&& *final(escrow) == settled(*old(escrow), Some(resolution_hash))
                &&& effects.instructions@ == settlement(
                    *old(escrow),
                    favoured(decision),
                    decision,
                    true,
                )
                &&& resolve_announced(
                    *old(escrow),
                    *ctx,
                    decision,
                    resolution_hash,
                    now,
                    effects.events@,
                )
            },
            Err(error) => {
                &&& resolve_rejection(*old(escrow), *ctx, decision) == Some(error)
                &&& *final(escrow) == *old(escrow)
            },
        },
        old(escrow).well_formed() ==> final(escrow).well_formed(),
{
    if !ctx.arbitrator.same(&escrow.arbitrator) {
        return Err(EscrowError::Unauthorized);
    }
    if escrow.state != EscrowState::Disputed {
        return Err(EscrowError::InvalidState);
    }
    if escrow.dispute_evidence_hash_buyer.is_none() || escrow.dispute_evidence_hash_seller.is_none() {
        return Err(EscrowError::InvalidEvidenceHash);
    }
    let bond: u64 = match bps(escrow.amount, DISPUTE_BOND_BASIS_POINTS) {
        Ok(bond) => bond,
        Err(error) => {
            return Err(error);
        },
    };
    if ctx.buyer_bond_balance < bond || ctx.seller_bond_balance < bond {
        return Err(EscrowError::MissingDisputeBond);
    }
    let mut total: u64 = 0;
    if !decision {
        match sum(escrow.amount, escrow.fee) {
            Ok(both) => {
                total = both;
            },
            Err(error) => {
                return Err(error);
            },
        }
    }
    let counter: u64 = match escrow.counter.checked_add(1) {
        Some(counter) => counter,
        None => {
            return Err(EscrowError::FeeCalculationError);
        },
    };
    let winner = if decision {
        Party::Buyer
    } else {
        Party::Seller
    };
    let instructions = settle(escrow, winner, decision, true, bond, total);
    let reason = if decision {
        "Dispute resolved to buyer"
    } else {
        "Dispute resolved to seller"
    };
    let mut events: Vec<EscrowEvent> = Vec::new();
    events.push(
        balance_changed(ctx.escrow_key, escrow.escrow_id, escrow.trade_id, 0, reason, now),
    );
    events.push(
        EscrowEvent::DisputeResolved(
            DisputeResolved {
                object_id: ctx.escrow_key,
                escrow_id: escrow.escrow_id,
                trade_id: escrow.trade_id,
                decision,
                fee: escrow.fee,
                counter,
                timestamp: now,
                resolution_hash,
                winner: if decision {
                    escrow.buyer
                } else {
                    escrow.seller
                },
                explanation_reference: String::new(),
            },
        ),
    );
    escrow.dispute_resolution_hash = Some(resolution_hash);
    escrow.tracked_balance = 0;
    escrow.state = EscrowState::Resolved;
    escrow.counter = counter;
    Ok(Effects { instructions, events })
}

/// The side that wins by default: the one that opened the dispute, when the
/// other gave no evidence. `None` when the other side did answer.
pub open spec fn default_winner(escrow: Escrow) -> Option<Party> {
    if escrow.dispute_initiator == Some(escrow.buyer) {
        if escrow.dispute_evidence_hash_seller is None {
            Some(Party::Buyer)
        } else {
            None
        }
    } else {
        if escrow.dispute_evidence_hash_buyer is None {
            Some(Party::Seller)
        } else {
            None
        }
    }
}

/// Why `default_judgment` rejects a call, if it does.
pub open spec fn default_judgment_rejection(
    escrow: Escrow,
    ctx: DefaultJudgment,
    now: i64,
) -> Option<EscrowError> {
    if ctx.arbitrator != escrow.arbitrator {
        Some(EscrowError::Unauthorized)
    } else if escrow.state != EscrowState::Disputed {
        Some(EscrowError::InvalidState)
    } else if escrow.dispute_initiator is None || escrow.dispute_initiated_time is None {
        Some(EscrowError::InvalidState)
    } else if !window_fits(
        escrow.dispute_initiated_time->0 as int,
        DISPUTE_RESPONSE_WINDOW_SECONDS as int,
    ) {
        Some(EscrowError::FeeCalculationError)
    } else if now <= escrow.dispute_initiated_time->0 + DISPUTE_RESPONSE_WINDOW_SECONDS {
        Some(EscrowError::InvalidState)
    } else if default_winner(escrow) is None {
        Some(EscrowError::InvalidState)
    } else if escrow.amount + escrow.fee > u64::MAX {
        Some(EscrowError::FeeCalculationError)
    } else if escrow.amount * DISPUTE_BOND_BASIS_POINTS > u64::MAX {
        Some(EscrowError::FeeCalculationError)
    } else if escrow.counter == u64::MAX {
        Some(EscrowError::FeeCalculationError)
    } else {
        None
    }
}

/// The two notifications of a judgment by default in favour of `winner`.
pub open spec fn default_judgment_announced(
    escrow: Escrow,
    ctx: DefaultJudgment,
    winner: Party,
    now: i64,
    events: Seq<EscrowEvent>,
) -> bool {
    &&& events.len() == 2
    &&& events[0].is_balance_change(
        ctx.escrow_key,
        escrow.escrow_id,
        escrow.trade_id,
        0,
        "Dispute resolved by default judgment"@,
        now,
    )
    &&& events[1] == EscrowEvent::DefaultJudgment(
        DisputeDefaultJudgment {
            object_id: ctx.escrow_key,
            escrow_id: escrow.escrow_id,
            trade_id: escrow.trade_id,
            defaulting_party: if winner == Party::Buyer {
                escrow.seller
            } else {
                escrow.buyer
            },
            decision: winner == Party::Buyer,
            timestamp: now,
        },
    )
}

/// The arbitrator closes a dispute that the other side never answered.
///
/// It can be called once the response window of 72 hours has passed, and
/// only while the side that did not open the dispute has given no evidence.
/// The side that opened it receives principal and fee and its own bond; no
/// other bond exists. The escrow's holding account and the winner's bond
/// account are closed, and the record becomes `Resolved`.
pub fn default_judgment(escrow: &mut Escrow, ctx: &DefaultJudgment, now: i64) -> (result: Result<
    Effects,
    EscrowError,
>)
    ensures
        match result {
            Ok(effects) => {
                &&& default_judgment_rejection(*old(escrow), *ctx, now) is None
                &&& default_winner(*old(escrow)) matches Some(winner)
                &&& *final(escrow) == settled(*old(escrow), old(escrow).dispute_resolution_hash)
                &&& effects.instructions@ == settlement(*old(escrow), winner, false, false)
                &&& default_judgment_announced(*old(escrow), *ctx, winner, now, effects.events@)
            },
            Err(error) => {
                &&& default_judgment_rejection(*old(escrow), *ctx, now) == Some(error)
                &&& *final(escrow) == *old(escrow)
            },
        },
        old(escrow).well_formed() ==> final(escrow).well_formed(),
{
    if !ctx.arbitrator.same(&escrow.arbitrator) {
        return Err(EscrowError::Unauthorized);
    }
    if escrow.state != EscrowState::Disputed {
        return Err(EscrowError::InvalidState);
    }
    let (initiator, opened_at) = match (escrow.dispute_initiator, escrow.dispute_initiated_time) {
        (Some(initiator), Some(opened_at)) => (initiator, opened_at),
        _ => {
            return Err(EscrowError::InvalidState);
        },
    };
    let response_deadline: i64 = match deadline_after(opened_at, DISPUTE_RESPONSE_WINDOW_SECONDS) {
        Some(deadline) => deadline,
        None => {
            return Err(EscrowError::FeeCalculationError);
        },
    };
    if !expired(now, response_deadline) {
        return Err(EscrowError::InvalidState);
    }
    let winner = if initiator.same(&escrow.buyer) {
        if escrow.dispute_evidence_hash_seller.is_none() {
            Party::Buyer
        } else {
            return Err(EscrowError::InvalidState);
        }
    } else {
        if escrow.dispute_evidence_hash_buyer.is_none() {
            Party::Seller
        } else {
            return Err(EscrowError::InvalidState);
        }
    };
    let total: u64 = match sum(escrow.amount, escrow.fee) {
        Ok(total) => total,
        Err(error) => {
            return Err(error);
        },
    };
    let bond: u64 = match bps(escrow.amount, DISPUTE_BOND_BASIS_POINTS) {
        Ok(bond) => bond,
        Err(error) => {
            return Err(error);
        },
    };
    let counter: u64 = match escrow.counter.checked_add(1) {
        Some(counter) => counter,
        None => {
            return Err(EscrowError::FeeCalculationError);
        },
    };
    let instructions = settle(escrow, winner, false, false, bond, total);
    let buyer_wins = match winner {
        Party::Buyer => true,
        Party::Seller => false,
    };
    let mut events: Vec<EscrowEvent> = Vec::new();
    events.push(
        balance_changed(
            ctx.escrow_key,
            escrow.escrow_id,
            escrow.trade_id,
            0,
            "Dispute resolved by default judgment",
            now,
        ),
    );
    events.push(
        EscrowEvent::DefaultJudgment(
            DisputeDefaultJudgment {
                object_id: ctx.escrow_key,
                escrow_id: escrow.escrow_id,
                trade_id: escrow.trade_id,
                defaulting_party: if buyer_wins {
                    escrow.seller
                } else {
                    escrow.buyer
                },
                decision: buyer_wins,
                timestamp: now,
            },
        ),
    );
    escrow.tracked_balance = 0;
    escrow.state = EscrowState::Resolved;
    escrow.counter = counter;
    Ok(Effects { instructions, events })
}

/// The instruction that moves the bond of `side` out of its own account and
/// into its bond account.
pub open spec fn bond_posting(escrow: Escrow, side: Party) -> Seq<CustodyInstruction> {
    seq![
        CustodyInstruction::Hold {
            from: CustodyAccount::tokens_of(side),
            into: CustodyAccount::bond_of(side),
            amount: bond_of(escrow.amount as int) as u64,
        },
    ]
}

/// Why `open_dispute_with_bond` rejects a call, if it does.
pub open spec fn open_dispute_rejection(escrow: Escrow, ctx: OpenDispute) -> Option<EscrowError> {
    if ctx.disputing_party != escrow.buyer && ctx.disputing_party != escrow.seller {
        Some(EscrowError::Unauthorized)
    } else if escrow.state != EscrowState::Funded {
        Some(EscrowError::InvalidState)
    } else if !escrow.fiat_paid {
        Some(EscrowError::InvalidState)
    } else if escrow.amount * DISPUTE_BOND_BASIS_POINTS > u64::MAX {
        Some(EscrowError::FeeCalculationError)
    } else if ctx.disputing_party_token_balance < bond_of(escrow.amount as int) {
        Some(EscrowError::IncorrectBondAmount)
    } else if escrow.counter == u64::MAX {
        Some(EscrowError::FeeCalculationError)
    } else {
        None
    }
}

/// The record after `caller` opened a dispute at time `now`.
pub open spec fn dispute_opened(
    escrow: Escrow,
    caller: Address,
    evidence_hash: [u8; 32],
    now: i64,
) -> Escrow {
    with_evidence(
        Escrow {
            state: EscrowState::Disputed,
            dispute_initiator: Some(caller),
            dispute_initiated_time: Some(now),
            counter: (escrow.counter + 1) as u64,
            tracked_balance: 0,
            ..escrow
        },
        side_of(escrow, caller),
        evidence_hash,
    )
}

/// The buyer or the seller opens a dispute over a funded escrow whose fiat
/// payment was acknowledged.
///
/// The caller posts a bond of five percent of the principal, which its own
/// account must cover, and gives the digest of its evidence. The record
/// notes who opened the dispute and when, and becomes `Disputed`; from then
/// on the funds wait for the settlement and the tracked balance is nothing.
pub fn open_dispute_with_bond(
    escrow: &mut Escrow,
    ctx: &OpenDispute,
    evidence_hash: [u8; 32],
    now: i64,
) -> (result: Result<Effects, EscrowError>)
    ensures
        match result {
            Ok(effects) => {
                &&& open_dispute_rejection(*old(escrow), *ctx) is None
                &&& *final(escrow) == dispute_opened(
                    *old(escrow),
                    ctx.disputing_party,
                    evidence_hash,
                    now,
                )
                &&& effects.instructions@ == bond_posting(
                    *old(escrow),
                    side_of(*old(escrow), ctx.disputing_party),
                )
                &&& effects.events@ == seq![
                    EscrowEvent::DisputeOpened(
                        DisputeOpened {
                            object_id: ctx.escrow_key,
                            escrow_id: old(escrow).escrow_id,
                            trade_id: old(escrow).trade_id,
                            disputing_party: ctx.disputing_party,
                            timestamp: now,
                            evidence_hash,
                            bond_amount: bond_of(old(escrow).amount as int) as u64,
                        },
                    ),
                ]
            },
            Err(error) => {
                &&& open_dispute_rejection(*old(escrow), *ctx) == Some(error)
                &&& *final(escrow) == *old(escrow)
            },
        },
        old(escrow).well_formed() ==> final(escrow).well_formed(),
{
    let caller = ctx.disputing_party;
    let is_buyer = caller.same(&escrow.buyer);
    if !is_buyer && !caller.same(&escrow.seller) {
        return Err(EscrowError::Unauthorized);
    }
    if escrow.state != EscrowState::Funded {
        return Err(EscrowError::InvalidState);
    }
    if !escrow.fiat_paid {
        return Err(EscrowError::InvalidState);
    }
    let bond: u64 = match bps(escrow.amount, DISPUTE_BOND_BASIS_POINTS) {
        Ok(bond) => bond,
        Err(error) => {
            return Err(error);
        },
    };
    if ctx.disputing_party_token_balance < bond {
        return Err(EscrowError::IncorrectBondAmount);
    }
    let counter: u64 = match escrow.counter.checked_add(1) {
        Some(counter) => counter,
        None => {
            return Err(EscrowError::FeeCalculationError);
        },
    };
    let side = if is_buyer {
        Party::Buyer
    } else {
        Party::Seller
    };
    let mut instructions: Vec<CustodyInstruction> = Vec::new();
    instructions.push(
        CustodyInstruction::Hold {
            from: CustodyAccount::tokens(side),
            into: CustodyAccount::bond(side),
            amount: bond,
        },
    );
    let mut events: Vec<EscrowEvent> = Vec::new();
    events.push(
        EscrowEvent::DisputeOpened(
            DisputeOpened {
                object_id: ctx.escrow_key,
                escrow_id: escrow.escrow_id,
                trade_id: escrow.trade_id,
                disputing_party: caller,
                timestamp: now,
                evidence_hash,
                bond_amount: bond,
            },
        ),
    );
    escrow.state = EscrowState::Disputed;
    escrow.dispute_initiator = Some(caller);
    escrow.dispute_initiated_time = Some(now);
    escrow.counter = counter;
    escrow.tracked_balance = 0;
    if is_buyer {
        escrow.dispute_evidence_hash_buyer = Some(evidence_hash);
    } else {
        escrow.dispute_evidence_hash_seller = Some(evidence_hash);
    }
    assert(instructions@ =~= bond_posting(*old(escrow), side));
    Ok(Effects { instructions, events })
}

/// Why `respond_to_dispute_with_bond` rejects a call, if it does.
pub open spec fn respond_rejection(escrow: Escrow, ctx: RespondToDispute, now: i64) -> Option<
    EscrowError,
> {
    let caller = ctx.responding_party;
    if (caller != escrow.buyer && caller != escrow.seller) || escrow.dispute_initiator == Some(
        caller,
    ) {
        Some(EscrowError::Unauthorized)
    } else if escrow.state != EscrowState::Disputed {
        Some(EscrowError::InvalidState)
    } else if escrow.dispute_initiator is None || escrow.dispute_initiated_time is None {
        Some(EscrowError::InvalidState)
    } else if !window_fits(
        escrow.dispute_initiated_time->0 as int,
        DISPUTE_RESPONSE_WINDOW_SECONDS as int,
    ) {
        Some(EscrowError::FeeCalculationError)
    } else if now > escrow.dispute_initiated_time->0 + DISPUTE_RESPONSE_WINDOW_SECONDS {
        Some(EscrowError::ResponseDeadlineExpired)
    } else if escrow.amount * DISPUTE_BOND_BASIS_POINTS > u64::MAX {
        Some(EscrowError::FeeCalculationError)
    } else if ctx.responding_party_token_balance < bond_of(escrow.amount as int) {
        Some(EscrowError::IncorrectBondAmount)
    } else if evidence_of(escrow, side_of(escrow, caller)) is Some {
        Some(EscrowError::DuplicateEvidence)
    } else if !window_fits(now as int, ARBITRATION_WINDOW_SECONDS as int) {
        Some(EscrowError::FeeCalculationError)
    } else {
        None
    }
}

/// The party that did not open the dispute answers it.
///
/// The answer must come within 72 hours of the opening. The caller posts
/// the same bond of five percent and gives the digest of its evidence; a
/// side that has already given evidence cannot give it again. The escrow
/// stays `Disputed`.
pub fn respond_to_dispute_with_bond(
    escrow: &mut Escrow,
    ctx: &RespondToDispute,
    evidence_hash: [u8; 32],
    now: i64,
) -> (result: Result<Effects, EscrowError>)
    ensures
        match result {
            Ok(effects) => {
                &&& respond_rejection(*old(escrow), *ctx, now) is None
                &&& *final(escrow) == with_evidence(
                    *old(escrow),
                    side_of(*old(escrow), ctx.responding_party),
                    evidence_hash,
                )
                &&& effects.instructions@ == bond_posting(
                    *old(escrow),
                    side_of(*old(escrow), ctx.responding_party),
                )
                &&& effects.events@ == seq![
                    EscrowEvent::DisputeResponse(
                        DisputeResponseSubmitted {
                            object_id: ctx.escrow_key,
                            escrow_id: old(escrow).escrow_id,
                            trade_id: old(escrow).trade_id,
                            responding_party: ctx.responding_party,
                            timestamp: now,
                            evidence_hash,
                            bond_amount: bond_of(old(escrow).amount as int) as u64,
                        },
                    ),
                ]
            },
            Err(error) => {
                &&& respond_rejection(*old(escrow), *ctx, now) == Some(error)
                &&& *final(escrow) == *old(escrow)
            },
        },
        old(escrow).well_formed() ==> final(escrow).well_formed(),
{
    let caller = ctx.responding_party;
    let is_buyer = caller.same(&escrow.buyer);
    if !is_buyer && !caller.same(&escrow.seller) {
        return Err(EscrowError::Unauthorized);
    }
    let is_initiator = match escrow.dispute_initiator {
        Some(initiator) => initiator.same(&caller),
        None => false,
    };
    if is_initiator {
        return Err(EscrowError::Unauthorized);
    }
    if escrow.state != EscrowState::Disputed {
        return Err(EscrowError::InvalidState);
    }
    let opened_at: i64 = match (escrow.dispute_initiator, escrow.dispute_initiated_time) {
        (Some(_), Some(opened_at)) => opened_at,
        _ => {
            return Err(EscrowError::InvalidState);
        },
    };
    let response_deadline: i64 = match deadline_after(opened_at, DISPUTE_RESPONSE_WINDOW_SECONDS) {
        Some(deadline) => deadline,
        None => {
            return Err(EscrowError::FeeCalculationError);
        },
    };
    if expired(now, response_deadline) {
        return Err(EscrowError::ResponseDeadlineExpired);
    }
    let bond: u64 = match bps(escrow.amount, DISPUTE_BOND_BASIS_POINTS) {
        Ok(bond) => bond,
        Err(error) => {
            return Err(error);
        },
    };
    if ctx.responding_party_token_balance < bond {
        return Err(EscrowError::IncorrectBondAmount);
    }
    let side = if is_buyer {
        Party::Buyer
    } else {
        Party::Seller
    };
    let occupied = if is_buyer {
        escrow.dispute_evidence_hash_buyer.is_some()
    } else {
        escrow.dispute_evidence_hash_seller.is_some()
    };
    if occupied {
        return Err(EscrowError::DuplicateEvidence);
    }
    if deadline_after(now, ARBITRATION_WINDOW_SECONDS).is_none() {
        return Err(EscrowError::FeeCalculationError);
    }
    let mut instructions: Vec<CustodyInstruction> = Vec::new();
    instructions.push(
        CustodyInstruction::Hold {
            from: CustodyAccount::tokens(side),
            into: CustodyAccount::bond(side),
            amount: bond,
        },
    );
    let mut events: Vec<EscrowEvent> = Vec::new();
    events.push(
        EscrowEvent::DisputeResponse(
            DisputeResponseSubmitted {
                object_id: ctx.escrow_key,
                escrow_id: escrow.escrow_id,
                trade_id: escrow.trade_id,
                responding_party: caller,
                timestamp: now,
                evidence_hash,
                bond_amount: bond,
            },
        ),
    );
    if is_buyer {
        escrow.dispute_evidence_hash_buyer = Some(evidence_hash);
    } else {
        escrow.dispute_evidence_hash_seller = Some(evidence_hash);
    }
    assert(instructions@ =~= bond_posting(*old(escrow), side));
    Ok(Effects { instructions, events })
}


} // verus!
