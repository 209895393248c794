//! What holds of every call, whatever the record, the caller and the time.
//!
//! `Operation` names one call with its arguments. `rejection` and `after`
//! gather what the operations promise one by one, and the proof functions
//! below state the rules of the engine over them.

use vstd::prelude::*;
use crate::accounts::{
    AutoCancel, CancelEscrow, DefaultJudgment, FundEscrow, MarkFiatPaid, OpenDispute,
    ReleaseEscrow, ResolveDispute, RespondToDispute, UpdateSequentialAddress,
};
use crate::calc::{bond_of, fee_of, total_of, MAX_AMOUNT};
use crate::deadline::{
    window_fits, ARBITRATION_WINDOW_SECONDS, DISPUTE_RESPONSE_WINDOW_SECONDS,
    FIAT_WINDOW_SECONDS,
};
use crate::dispute::{
    default_judgment_rejection, default_winner, dispute_opened, open_dispute_rejection,
    resolve_rejection, respond_rejection, settled,
};
use crate::machine::{
    auto_cancel_rejection, cancel_rejection, emptied, fund_rejection, funded,
    mark_fiat_paid_rejection, release_rejection, timed_out, update_sequential_rejection,
};
use crate::model::{evidence_of, side_of, with_evidence, Escrow, EscrowError, EscrowState};
use crate::party::Address;

verus! {

/// One call on an existing escrow, with what the caller hands in.
#[derive(Clone, Copy, Debug, PartialEq, Eq)]
pub enum Operation {
    Fund(FundEscrow),
    MarkFiatPaid(MarkFiatPaid),
    UpdateSequentialAddress(UpdateSequentialAddress, Address),
    Release(ReleaseEscrow),
    Cancel(CancelEscrow),
    AutoCancel(AutoCancel),
    OpenDispute(OpenDispute, [u8; 32]),
    RespondToDispute(RespondToDispute, [u8; 32]),
    DefaultJudgment(DefaultJudgment),
    ResolveDispute(ResolveDispute, bool, [u8; 32]),
}

/// Why the call is rejected at time `now`, if it is.
pub open spec fn rejection(escrow: Escrow, operation: Operation, now: i64) -> Option<EscrowError> {
    match operation {
        Operation::Fund(ctx) => fund_rejection(escrow, ctx, now),
        Operation::MarkFiatPaid(ctx) => mark_fiat_paid_rejection(escrow, ctx, now),
        Operation::UpdateSequentialAddress(ctx, _) => update_sequential_rejection(escrow, ctx),
        Operation::Release(ctx) => release_rejection(escrow, ctx),
        Operation::Cancel(ctx) => cancel_rejection(escrow, ctx),
        Operation::AutoCancel(ctx) => auto_cancel_rejection(escrow, ctx, now),
        Operation::OpenDispute(ctx, _) => open_dispute_rejection(escrow, ctx),
        Operation::RespondToDispute(ctx, _) => respond_rejection(escrow, ctx, now),
        Operation::DefaultJudgment(ctx) => default_judgment_rejection(escrow, ctx, now),
        Operation::ResolveDispute(ctx, decision, _) => resolve_rejection(escrow, ctx, decision),
    }
}

/// The record after the call: changed as the operation says when the call
/// is accepted, and as it was when the call is rejected.
pub open spec fn after(escrow: Escrow, operation: Operation, now: i64) -> Escrow {
    if rejection(escrow, operation, now) is Some {
        escrow
    } else {
        match operation {
            Operation::Fund(_) => funded(escrow, now),
            Operation::MarkFiatPaid(_) => Escrow { fiat_paid: true, ..escrow },
            Operation::UpdateSequentialAddress(_, new_address) => Escrow {
                sequential_escrow_address: Some(new_address),
                ..escrow
            },
            Operation::Release(_) => emptied(escrow, EscrowState::Released),
            Operation::Cancel(_) => emptied(escrow, EscrowState::Cancelled),
            Operation::AutoCancel(_) => emptied(escrow, EscrowState::Cancelled),
            Operation::OpenDispute(ctx, evidence_hash) => dispute_opened(
                escrow,
                ctx.disputing_party,
                evidence_hash,
                now,
            ),
            Operation::RespondToDispute(ctx, evidence_hash) => with_evidence(
                escrow,
                side_of(escrow, ctx.responding_party),
                evidence_hash,
            ),
            Operation::DefaultJudgment(_) => settled(escrow, escrow.dispute_resolution_hash),
            Operation::ResolveDispute(_, _, resolution_hash) => settled(
                escrow,
                Some(resolution_hash),
            ),
        }
    }
}

/// Whether the caller is one that the operation is open to.
pub open spec fn authorized(escrow: Escrow, operation: Operation) -> bool {
    match operation {
        Operation::Fund(ctx) => ctx.seller == escrow.seller,
        Operation::MarkFiatPaid(ctx) => ctx.buyer == escrow.buyer,
        Operation::UpdateSequentialAddress(ctx, _) => ctx.buyer == escrow.buyer,
        Operation::Release(ctx) => ctx.authority == escrow.seller || ctx.authority
            == escrow.arbitrator,
        Operation::Cancel(ctx) => ctx.authority == escrow.seller || ctx.authority
            == escrow.arbitrator,
        Operation::AutoCancel(ctx) => ctx.arbitrator == escrow.arbitrator,
        Operation::OpenDispute(ctx, _) => ctx.disputing_party == escrow.buyer
            || ctx.disputing_party == escrow.seller,
        Operation::RespondToDispute(ctx, _) => (ctx.responding_party == escrow.buyer
            || ctx.responding_party == escrow.seller) && escrow.dispute_initiator != Some(
            ctx.responding_party,
        ),
        Operation::DefaultJudgment(ctx) => ctx.arbitrator == escrow.arbitrator,
        Operation::ResolveDispute(ctx, _, _) => ctx.arbitrator == escrow.arbitrator,
    }
}

/// The transition table: the states in which an operation can be used.
pub open spec fn listed(state: EscrowState, operation: Operation) -> bool {
    match operation {
        Operation::Fund(_) => state == EscrowState::Created,
        Operation::MarkFiatPaid(_) => state == EscrowState::Funded,
        Operation::UpdateSequentialAddress(_, _) => !state.terminal(),
        Operation::Release(_) => state == EscrowState::Funded,
        Operation::Cancel(_) => state == EscrowState::Created || state == EscrowState::Funded,
        Operation::AutoCancel(_) => state == EscrowState::Created || state == EscrowState::Funded,
        Operation::OpenDispute(_, _) => state == EscrowState::Funded,
        Operation::RespondToDispute(_, _) => state == EscrowState::Disputed,
        Operation::DefaultJudgment(_) => state == EscrowState::Disputed,
        Operation::ResolveDispute(_, _, _) => state == EscrowState::Disputed,
    }
}

/// Whether exactly one of the two sides has given no evidence.
pub open spec fn one_side_silent(escrow: Escrow) -> bool {
    (escrow.dispute_evidence_hash_buyer is None) != (escrow.dispute_evidence_hash_seller is None)
}

/// Whether the 72 hours for answering the dispute are over at `now`.
pub open spec fn response_window_over(escrow: Escrow, now: i64) -> bool {
    escrow.dispute_initiated_time matches Some(opened_at) && now > opened_at
        + DISPUTE_RESPONSE_WINDOW_SECONDS
}

/// What an operation asks for besides the right caller and a listed state.
pub open spec fn further_preconditions(escrow: Escrow, operation: Operation, now: i64) -> bool {
    let room = escrow.counter < u64::MAX;
    match operation {
        Operation::Fund(ctx) => {
            &&& now <= escrow.deposit_deadline
            &&& ctx.seller_token_balance >= escrow.amount + escrow.fee
            &&& window_fits(now as int, FIAT_WINDOW_SECONDS as int)
            &&& room
        },
        Operation::MarkFiatPaid(_) => now <= escrow.fiat_deadline,
        Operation::UpdateSequentialAddress(_, _) => escrow.sequential,
        Operation::Release(ctx) => {
            &&& escrow.fiat_paid
            &&& escrow.sequential ==> ctx.sequential_escrow_token_account
            &&& room
        },
        Operation::Cancel(ctx) => {
            &&& !escrow.fiat_paid
            &&& escrow.state == EscrowState::Funded ==> ctx.escrow_token_account
                && ctx.seller_token_account
            &&& room
        },
        Operation::AutoCancel(ctx) => {
            &&& timed_out(escrow, now)
            &&& escrow.state == EscrowState::Funded ==> ctx.escrow_token_account
                && ctx.seller_token_account
            &&& room
        },
        Operation::OpenDispute(ctx, _) => {
            &&& escrow.fiat_paid
            &&& ctx.disputing_party_token_balance >= bond_of(escrow.amount as int)
            &&& room
        },
        Operation::RespondToDispute(ctx, _) => {
            &&& window_fits(
                escrow.dispute_initiated_time->0 as int,
                DISPUTE_RESPONSE_WINDOW_SECONDS as int,
            )
            &&& !response_window_over(escrow, now)
            &&& ctx.responding_party_token_balance >= bond_of(escrow.amount as int)
            &&& evidence_of(escrow, side_of(escrow, ctx.responding_party)) is None
            &&& window_fits(now as int, ARBITRATION_WINDOW_SECONDS as int)
        },
        Operation::DefaultJudgment(_) => {
            &&& window_fits(
                escrow.dispute_initiated_time->0 as int,
                DISPUTE_RESPONSE_WINDOW_SECONDS as int,
            )
            &&& response_window_over(escrow, now)
            &&& one_side_silent(escrow)
            &&& room
        },
        Operation::ResolveDispute(ctx, _, _) => {
            &&& escrow.dispute_evidence_hash_buyer is Some
            &&& escrow.dispute_evidence_hash_seller is Some
            &&& ctx.buyer_bond_balance >= bond_of(escrow.amount as int)
            &&& ctx.seller_bond_balance >= bond_of(escrow.amount as int)
            &&& room
        },
    }
}

/// A caller that an operation is not open to is turned away as
/// `Unauthorized`, whatever the state of the escrow.
pub proof fn law_strangers_are_turned_away(escrow: Escrow, operation: Operation, now: i64)
    requires
        !authorized(escrow, operation),
    ensures
        rejection(escrow, operation, now) == Some(EscrowError::Unauthorized),
        after(escrow, operation, now) == escrow,
{
}

/// The transition table is exclusive: in a state that the table does not
/// list for an operation, a caller that the operation is open to is
/// rejected with `InvalidState` or `TerminalState`.
pub proof fn law_unlisted_transitions_fail(escrow: Escrow, operation: Operation, now: i64)
    requires
        authorized(escrow, operation),
        !listed(escrow.state, operation),
    ensures
        rejection(escrow, operation, now) == Some(EscrowError::InvalidState) || rejection(
            escrow,
            operation,
            now,
        ) == Some(EscrowError::TerminalState),
{
}

/// The transition table is total: in a listed state, a call by a caller
/// that the operation is open to succeeds exactly when the operation's
/// further preconditions hold.
pub proof fn law_listed_transitions_succeed(escrow: Escrow, operation: Operation, now: i64)
    requires
        escrow.well_formed(),
        authorized(escrow, operation),
        listed(escrow.state, operation),
    ensures
        rejection(escrow, operation, now) is None <==> further_preconditions(
            escrow,
            operation,
            now,
        ),
{
    assert(escrow.amount * 500 <= u64::MAX);
    assert(escrow.amount + escrow.fee <= u64::MAX);
}

/// Nothing leaves a terminal state: every call on a `Released`,
/// `Cancelled` or `Resolved` escrow is rejected.
pub proof fn law_terminal_states_are_final(escrow: Escrow, operation: Operation, now: i64)
    requires
        escrow.state.terminal(),
    ensures
        rejection(escrow, operation, now) is Some,
        after(escrow, operation, now) == escrow,
{
}

/// Every call leaves a well-formed record well-formed, and never touches
/// the identity, the parties, the principal or the fee.
pub proof fn law_calls_preserve_the_record(escrow: Escrow, operation: Operation, now: i64)
    requires
        escrow.well_formed(),
    ensures
        after(escrow, operation, now).well_formed(),
        after(escrow, operation, now).escrow_id == escrow.escrow_id,
        after(escrow, operation, now).trade_id == escrow.trade_id,
        after(escrow, operation, now).seller == escrow.seller,
        after(escrow, operation, now).buyer == escrow.buyer,
        after(escrow, operation, now).arbitrator == escrow.arbitrator,
        after(escrow, operation, now).amount == escrow.amount,
        after(escrow, operation, now).fee == escrow.fee,
{
}

/// The tracked balance is principal and fee together, never a part of
/// them, exactly while the escrow is `Funded`, and nothing in every other
/// state.
pub proof fn law_tracked_balance(escrow: Escrow, operation: Operation, now: i64)
    requires
        escrow.well_formed(),
    ensures
        ({
            let next = after(escrow, operation, now);
            &&& next.state == EscrowState::Funded ==> next.tracked_balance == next.amount
                + next.fee
            &&& next.state != EscrowState::Funded ==> next.tracked_balance == 0
        }),
{
}

/// The bond of a dispute is five percent of the principal, rounded down,
/// and a party whose own account holds less than that can neither open a
/// dispute nor answer one.
pub proof fn law_bond_is_five_percent(
    escrow: Escrow,
    opening: OpenDispute,
    answering: RespondToDispute,
    now: i64,
)
    requires
        escrow.well_formed(),
    ensures
        bond_of(escrow.amount as int) == escrow.amount * 5 / 100,
        bond_of(escrow.amount as int) == escrow.amount / 20,
        bond_of(escrow.amount as int) <= 5_000_000,
        opening.disputing_party_token_balance < bond_of(escrow.amount as int)
            ==> open_dispute_rejection(escrow, opening) is Some,
        answering.responding_party_token_balance < bond_of(escrow.amount as int)
            ==> respond_rejection(escrow, answering, now) is Some,
{
}

/// A dispute opens with the evidence of one side only, the side that
/// opened it; the other side's evidence can only come later, in an answer.
pub proof fn law_dispute_opens_one_sided(
    escrow: Escrow,
    ctx: OpenDispute,
    evidence_hash: [u8; 32],
    now: i64,
)
    requires
        escrow.well_formed(),
        open_dispute_rejection(escrow, ctx) is None,
    ensures
        ({
            let opened = dispute_opened(escrow, ctx.disputing_party, evidence_hash, now);
            let side = side_of(escrow, ctx.disputing_party);
            &&& opened.state == EscrowState::Disputed
            &&& opened.dispute_initiator == Some(ctx.disputing_party)
            &&& opened.dispute_initiated_time == Some(now)
            &&& evidence_of(opened, side) == Some(evidence_hash)
            &&& evidence_of(opened, side.counterpart()) is None
            &&& one_side_silent(opened)
        }),
{
}

/// Judgment by default can be had only when exactly one side has given no
/// evidence and the 72 hours for answering are over. It then goes to the
/// side that opened the dispute.
pub proof fn law_default_judgment_reach(escrow: Escrow, ctx: DefaultJudgment, now: i64)
    requires
        escrow.well_formed(),
    ensures
        default_judgment_rejection(escrow, ctx, now) is None ==> {
            &&& escrow.state == EscrowState::Disputed
            &&& ctx.arbitrator == escrow.arbitrator
            &&& one_side_silent(escrow)
            &&& response_window_over(escrow, now)
            &&& default_winner(escrow) matches Some(winner)
            &&& evidence_of(escrow, winner) is Some
            &&& evidence_of(escrow, winner.counterpart()) is None
        },
        !one_side_silent(escrow) || !response_window_over(escrow, now)
            ==> default_judgment_rejection(escrow, ctx, now) is Some,
{
}

/// The counter goes up by exactly one with every call that changes the
/// state of the escrow, stays as it is with every other accepted call, and
/// a rejected call changes nothing at all.
pub proof fn law_counter_counts_transitions(escrow: Escrow, operation: Operation, now: i64)
    ensures
        ({
            let next = after(escrow, operation, now);
            &&& rejection(escrow, operation, now) is Some ==> next == escrow
            &&& next.state != escrow.state ==> next.counter == escrow.counter + 1
            &&& next.state == escrow.state ==> next.counter == escrow.counter
            &&& next.counter >= escrow.counter
        }),
{
}

/// For every principal that `create_escrow` accepts, the record it makes
/// carries a fee of one hundredth of the principal, rounded down, and
/// principal and fee together stay inside the 64-bit range.
pub proof fn law_fee_is_one_percent(amount: u64)
    requires
        0 < amount <= MAX_AMOUNT,
    ensures
        fee_of(amount as int) == amount / 100,
        total_of(amount as int) == amount + amount / 100,
        total_of(amount as int) <= 101_000_000,
        total_of(amount as int) <= u64::MAX,
{
}

} // verus!
