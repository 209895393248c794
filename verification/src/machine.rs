//! The lifecycle of an escrow outside disputes: creation, funding, the
//! buyer's acknowledgment of the fiat payment, release and cancellation.
//!
//! Every operation checks the caller first, then the state of the escrow,
//! then the payment flag and the deadlines, and last the amounts. A call
//! that is rejected leaves the record as it was. `counter` goes up by one
//! with every change of `state` and with nothing else.

use vstd::prelude::*;
use crate::accounts::{
    AutoCancel, CancelEscrow, CreateEscrow, FundEscrow, MarkFiatPaid, ReleaseEscrow,
    UpdateSequentialAddress,
};
use crate::calc::{bps, fee_of, sum, FEE_BASIS_POINTS, MAX_AMOUNT};
use crate::custody::{CustodyAccount, CustodyInstruction};
use crate::deadline::{
    deadline_after, expired, window_fits, DEPOSIT_WINDOW_SECONDS, FIAT_WINDOW_SECONDS,
};
use crate::events::{
    balance_changed, Effects, EscrowCancelled, EscrowCreated, EscrowEvent, EscrowReleased,
    FiatMarkedPaid, FundsDeposited, SequentialAddressUpdated,
};
use crate::model::{Escrow, EscrowError, EscrowState};
use crate::party::Address;

verus! {

/// Why `create_escrow` rejects a call, if it does.
pub open spec fn create_rejection(
    amount: u64,
    sequential: bool,
    sequential_escrow_address: Option<Address>,
    now: i64,
) -> Option<EscrowError> {
    if amount == 0 {
        Some(EscrowError::InvalidAmount)
    } else if amount > MAX_AMOUNT {
        Some(EscrowError::ExceedsMaximum)
    } else if sequential && sequential_escrow_address is None {
        Some(EscrowError::MissingSequentialAddress)
    } else if !window_fits(now as int, DEPOSIT_WINDOW_SECONDS as int) {
        Some(EscrowError::FeeCalculationError)
    } else {
        None
    }
}

/// The record of a trade that was just created at time `now`.
pub open spec fn created(
    ctx: CreateEscrow,
    arbitrator: Address,
    escrow_id: u64,
    trade_id: u64,
    amount: u64,
    sequential: bool,
    sequential_escrow_address: Option<Address>,
    now: i64,
) -> Escrow {
    Escrow {
        escrow_id,
        trade_id,
        seller: ctx.seller,
        buyer: ctx.buyer,
        arbitrator,
        amount,
        fee: fee_of(amount as int) as u64,
        deposit_deadline: (now + DEPOSIT_WINDOW_SECONDS) as i64,
        fiat_deadline: 0,
        state: EscrowState::Created,
        sequential,
        sequential_escrow_address,
        fiat_paid: false,
        counter: 0,
        dispute_initiator: None,
        dispute_initiated_time: None,
        dispute_evidence_hash_buyer: None,
        dispute_evidence_hash_seller: None,
        dispute_resolution_hash: None,
        tracked_balance: 0,
    }
}

/// The notification that goes with a new record.
pub open spec fn creation_event(escrow_key: Address, escrow: Escrow, now: i64) -> EscrowEvent {
    EscrowEvent::Created(
        EscrowCreated {
            object_id: escrow_key,
            escrow_id: escrow.escrow_id,
            trade_id: escrow.trade_id,
            seller: escrow.seller,
            buyer: escrow.buyer,
            arbitrator: escrow.arbitrator,
            amount: escrow.amount,
            fee: escrow.fee,
            deposit_deadline: escrow.deposit_deadline,
            fiat_deadline: 0,
            sequential: escrow.sequential,
            sequential_escrow_address: escrow.sequential_escrow_address,
            timestamp: now,
        },
    )
}

/// The seller sets up an escrow for a trade with `ctx.buyer`.
///
/// The principal must be more than nothing and at most `MAX_AMOUNT`, and a
/// sequential trade must name its downstream escrow. The new record is
/// `Created`, owes a fee of one percent, and must be funded within 15
/// minutes. `arbitrator` is the one identity that may step in later.
pub fn create_escrow(
    ctx: &CreateEscrow,
    arbitrator: Address,
    escrow_id: u64,
    trade_id: u64,
    amount: u64,
    sequential: bool,
    sequential_escrow_address: Option<Address>,
    now: i64,
) -> (result: Result<(Escrow, Effects), EscrowError>)
    ensures
        match result {
            Ok((escrow, effects)) => {
                &&& create_rejection(amount, sequential, sequential_escrow_address, now) is None
                &&& escrow == created(
                    *ctx,
                    arbitrator,
                    escrow_id,
                    trade_id,
                    amount,
                    sequential,
                    sequential_escrow_address,
                    now,
                )
                &&& escrow.well_formed()
                &&& escrow.fee == amount / 100
                &&& effects.instructions@ == Seq::<CustodyInstruction>::empty()
                &&& effects.events@ == seq![creation_event(ctx.escrow_key, escrow, now)]
            },
            Err(error) => create_rejection(amount, sequential, sequential_escrow_address, now)
                == Some(error),
        },
{
    if amount == 0 {
        return Err(EscrowError::InvalidAmount);
    }
    if amount > MAX_AMOUNT {
        return Err(EscrowError::ExceedsMaximum);
    }
    if sequential && sequential_escrow_address.is_none() {
        return Err(EscrowError::MissingSequentialAddress);
    }
    let fee: u64 = match bps(amount, FEE_BASIS_POINTS) {
        Ok(fee) => fee,
        Err(error) => {
            return Err(error);
        },
    };
    let deposit_deadline: i64 = match deadline_after(now, DEPOSIT_WINDOW_SECONDS) {
        Some(deadline) => deadline,
        None => {
            return Err(EscrowError::FeeCalculationError);
        },
    };
    let escrow = Escrow {
        escrow_id,
        trade_id,
        seller: ctx.seller,
        buyer: ctx.buyer,
        arbitrator,
        amount,
        fee,
        deposit_deadline,
        fiat_deadline: 0,
        state: EscrowState::Created,
        sequential,
        sequential_escrow_address,
        fiat_paid: false,
        counter: 0,
        dispute_initiator: None,
        dispute_initiated_time: None,
        dispute_evidence_hash_buyer: None,
        dispute_evidence_hash_seller: None,
        dispute_resolution_hash: None,
        tracked_balance: 0,
    };
    let mut events: Vec<EscrowEvent> = Vec::new();
    events.push(
        EscrowEvent::Created(
            EscrowCreated {
                object_id: ctx.escrow_key,
                escrow_id,
                trade_id,
                seller: ctx.seller,
                buyer: ctx.buyer,
                arbitrator,
                amount,
                fee,
                deposit_deadline,
                fiat_deadline: 0,
                sequential,
                sequential_escrow_address,
                timestamp: now,
            },
        ),
    );
    Ok((escrow, Effects { instructions: Vec::new(), events }))
}

/// Why `fund_escrow` rejects a call, if it does.
pub open spec fn fund_rejection(escrow: Escrow, ctx: FundEscrow, now: i64) -> Option<EscrowError> {
    if ctx.seller != escrow.seller {
        Some(EscrowError::Unauthorized)
    } else if escrow.state != EscrowState::Created {
        Some(EscrowError::InvalidState)
    } else if now > escrow.deposit_deadline {
        Some(EscrowError::DepositDeadlineExpired)
    } else if escrow.amount + escrow.fee > u64::MAX {
        Some(EscrowError::FeeCalculationError)
    } else if ctx.seller_token_balance < escrow.amount + escrow.fee {
        Some(EscrowError::InsufficientFunds)
    } else if !window_fits(now as int, FIAT_WINDOW_SECONDS as int) {
        Some(EscrowError::FeeCalculationError)
    } else if escrow.counter == u64::MAX {
        Some(EscrowError::FeeCalculationError)
    } else {
        None
    }
}

/// The record after the seller funded it at time `now`.
pub open spec fn funded(escrow: Escrow, now: i64) -> Escrow {
    Escrow {
        state: EscrowState::Funded,
        counter: (escrow.counter + 1) as u64,
        fiat_deadline: (now + FIAT_WINDOW_SECONDS) as i64,
        tracked_balance: (escrow.amount + escrow.fee) as u64,
        ..escrow
    }
}

/// The two notifications of a funding.
pub open spec fn fund_announced(
    escrow: Escrow,
    ctx: FundEscrow,
    now: i64,
    events: Seq<EscrowEvent>,
) -> bool {
    &&& events.len() == 2
    &&& events[0].is_balance_change(
        ctx.escrow_key,
        escrow.escrow_id,
        escrow.trade_id,
        (escrow.amount + escrow.fee) as u64,
        "Escrow funded"@,
        now,
    )
    &&& events[1] == EscrowEvent::Deposited(
        FundsDeposited {
            object_id: ctx.escrow_key,
            escrow_id: escrow.escrow_id,
            trade_id: escrow.trade_id,
            amount: escrow.amount,
            fee: escrow.fee,
            counter: (escrow.counter + 1) as u64,
            timestamp: now,
        },
    )
}

/// The seller deposits principal and fee.
///
/// The deposit must come before the deposit deadline has passed, and the
/// seller's own account must cover it. The whole sum moves into the
/// escrow's holding account in one instruction, the record becomes
/// `Funded`, and the buyer has 30 minutes to acknowledge the fiat payment.
pub fn fund_escrow(escrow: &mut Escrow, ctx: &FundEscrow, now: i64) -> (result: Result<
    Effects,
    EscrowError,
>)
    ensures
        match result {
            Ok(effects) => {
                &&& fund_rejection(*old(escrow), *ctx, now) is None
                &&& *final(escrow) == funded(*old(escrow), now)
                &&& effects.instructions@ == seq![
                    CustodyInstruction::Hold {
                        from: CustodyAccount::SellerTokens,
                        into: CustodyAccount::EscrowVault,
                        amount: (old(escrow).amount + old(escrow).fee) as u64,
                    },
                ]
                &&& fund_announced(*old(escrow), *ctx, now, effects.events@)
            },
            Err(error) => {
                &&& fund_rejection(*old(escrow), *ctx, now) == Some(error)
                &&& *final(escrow) == *old(escrow)
            },
        },
        old(escrow).well_formed() ==> final(escrow).well_formed(),
{
    if !ctx.seller.same(&escrow.seller) {
        return Err(EscrowError::Unauthorized);
    }
    if escrow.state != EscrowState::Created {
        return Err(EscrowError::InvalidState);
    }
    if expired(now, escrow.deposit_deadline) {
        return Err(EscrowError::DepositDeadlineExpired);
    }
    let total: u64 = match sum(escrow.amount, escrow.fee) {
        Ok(total) => total,
        Err(error) => {
            return Err(error);
        },
    };
    if ctx.seller_token_balance < total {
        return Err(EscrowError::InsufficientFunds);
    }
    let fiat_deadline: i64 = match deadline_after(now, FIAT_WINDOW_SECONDS) {
        Some(deadline) => deadline,
        None => {
            return Err(EscrowError::FeeCalculationError);
        },
    };
    let counter: u64 = match escrow.counter.checked_add(1) {
        Some(counter) => counter,
        None => {
            return Err(EscrowError::FeeCalculationError);
        },
    };
    let mut instructions: Vec<CustodyInstruction> = Vec::new();
    instructions.push(
        CustodyInstruction::Hold {
            from: CustodyAccount::SellerTokens,
            into: CustodyAccount::EscrowVault,
            amount: total,
        },
    );
    let mut events: Vec<EscrowEvent> = Vec::new();
    events.push(
        balance_changed(
            ctx.escrow_key,
            escrow.escrow_id,
            escrow.trade_id,
            total,
            "Escrow funded",
            now,
        ),
    );
    events.push(
        EscrowEvent::Deposited(
            FundsDeposited {
                object_id: ctx.escrow_key,
                escrow_id: escrow.escrow_id,
                trade_id: escrow.trade_id,
                amount: escrow.amount,
                fee: escrow.fee,
                counter,
                timestamp: now,
            },
        ),
    );
    escrow.state = EscrowState::Funded;
    escrow.counter = counter;
    escrow.fiat_deadline = fiat_deadline;
    escrow.tracked_balance = total;
    Ok(Effects { instructions, events })
}

/// Why `mark_fiat_paid` rejects a call, if it does.
pub open spec fn mark_fiat_paid_rejection(escrow: Escrow, ctx: MarkFiatPaid, now: i64) -> Option<
    EscrowError,
> {
    if ctx.buyer != escrow.buyer {
        Some(EscrowError::Unauthorized)
    } else if escrow.state != EscrowState::Funded {
        Some(EscrowError::InvalidState)
    } else if now > escrow.fiat_deadline {
        Some(EscrowError::FiatDeadlineExpired)
    } else {
        None
    }
}

/// The buyer acknowledges that the fiat payment was made.
///
/// The escrow must be `Funded` and the fiat deadline must not have passed.
/// Only the payment flag changes.
pub fn mark_fiat_paid(escrow: &mut Escrow, ctx: &MarkFiatPaid, now: i64) -> (result: Result<
    Effects,
    EscrowError,
>)
    ensures
        match result {
            Ok(effects) => {
                &&& mark_fiat_paid_rejection(*old(escrow), *ctx, now) is None
                &&& *final(escrow) == (Escrow { fiat_paid: true, ..*old(escrow) })
                &&& effects.instructions@ == Seq::<CustodyInstruction>::empty()
                &&& effects.events@ == seq![
                    EscrowEvent::FiatPaid(
                        FiatMarkedPaid {
                            object_id: ctx.escrow_key,
                            escrow_id: old(escrow).escrow_id,
                            trade_id: old(escrow).trade_id,
                            timestamp: now,
                        },
                    ),
                ]
            },
            Err(error) => {
                &&& mark_fiat_paid_rejection(*old(escrow), *ctx, now) == Some(error)
                &&& *final(escrow) == *old(escrow)
            },
        },
        old(escrow).well_formed() ==> final(escrow).well_formed(),
{
    if !ctx.buyer.same(&escrow.buyer) {
        return Err(EscrowError::Unauthorized);
    }
    if escrow.state != EscrowState::Funded {
        return Err(EscrowError::InvalidState);
    }
    if expired(now, escrow.fiat_deadline) {
        return Err(EscrowError::FiatDeadlineExpired);
    }
    let mut events: Vec<EscrowEvent> = Vec::new();
    events.push(
        EscrowEvent::FiatPaid(
            FiatMarkedPaid {
                object_id: ctx.escrow_key,
                escrow_id: escrow.escrow_id,
                trade_id: escrow.trade_id,
                timestamp: now,
            },
        ),
    );
    escrow.fiat_paid = true;
    Ok(Effects { instructions: Vec::new(), events })
}

/// Why `update_sequential_address` rejects a call, if it does.
pub open spec fn update_sequential_rejection(
    escrow: Escrow,
    ctx: UpdateSequentialAddress,
) -> Option<EscrowError> {
    if ctx.buyer != escrow.buyer {
        Some(EscrowError::Unauthorized)
    } else if !escrow.sequential {
        Some(EscrowError::InvalidState)
    } else if escrow.state.terminal() {
        Some(EscrowError::TerminalState)
    } else {
        None
    }
}

/// The buyer of a sequential trade names another downstream escrow.
///
/// The address is taken as it is given: nothing checks that an escrow
/// lives there.
pub fn update_sequential_address(
    escrow: &mut Escrow,
    ctx: &UpdateSequentialAddress,
    new_address: Address,
    now: i64,
) -> (result: Result<Effects, EscrowError>)
    ensures
        match result {
            Ok(effects) => {
                &&& update_sequential_rejection(*old(escrow), *ctx) is None
                &&& *final(escrow) == (Escrow {
                    sequential_escrow_address: Some(new_address),
                    ..*old(escrow)
                })
                &&& effects.instructions@ == Seq::<CustodyInstruction>::empty()
                &&& effects.events@ == seq![
                    EscrowEvent::SequentialAddressUpdated(
                        SequentialAddressUpdated {
                            object_id: ctx.escrow_key,
                            escrow_id: old(escrow).escrow_id,
                            trade_id: old(escrow).trade_id,
                            old_address: old(escrow).sequential_escrow_address,
                            new_address,
                            timestamp: now,
                        },
                    ),
                ]
            },
            Err(error) => {
                &&& update_sequential_rejection(*old(escrow), *ctx) == Some(error)
                &&& *final(escrow) == *old(escrow)
            },
        },
        old(escrow).well_formed() ==> final(escrow).well_formed(),
{
    if !ctx.buyer.same(&escrow.buyer) {
        return Err(EscrowError::Unauthorized);
    }
    if !escrow.sequential {
        return Err(EscrowError::InvalidState);
    }
    if escrow.state.is_terminal() {
        return Err(EscrowError::TerminalState);
    }
    let mut events: Vec<EscrowEvent> = Vec::new();
    events.push(
        EscrowEvent::SequentialAddressUpdated(
            SequentialAddressUpdated {
                object_id: ctx.escrow_key,
                escrow_id: escrow.escrow_id,
                trade_id: escrow.trade_id,
                old_address: escrow.sequential_escrow_address,
                new_address,
                timestamp: now,
            },
        ),
    );
    escrow.sequential_escrow_address = Some(new_address);
    Ok(Effects { instructions: Vec::new(), events })
}

/// Why `release_escrow` rejects a call, if it does.
pub open spec fn release_rejection(escrow: Escrow, ctx: ReleaseEscrow) -> Option<EscrowError> {
    if ctx.authority != escrow.seller && ctx.authority != escrow.arbitrator {
        Some(EscrowError::Unauthorized)
    } else if escrow.state != EscrowState::Funded {
        Some(EscrowError::InvalidState)
    } else if !escrow.fiat_paid {
        Some(EscrowError::InvalidState)
    } else if escrow.sequential && (escrow.sequential_escrow_address is None
        || !ctx.sequential_escrow_token_account) {
        Some(EscrowError::MissingSequentialAddress)
    } else if escrow.counter == u64::MAX {
        Some(EscrowError::FeeCalculationError)
    } else {
        None
    }
}

/// The record after its funds left the escrow for good, in `state`.
pub open spec fn emptied(escrow: Escrow, state: EscrowState) -> Escrow {
    Escrow { state, tracked_balance: 0, counter: (escrow.counter + 1) as u64, ..escrow }
}

/// The account that receives the principal on release: the downstream
/// escrow's in a sequential trade, the buyer's own otherwise.
pub open spec fn release_destination(escrow: Escrow) -> CustodyAccount {
    if escrow.sequential {
        CustodyAccount::SequentialTokens
    } else {
        CustodyAccount::BuyerTokens
    }
}

/// The instructions of a release: the fee to the arbitrator, the principal
/// to its destination, each on its own, and the holding account closed in
/// favour of the caller.
pub open spec fn release_instructions(escrow: Escrow, caller: Address) -> Seq<
    CustodyInstruction,
> {
    seq![
        CustodyInstruction::Release {
            from: CustodyAccount::EscrowVault,
            to: CustodyAccount::ArbitratorTokens,
            amount: escrow.fee,
        },
        CustodyInstruction::Release {
            from: CustodyAccount::EscrowVault,
            to: release_destination(escrow),
            amount: escrow.amount,
        },
        CustodyInstruction::Close {
            account: CustodyAccount::EscrowVault,
            rent_destination: caller,
        },
    ]
}

/// The two notifications of a release.
pub open spec fn release_announced(
    escrow: Escrow,
    ctx: ReleaseEscrow,
    now: i64,
    events: Seq<EscrowEvent>,
) -> bool {
    &&& events.len() == 2
    &&& events[0].is_balance_change(
        ctx.escrow_key,
        escrow.escrow_id,
        escrow.trade_id,
        0,
        "Escrow released"@,
        now,
    )
    &&& events[1] == EscrowEvent::Released(
        EscrowReleased {
            object_id: ctx.escrow_key,
            escrow_id: escrow.escrow_id,
            trade_id: escrow.trade_id,
            buyer: escrow.buyer,
            amount: escrow.amount,
            fee: escrow.fee,
            counter: (escrow.counter + 1) as u64,
            timestamp: now,
            destination: if escrow.sequential {
                escrow.sequential_escrow_address->0
            } else {
                escrow.buyer
            },
        },
    )
}

/// The seller or the arbitrator releases a funded escrow whose fiat
/// payment the buyer has acknowledged.
///
/// The fee goes to the arbitrator and the principal to the buyer, or to
/// the downstream escrow of a sequential trade, which must then be named
/// and its account be at hand. The record becomes `Released`.
pub fn release_escrow(escrow: &mut Escrow, ctx: &ReleaseEscrow, now: i64) -> (result: Result<
    Effects,
    EscrowError,
>)
    ensures
        match result {
            Ok(effects) => {
                &&& release_rejection(*old(escrow), *ctx) is None
                &&& *final(escrow) == emptied(*old(escrow), EscrowState::Released)
                &&& effects.instructions@ == release_instructions(*old(escrow), ctx.authority)
                &&& release_announced(*old(escrow), *ctx, now, effects.events@)
            },
            Err(error) => {
                &&& release_rejection(*old(escrow), *ctx) == Some(error)
                &&& *final(escrow) == *old(escrow)
            },
        },
        old(escrow).well_formed() ==> final(escrow).well_formed(),
{
    if !ctx.authority.same(&escrow.seller) && !ctx.authority.same(&escrow.arbitrator) {
        return Err(EscrowError::Unauthorized);
    }
    if escrow.state != EscrowState::Funded {
        return Err(EscrowError::InvalidState);
    }
    if !escrow.fiat_paid {
        return Err(EscrowError::InvalidState);
    }
    let mut destination = escrow.buyer;
    let mut destination_account = CustodyAccount::BuyerTokens;
    if escrow.sequential {
        match escrow.sequential_escrow_address {
            Some(address) => {
                if !ctx.sequential_escrow_token_account {
                    return Err(EscrowError::MissingSequentialAddress);
                }
                destination = address;
                destination_account = CustodyAccount::SequentialTokens;
            },
            None => {
                return Err(EscrowError::MissingSequentialAddress);
            },
        }
    }
    let counter: u64 = match escrow.counter.checked_add(1) {
        Some(counter) => counter,
        None => {
            return Err(EscrowError::FeeCalculationError);
        },
    };
    let mut instructions: Vec<CustodyInstruction> = Vec::new();
    instructions.push(
        CustodyInstruction::Release {
            from: CustodyAccount::EscrowVault,
            to: CustodyAccount::ArbitratorTokens,
            amount: escrow.fee,
        },
    );
    instructions.push(
        CustodyInstruction::Release {
            from: CustodyAccount::EscrowVault,
            to: destination_account,
            amount: escrow.amount,
        },
    );
    instructions.push(
        CustodyInstruction::Close {
            account: CustodyAccount::EscrowVault,
            rent_destination: ctx.authority,
        },
    );
    let mut events: Vec<EscrowEvent> = Vec::new();
    events.push(
        balance_changed(
            ctx.escrow_key,
            escrow.escrow_id,
            escrow.trade_id,
            0,
            "Escrow released",
            now,
        ),
    );
    events.push(
        EscrowEvent::Released(
            EscrowReleased {
                object_id: ctx.escrow_key,
                escrow_id: escrow.escrow_id,
                trade_id: escrow.trade_id,
                buyer: escrow.buyer,
                amount: escrow.amount,
                fee: escrow.fee,
                counter,
                timestamp: now,
                destination,
            },
        ),
    );
    escrow.tracked_balance = 0;
    escrow.state = EscrowState::Released;
    escrow.counter = counter;
    assert(instructions@ =~= release_instructions(*old(escrow), ctx.authority));
    Ok(Effects { instructions, events })
}

/// Why a refund of the escrow cannot go ahead, once the caller and the
/// moment were found in order: a funded escrow needs both accounts at hand
/// and a sum that can be written down, and the counter needs room.
pub open spec fn refund_rejection(escrow: Escrow, accounts_at_hand: bool) -> Option<EscrowError> {
    if escrow.state == EscrowState::Funded && !accounts_at_hand {
        Some(EscrowError::InvalidState)
    } else if escrow.state == EscrowState::Funded && escrow.amount + escrow.fee > u64::MAX {
        Some(EscrowError::FeeCalculationError)
    } else if escrow.counter == u64::MAX {
        Some(EscrowError::FeeCalculationError)
    } else {
        None
    }
}

/// The instructions of a cancellation: principal and fee back to the
/// seller and the holding account closed, when the escrow was funded;
/// nothing otherwise.
pub open spec fn refund_instructions(escrow: Escrow) -> Seq<CustodyInstruction> {
    if escrow.state == EscrowState::Funded {
        seq![
            CustodyInstruction::Release {
                from: CustodyAccount::EscrowVault,
                to: CustodyAccount::SellerTokens,
                amount: (escrow.amount + escrow.fee) as u64,
            },
            CustodyInstruction::Close {
                account: CustodyAccount::EscrowVault,
                rent_destination: escrow.seller,
            },
        ]
    } else {
        Seq::empty()
    }
}

/// The notification that an escrow was cancelled.
pub open spec fn cancellation_event(escrow: Escrow, escrow_key: Address, now: i64) -> EscrowEvent {
    EscrowEvent::Cancelled(
        EscrowCancelled {
            object_id: escrow_key,
            escrow_id: escrow.escrow_id,
            trade_id: escrow.trade_id,
            seller: escrow.seller,
            amount: escrow.amount,
            fee: escrow.fee,
            counter: (escrow.counter + 1) as u64,
            timestamp: now,
        },
    )
}

/// The notifications of a cancellation: the balance change, when funds
/// were held, and then the cancellation itself.
pub open spec fn refund_announced(
    escrow: Escrow,
    escrow_key: Address,
    reason: Seq<char>,
    now: i64,
    events: Seq<EscrowEvent>,
) -> bool {
    if escrow.state == EscrowState::Funded {
        &&& events.len() == 2
        &&& events[0].is_balance_change(
            escrow_key,
            escrow.escrow_id,
            escrow.trade_id,
            0,
            reason,
            now,
        )
        &&& events[1] == cancellation_event(escrow, escrow_key, now)
    } else {
        events == seq![cancellation_event(escrow, escrow_key, now)]
    }
}

/// Cancels an escrow whose caller and moment were found in order, and
/// gives back what it holds.
fn refund(
    escrow: &mut Escrow,
    escrow_key: Address,
    accounts_at_hand: bool,
    reason: &str,
    now: i64,
) -> (result: Result<Effects, EscrowError>)
    ensures
        match result {
            Ok(effects) => {
                &&& refund_rejection(*old(escrow), accounts_at_hand) is None
                &&& *final(escrow) == emptied(*old(escrow), EscrowState::Cancelled)
                &&& effects.instructions@ == refund_instructions(*old(escrow))
                &&& refund_announced(*old(escrow), escrow_key, reason@, now, effects.events@)
            },
            Err(error) => {
                &&& refund_rejection(*old(escrow), accounts_at_hand) == Some(error)
                &&& *final(escrow) == *old(escrow)
            },
        },
{
    let mut instructions: Vec<CustodyInstruction> = Vec::new();
    let mut events: Vec<EscrowEvent> = Vec::new();
    if escrow.state == EscrowState::Funded {
        if !accounts_at_hand {
            return Err(EscrowError::InvalidState);
        }
        let total: u64 = match sum(escrow.amount, escrow.fee) {
            Ok(total) => total,
            Err(error) => {
                return Err(error);
            },
        };
        instructions.push(
            CustodyInstruction::Release {
                from: CustodyAccount::EscrowVault,
                to: CustodyAccount::SellerTokens,
                amount: total,
            },
        );
        instructions.push(
            CustodyInstruction::Close {
                account: CustodyAccount::EscrowVault,
                rent_destination: escrow.seller,
            },
        );
        events.push(
            balance_changed(escrow_key, escrow.escrow_id, escrow.trade_id, 0, reason, now),
        );
    }
    let counter: u64 = match escrow.counter.checked_add(1) {
        Some(counter) => counter,
        None => {
            return Err(EscrowError::FeeCalculationError);
        },
    };
    events.push(
        EscrowEvent::Cancelled(
            EscrowCancelled {
                object_id: escrow_key,
                escrow_id: escrow.escrow_id,
                trade_id: escrow.trade_id,
                seller: escrow.seller,
                amount: escrow.amount,
                fee: escrow.fee,
                counter,
                timestamp: now,
            },
        ),
    );
    escrow.tracked_balance = 0;
    escrow.state = EscrowState::Cancelled;
    escrow.counter = counter;
    assert(instructions@ =~= refund_instructions(*old(escrow)));
    assert(old(escrow).state != EscrowState::Funded ==> events@ =~= seq![
        cancellation_event(*old(escrow), escrow_key, now),
    ]);
    Ok(Effects { instructions, events })
}

/// Why `cancel_escrow` rejects a call, if it does.
pub open spec fn cancel_rejection(escrow: Escrow, ctx: CancelEscrow) -> Option<EscrowError> {
    if ctx.authority != escrow.seller && ctx.authority != escrow.arbitrator {
        Some(EscrowError::Unauthorized)
    } else if escrow.state != EscrowState::Created && escrow.state != EscrowState::Funded {
        Some(EscrowError::InvalidState)
    } else if escrow.fiat_paid {
        Some(EscrowError::InvalidState)
    } else {
        refund_rejection(escrow, ctx.escrow_token_account && ctx.seller_token_account)
    }
}

/// The seller or the arbitrator calls a trade off before the buyer has
/// acknowledged the fiat payment.
///
/// A funded escrow gives principal and fee back to the seller and closes
/// its holding account; for that both accounts must be at hand. The record
/// becomes `Cancelled`.
pub fn cancel_escrow(escrow: &mut Escrow, ctx: &CancelEscrow, now: i64) -> (result: Result<
    Effects,
    EscrowError,
>)
    ensures
        match result {
            Ok(effects) => {
                &&& cancel_rejection(*old(escrow), *ctx) is None
                &&& *final(escrow) == emptied(*old(escrow), EscrowState::Cancelled)
                &&& effects.instructions@ == refund_instructions(*old(escrow))
                &&& refund_announced(
                    *old(escrow),
                    ctx.escrow_key,
                    "Escrow cancelled"@,
                    now,
                    effects.events@,
                )
            },
            Err(error) => {
                &&& cancel_rejection(*old(escrow), *ctx) == Some(error)
                &&& *final(escrow) == *old(escrow)
            },
        },
        old(escrow).well_formed() ==> final(escrow).well_formed(),
{
    if !ctx.authority.same(&escrow.seller) && !ctx.authority.same(&escrow.arbitrator) {
        return Err(EscrowError::Unauthorized);
    }
    if escrow.state != EscrowState::Created && escrow.state != EscrowState::Funded {
        return Err(EscrowError::InvalidState);
    }
    if escrow.fiat_paid {
        return Err(EscrowError::InvalidState);
    }
    refund(
        escrow,
        ctx.escrow_key,
        ctx.escrow_token_account && ctx.seller_token_account,
        "Escrow cancelled",
        now,
    )
}

/// Whether the window that the escrow is waiting in has run out at `now`:
/// the deposit window of an escrow that was never funded, or the fiat
/// window of a funded escrow whose payment was never acknowledged.
pub open spec fn timed_out(escrow: Escrow, now: i64) -> bool {
    ||| escrow.state == EscrowState::Created && now > escrow.deposit_deadline
    ||| escrow.state == EscrowState::Funded && now > escrow.fiat_deadline && !escrow.fiat_paid
}

/// Why `auto_cancel` rejects a call, if it does.
pub open spec fn auto_cancel_rejection(escrow: Escrow, ctx: AutoCancel, now: i64) -> Option<
    EscrowError,
> {
    if ctx.arbitrator != escrow.arbitrator {
        Some(EscrowError::Unauthorized)
    } else if escrow.state.terminal() {
        Some(EscrowError::TerminalState)
    } else if !timed_out(escrow, now) {
        Some(EscrowError::InvalidState)
    } else {
        refund_rejection(escrow, ctx.escrow_token_account && ctx.seller_token_account)
    }
}

/// The arbitrator cancels an escrow whose window has run out.
///
/// Nothing fires by itself when a deadline passes: this call enforces it.
/// It has the effect of `cancel_escrow`.
pub fn auto_cancel(escrow: &mut Escrow, ctx: &AutoCancel, now: i64) -> (result: Result<
    Effects,
    EscrowError,
>)
    ensures
        match result {
            Ok(effects) => {
                &&& auto_cancel_rejection(*old(escrow), *ctx, now) is None
                &&& *final(escrow) == emptied(*old(escrow), EscrowState::Cancelled)
                &&& effects.instructions@ == refund_instructions(*old(escrow))
                &&& refund_announced(
                    *old(escrow),
                    ctx.escrow_key,
                    "Escrow auto-cancelled"@,
                    now,
                    effects.events@,
                )
            },
            Err(error) => {
                &&& auto_cancel_rejection(*old(escrow), *ctx, now) == Some(error)
                &&& *final(escrow) == *old(escrow)
            },
        },
        old(escrow).well_formed() ==> final(escrow).well_formed(),
{
    if !ctx.arbitrator.same(&escrow.arbitrator) {
        return Err(EscrowError::Unauthorized);
    }
    if escrow.state.is_terminal() {
        return Err(EscrowError::TerminalState);
    }
    let lapsed = match escrow.state {
        EscrowState::Created => expired(now, escrow.deposit_deadline),
        EscrowState::Funded => expired(now, escrow.fiat_deadline) && !escrow.fiat_paid,
        _ => false,
    };
    if !lapsed {
        return Err(EscrowError::InvalidState);
    }
    refund(
        escrow,
        ctx.escrow_key,
        ctx.escrow_token_account && ctx.seller_token_account,
        "Escrow auto-cancelled",
        now,
    )
}


} // verus!
