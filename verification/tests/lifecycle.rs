use p2p_escrow::accounts::{
    AutoCancel, CancelEscrow, CreateEscrow, FundEscrow, MarkFiatPaid, ReleaseEscrow,
    UpdateSequentialAddress,
};
use p2p_escrow::custody::{CustodyAccount, CustodyInstruction};
use p2p_escrow::events::{
    EscrowCancelled, EscrowCreated, EscrowEvent, EscrowReleased, FiatMarkedPaid, FundsDeposited,
    SequentialAddressUpdated,
};
use p2p_escrow::machine::{
    auto_cancel, cancel_escrow, create_escrow, fund_escrow, mark_fiat_paid, release_escrow,
    update_sequential_address,
};
use p2p_escrow::model::{Escrow, EscrowError, EscrowState};
use p2p_escrow::party::Address;

fn addr(tag: u8) -> Address {
    Address::new([tag; 32])
}

fn seller() -> Address {
    addr(1)
}

fn buyer() -> Address {
    addr(2)
}

fn arbitrator() -> Address {
    addr(3)
}

fn key() -> Address {
    addr(9)
}

fn fresh(amount: u64, now: i64) -> Escrow {
    let ctx = CreateEscrow { seller: seller(), buyer: buyer(), escrow_key: key() };
    create_escrow(&ctx, arbitrator(), 7, 11, amount, false, None, now).unwrap().0
}

fn funded(amount: u64, now: i64) -> Escrow {
    let mut escrow = fresh(amount, now);
    let ctx = FundEscrow { seller: seller(), escrow_key: key(), seller_token_balance: u64::MAX };
    fund_escrow(&mut escrow, &ctx, now).unwrap();
    escrow
}

fn paid(amount: u64, now: i64) -> Escrow {
    let mut escrow = funded(amount, now);
    mark_fiat_paid(&mut escrow, &MarkFiatPaid { buyer: buyer(), escrow_key: key() }, now).unwrap();
    escrow
}

fn release_by(authority: Address) -> ReleaseEscrow {
    ReleaseEscrow { authority, escrow_key: key(), sequential_escrow_token_account: false }
}

fn cancel_by(authority: Address) -> CancelEscrow {
    CancelEscrow {
        authority,
        escrow_key: key(),
        escrow_token_account: true,
        seller_token_account: true,
    }
}

fn auto_cancel_by(arbitrator: Address) -> AutoCancel {
    AutoCancel {
        arbitrator,
        escrow_key: key(),
        escrow_token_account: true,
        seller_token_account: true,
    }
}

#[test]
fn create_sets_up_the_record() {
    let ctx = CreateEscrow { seller: seller(), buyer: buyer(), escrow_key: key() };
    let (escrow, effects) =
        create_escrow(&ctx, arbitrator(), 7, 11, 10_000_000, false, None, 1_000).unwrap();
    assert_eq!(
        escrow,
        Escrow {
            escrow_id: 7,
            trade_id: 11,
            seller: seller(),
            buyer: buyer(),
            arbitrator: arbitrator(),
            amount: 10_000_000,
            fee: 100_000,
            deposit_deadline: 1_900,
            fiat_deadline: 0,
            state: EscrowState::Created,
            sequential: false,
            sequential_escrow_address: None,
            fiat_paid: false,
            counter: 0,
            dispute_initiator: None,
            dispute_initiated_time: None,
            dispute_evidence_hash_buyer: None,
            dispute_evidence_hash_seller: None,
            dispute_resolution_hash: None,
            tracked_balance: 0,
        }
    );
    assert!(effects.instructions.is_empty());
    assert_eq!(
        effects.events,
        vec![EscrowEvent::Created(EscrowCreated {
            object_id: key(),
            escrow_id: 7,
            trade_id: 11,
            seller: seller(),
            buyer: buyer(),
            arbitrator: arbitrator(),
            amount: 10_000_000,
            fee: 100_000,
            deposit_deadline: 1_900,
            fiat_deadline: 0,
            sequential: false,
            sequential_escrow_address: None,
            timestamp: 1_000,
        })]
    );
}

#[test]
fn create_computes_the_fee_by_floor_division() {
    for (amount, fee) in [
        (1u64, 0u64),
        (99, 0),
        (100, 1),
        (199, 1),
        (12_345_678, 123_456),
        (99_999_999, 999_999),
        (100_000_000, 1_000_000),
    ] {
        assert_eq!(fresh(amount, 0).fee, fee);
    }
}

#[test]
fn create_rejects_a_zero_amount() {
    let ctx = CreateEscrow { seller: seller(), buyer: buyer(), escrow_key: key() };
    assert_eq!(
        create_escrow(&ctx, arbitrator(), 1, 1, 0, false, None, 0).unwrap_err(),
        EscrowError::InvalidAmount
    );
}

#[test]
fn create_rejects_more_than_the_maximum() {
    let ctx = CreateEscrow { seller: seller(), buyer: buyer(), escrow_key: key() };
    assert_eq!(
        create_escrow(&ctx, arbitrator(), 1, 1, 100_000_001, false, None, 0).unwrap_err(),
        EscrowError::ExceedsMaximum
    );
    assert!(create_escrow(&ctx, arbitrator(), 1, 1, 100_000_000, false, None, 0).is_ok());
}

#[test]
fn create_rejects_a_sequential_trade_without_address() {
    let ctx = CreateEscrow { seller: seller(), buyer: buyer(), escrow_key: key() };
    assert_eq!(
        create_escrow(&ctx, arbitrator(), 1, 1, 5, true, None, 0).unwrap_err(),
        EscrowError::MissingSequentialAddress
    );
    let (escrow, _) = create_escrow(&ctx, arbitrator(), 1, 1, 5, true, Some(addr(8)), 0).unwrap();
    assert!(escrow.sequential);
    assert_eq!(escrow.sequential_escrow_address, Some(addr(8)));
}

#[test]
fn create_rejects_a_clock_at_the_end_of_time() {
    let ctx = CreateEscrow { seller: seller(), buyer: buyer(), escrow_key: key() };
    assert_eq!(
        create_escrow(&ctx, arbitrator(), 1, 1, 5, false, None, i64::MAX - 899).unwrap_err(),
        EscrowError::FeeCalculationError
    );
    let (escrow, _) =
        create_escrow(&ctx, arbitrator(), 1, 1, 5, false, None, i64::MAX - 900).unwrap();
    assert_eq!(escrow.deposit_deadline, i64::MAX);
}

#[test]
fn fund_moves_principal_and_fee_into_the_vault() {
    let mut escrow = fresh(10_000_000, 1_000);
    let ctx =
        FundEscrow { seller: seller(), escrow_key: key(), seller_token_balance: 10_100_000 };
    let effects = fund_escrow(&mut escrow, &ctx, 1_900).unwrap();
    assert_eq!(escrow.state, EscrowState::Funded);
    assert_eq!(escrow.tracked_balance, 10_100_000);
    assert_eq!(escrow.fiat_deadline, 3_700);
    assert_eq!(escrow.counter, 1);
    assert_eq!(
        effects.instructions,
        vec![CustodyInstruction::Hold {
            from: CustodyAccount::SellerTokens,
            into: CustodyAccount::EscrowVault,
            amount: 10_100_000,
        }]
    );
    assert_eq!(effects.events.len(), 2);
    match &effects.events[0] {
        EscrowEvent::BalanceChanged(e) => {
            assert_eq!(e.object_id, key());
            assert_eq!(e.escrow_id, 7);
            assert_eq!(e.trade_id, 11);
            assert_eq!(e.new_balance, 10_100_000);
            assert_eq!(e.reason, "Escrow funded");
            assert_eq!(e.timestamp, 1_900);
        }
        other => panic!("unexpected event {:?}", other),
    }
    assert_eq!(
        effects.events[1],
        EscrowEvent::Deposited(FundsDeposited {
            object_id: key(),
            escrow_id: 7,
            trade_id: 11,
            amount: 10_000_000,
            fee: 100_000,
            counter: 1,
            timestamp: 1_900,
        })
    );
}

#[test]
fn fund_rejects_a_stranger_before_anything_else() {
    let mut escrow = funded(1_000, 0);
    let before = escrow;
    let ctx = FundEscrow { seller: buyer(), escrow_key: key(), seller_token_balance: 0 };
    assert_eq!(fund_escrow(&mut escrow, &ctx, 10_000).unwrap_err(), EscrowError::Unauthorized);
    assert_eq!(escrow, before);
}

#[test]
fn fund_rejects_after_the_deposit_deadline() {
    let mut escrow = fresh(1_000, 0);
    let before = escrow;
    let ctx = FundEscrow { seller: seller(), escrow_key: key(), seller_token_balance: 5_000 };
    assert_eq!(
        fund_escrow(&mut escrow, &ctx, 901).unwrap_err(),
        EscrowError::DepositDeadlineExpired
    );
    assert_eq!(escrow, before);
    assert!(fund_escrow(&mut escrow, &ctx, 900).is_ok());
}

#[test]
fn fund_rejects_a_balance_below_principal_and_fee() {
    let mut escrow = fresh(1_000, 0);
    let before = escrow;
    let ctx = FundEscrow { seller: seller(), escrow_key: key(), seller_token_balance: 1_009 };
    assert_eq!(fund_escrow(&mut escrow, &ctx, 0).unwrap_err(), EscrowError::InsufficientFunds);
    assert_eq!(escrow, before);
    let ctx = FundEscrow { seller: seller(), escrow_key: key(), seller_token_balance: 1_010 };
    assert!(fund_escrow(&mut escrow, &ctx, 0).is_ok());
}

#[test]
fn fund_rejects_a_second_funding() {
    let mut escrow = funded(1_000, 0);
    let ctx = FundEscrow { seller: seller(), escrow_key: key(), seller_token_balance: 5_000 };
    assert_eq!(fund_escrow(&mut escrow, &ctx, 0).unwrap_err(), EscrowError::InvalidState);
}

#[test]
fn fund_rejects_sums_and_counters_that_do_not_fit() {
    let mut escrow = fresh(1_000, 0);
    escrow.counter = u64::MAX;
    let ctx = FundEscrow { seller: seller(), escrow_key: key(), seller_token_balance: u64::MAX };
    assert_eq!(fund_escrow(&mut escrow, &ctx, 0).unwrap_err(), EscrowError::FeeCalculationError);
    let mut escrow = fresh(1_000, 0);
    escrow.fee = u64::MAX;
    assert_eq!(fund_escrow(&mut escrow, &ctx, 0).unwrap_err(), EscrowError::FeeCalculationError);
}

#[test]
fn mark_fiat_paid_sets_the_flag_only() {
    let mut escrow = funded(1_000, 0);
    let before = escrow;
    let effects =
        mark_fiat_paid(&mut escrow, &MarkFiatPaid { buyer: buyer(), escrow_key: key() }, 1_800)
            .unwrap();
    assert_eq!(escrow, Escrow { fiat_paid: true, ..before });
    assert!(effects.instructions.is_empty());
    assert_eq!(
        effects.events,
        vec![EscrowEvent::FiatPaid(FiatMarkedPaid {
            object_id: key(),
            escrow_id: 7,
            trade_id: 11,
            timestamp: 1_800,
        })]
    );
}

#[test]
fn mark_fiat_paid_rejections() {
    let mut escrow = funded(1_000, 0);
    let before = escrow;
    assert_eq!(
        mark_fiat_paid(&mut escrow, &MarkFiatPaid { buyer: seller(), escrow_key: key() }, 0)
            .unwrap_err(),
        EscrowError::Unauthorized
    );
    assert_eq!(
        mark_fiat_paid(&mut escrow, &MarkFiatPaid { buyer: buyer(), escrow_key: key() }, 1_801)
            .unwrap_err(),
        EscrowError::FiatDeadlineExpired
    );
    assert_eq!(escrow, before);
    let mut created = fresh(1_000, 0);
    assert_eq!(
        mark_fiat_paid(&mut created, &MarkFiatPaid { buyer: buyer(), escrow_key: key() }, 0)
            .unwrap_err(),
        EscrowError::InvalidState
    );
}

#[test]
fn scenario_release_pays_buyer_and_arbitrator() {
    let mut escrow = fresh(10_000_000, 0);
    let fund = FundEscrow { seller: seller(), escrow_key: key(), seller_token_balance: 10_100_000 };
    fund_escrow(&mut escrow, &fund, 10).unwrap();
    mark_fiat_paid(&mut escrow, &MarkFiatPaid { buyer: buyer(), escrow_key: key() }, 20).unwrap();
    let effects = release_escrow(&mut escrow, &release_by(seller()), 30).unwrap();
    assert_eq!(
        effects.instructions,
        vec![
            CustodyInstruction::Release {
                from: CustodyAccount::EscrowVault,
                to: CustodyAccount::ArbitratorTokens,
                amount: 100_000,
            },
            CustodyInstruction::Release {
                from: CustodyAccount::EscrowVault,
                to: CustodyAccount::BuyerTokens,
                amount: 10_000_000,
            },
            CustodyInstruction::Close {
                account: CustodyAccount::EscrowVault,
                rent_destination: seller(),
            },
        ]
    );
    assert_eq!(escrow.state, EscrowState::Released);
    assert_eq!(escrow.tracked_balance, 0);
    assert_eq!(escrow.counter, 2);
    assert_eq!(effects.events.len(), 2);
    match &effects.events[0] {
        EscrowEvent::BalanceChanged(e) => {
            assert_eq!(e.new_balance, 0);
            assert_eq!(e.reason, "Escrow released");
            assert_eq!(e.timestamp, 30);
        }
        other => panic!("unexpected event {:?}", other),
    }
    assert_eq!(
        effects.events[1],
        EscrowEvent::Released(EscrowReleased {
            object_id: key(),
            escrow_id: 7,
            trade_id: 11,
            buyer: buyer(),
            amount: 10_000_000,
            fee: 100_000,
            counter: 2,
            timestamp: 30,
            destination: buyer(),
        })
    );
}

#[test]
fn release_twice_fails_the_second_time() {
    let mut escrow = paid(10_000_000, 0);
    release_escrow(&mut escrow, &release_by(seller()), 30).unwrap();
    let before = escrow;
    assert_eq!(
        release_escrow(&mut escrow, &release_by(seller()), 31).unwrap_err(),
        EscrowError::InvalidState
    );
    assert_eq!(escrow, before);
}

#[test]
fn release_is_open_to_the_arbitrator_and_closed_to_the_buyer() {
    let mut escrow = paid(1_000, 0);
    assert_eq!(
        release_escrow(&mut escrow, &release_by(buyer()), 1).unwrap_err(),
        EscrowError::Unauthorized
    );
    let effects = release_escrow(&mut escrow, &release_by(arbitrator()), 1).unwrap();
    assert_eq!(
        effects.instructions[2],
        CustodyInstruction::Close {
            account: CustodyAccount::EscrowVault,
            rent_destination: arbitrator(),
        }
    );
}

#[test]
fn release_needs_the_fiat_payment() {
    let mut escrow = funded(1_000, 0);
    assert_eq!(
        release_escrow(&mut escrow, &release_by(seller()), 1).unwrap_err(),
        EscrowError::InvalidState
    );
}

#[test]
fn release_of_a_sequential_trade_goes_downstream() {
    let ctx = CreateEscrow { seller: seller(), buyer: buyer(), escrow_key: key() };
    let (mut escrow, _) =
        create_escrow(&ctx, arbitrator(), 7, 11, 2_000, true, Some(addr(8)), 0).unwrap();
    let fund = FundEscrow { seller: seller(), escrow_key: key(), seller_token_balance: 2_020 };
    fund_escrow(&mut escrow, &fund, 0).unwrap();
    mark_fiat_paid(&mut escrow, &MarkFiatPaid { buyer: buyer(), escrow_key: key() }, 0).unwrap();
    assert_eq!(
        release_escrow(&mut escrow, &release_by(seller()), 1).unwrap_err(),
        EscrowError::MissingSequentialAddress
    );
    let with_account = ReleaseEscrow {
        authority: seller(),
        escrow_key: key(),
        sequential_escrow_token_account: true,
    };
    let effects = release_escrow(&mut escrow, &with_account, 1).unwrap();
    assert_eq!(
        effects.instructions[1],
        CustodyInstruction::Release {
            from: CustodyAccount::EscrowVault,
            to: CustodyAccount::SequentialTokens,
            amount: 2_000,
        }
    );
    match &effects.events[1] {
        EscrowEvent::Released(e) => assert_eq!(e.destination, addr(8)),
        other => panic!("unexpected event {:?}", other),
    }
}

#[test]
fn update_sequential_address_replaces_the_address() {
    let ctx = CreateEscrow { seller: seller(), buyer: buyer(), escrow_key: key() };
    let (mut escrow, _) =
        create_escrow(&ctx, arbitrator(), 7, 11, 2_000, true, Some(addr(8)), 0).unwrap();
    let before = escrow;
    let update = UpdateSequentialAddress { buyer: buyer(), escrow_key: key() };
    let effects = update_sequential_address(&mut escrow, &update, addr(5), 44).unwrap();
    assert_eq!(escrow, Escrow { sequential_escrow_address: Some(addr(5)), ..before });
    assert!(effects.instructions.is_empty());
    assert_eq!(
        effects.events,
        vec![EscrowEvent::SequentialAddressUpdated(SequentialAddressUpdated {
            object_id: key(),
            escrow_id: 7,
            trade_id: 11,
            old_address: Some(addr(8)),
            new_address: addr(5),
            timestamp: 44,
        })]
    );
}

#[test]
fn update_sequential_address_rejections() {
    let update = UpdateSequentialAddress { buyer: buyer(), escrow_key: key() };
    let mut plain = fresh(1_000, 0);
    assert_eq!(
        update_sequential_address(&mut plain, &update, addr(5), 0).unwrap_err(),
        EscrowError::InvalidState
    );
    let ctx = CreateEscrow { seller: seller(), buyer: buyer(), escrow_key: key() };
    let (mut escrow, _) =
        create_escrow(&ctx, arbitrator(), 7, 11, 2_000, true, Some(addr(8)), 0).unwrap();
    let stranger = UpdateSequentialAddress { buyer: seller(), escrow_key: key() };
    assert_eq!(
        update_sequential_address(&mut escrow, &stranger, addr(5), 0).unwrap_err(),
        EscrowError::Unauthorized
    );
    cancel_escrow(&mut escrow, &cancel_by(seller()), 0).unwrap();
    let before = escrow;
    assert_eq!(
        update_sequential_address(&mut escrow, &update, addr(5), 0).unwrap_err(),
        EscrowError::TerminalState
    );
    assert_eq!(escrow, before);
}

#[test]
fn cancel_of_a_created_escrow_moves_nothing() {
    let mut escrow = fresh(1_000, 0);
    let effects = cancel_escrow(&mut escrow, &cancel_by(seller()), 5).unwrap();
    assert!(effects.instructions.is_empty());
    assert_eq!(escrow.state, EscrowState::Cancelled);
    assert_eq!(escrow.counter, 1);
    assert_eq!(escrow.tracked_balance, 0);
    assert_eq!(
        effects.events,
        vec![EscrowEvent::Cancelled(EscrowCancelled {
            object_id: key(),
            escrow_id: 7,
            trade_id: 11,
            seller: seller(),
            amount: 1_000,
            fee: 10,
            counter: 1,
            timestamp: 5,
        })]
    );
}

#[test]
fn cancel_of_a_funded_escrow_refunds_the_seller() {
    let mut escrow = funded(1_000, 0);
    let effects = cancel_escrow(&mut escrow, &cancel_by(arbitrator()), 5).unwrap();
    assert_eq!(
        effects.instructions,
        vec![
            CustodyInstruction::Release {
                from: CustodyAccount::EscrowVault,
                to: CustodyAccount::SellerTokens,
                amount: 1_010,
            },
            CustodyInstruction::Close {
                account: CustodyAccount::EscrowVault,
                rent_destination: seller(),
            },
        ]
    );
    assert_eq!(escrow.state, EscrowState::Cancelled);
    assert_eq!(escrow.tracked_balance, 0);
    assert_eq!(escrow.counter, 2);
    assert_eq!(effects.events.len(), 2);
    match &effects.events[0] {
        EscrowEvent::BalanceChanged(e) => {
            assert_eq!(e.new_balance, 0);
            assert_eq!(e.reason, "Escrow cancelled");
        }
        other => panic!("unexpected event {:?}", other),
    }
}

#[test]
fn cancel_rejections() {
    let mut escrow = funded(1_000, 0);
    let before = escrow;
    assert_eq!(
        cancel_escrow(&mut escrow, &cancel_by(buyer()), 0).unwrap_err(),
        EscrowError::Unauthorized
    );
    let without_accounts = CancelEscrow {
        authority: seller(),
        escrow_key: key(),
        escrow_token_account: true,
        seller_token_account: false,
    };
    assert_eq!(
        cancel_escrow(&mut escrow, &without_accounts, 0).unwrap_err(),
        EscrowError::InvalidState
    );
    assert_eq!(escrow, before);
    let mut acknowledged = paid(1_000, 0);
    assert_eq!(
        cancel_escrow(&mut acknowledged, &cancel_by(seller()), 0).unwrap_err(),
        EscrowError::InvalidState
    );
    let mut cancelled = fresh(1_000, 0);
    cancel_escrow(&mut cancelled, &cancel_by(seller()), 0).unwrap();
    assert_eq!(
        cancel_escrow(&mut cancelled, &cancel_by(seller()), 0).unwrap_err(),
        EscrowError::InvalidState
    );
}

#[test]
fn scenario_auto_cancel_refunds_after_the_fiat_deadline() {
    let mut escrow = fresh(10_000_000, 0);
    let fund = FundEscrow { seller: seller(), escrow_key: key(), seller_token_balance: 10_100_000 };
    fund_escrow(&mut escrow, &fund, 100).unwrap();
    assert_eq!(
        auto_cancel(&mut escrow, &auto_cancel_by(arbitrator()), 1_900).unwrap_err(),
        EscrowError::InvalidState
    );
    let effects = auto_cancel(&mut escrow, &auto_cancel_by(arbitrator()), 1_901).unwrap();
    assert_eq!(
        effects.instructions,
        vec![
            CustodyInstruction::Release {
                from: CustodyAccount::EscrowVault,
                to: CustodyAccount::SellerTokens,
                amount: 10_100_000,
            },
            CustodyInstruction::Close {
                account: CustodyAccount::EscrowVault,
                rent_destination: seller(),
            },
        ]
    );
    assert_eq!(escrow.state, EscrowState::Cancelled);
    assert_eq!(escrow.tracked_balance, 0);
    assert_eq!(escrow.counter, 2);
    match &effects.events[0] {
        EscrowEvent::BalanceChanged(e) => assert_eq!(e.reason, "Escrow auto-cancelled"),
        other => panic!("unexpected event {:?}", other),
    }
}

#[test]
fn auto_cancel_of_an_unfunded_escrow() {
    let mut escrow = fresh(1_000, 0);
    assert_eq!(
        auto_cancel(&mut escrow, &auto_cancel_by(arbitrator()), 900).unwrap_err(),
        EscrowError::InvalidState
    );
    let effects = auto_cancel(&mut escrow, &auto_cancel_by(arbitrator()), 901).unwrap();
    assert!(effects.instructions.is_empty());
    assert_eq!(effects.events.len(), 1);
    assert_eq!(escrow.state, EscrowState::Cancelled);
}

#[test]
fn auto_cancel_rejections() {
    let mut escrow = funded(1_000, 0);
    assert_eq!(
        auto_cancel(&mut escrow, &auto_cancel_by(seller()), 5_000).unwrap_err(),
        EscrowError::Unauthorized
    );
    let mut acknowledged = paid(1_000, 0);
    assert_eq!(
        auto_cancel(&mut acknowledged, &auto_cancel_by(arbitrator()), 5_000).unwrap_err(),
        EscrowError::InvalidState
    );
    let mut released = paid(1_000, 0);
    release_escrow(&mut released, &release_by(seller()), 1).unwrap();
    let before = released;
    assert_eq!(
        auto_cancel(&mut released, &auto_cancel_by(arbitrator()), 5_000).unwrap_err(),
        EscrowError::TerminalState
    );
    assert_eq!(released, before);
}

#[test]
fn counter_counts_changes_of_state_only() {
    let mut escrow = fresh(1_000, 0);
    assert_eq!(escrow.counter, 0);
    let fund = FundEscrow { seller: seller(), escrow_key: key(), seller_token_balance: 1 };
    assert!(fund_escrow(&mut escrow, &fund, 0).is_err());
    assert_eq!(escrow.counter, 0);
    let fund = FundEscrow { seller: seller(), escrow_key: key(), seller_token_balance: 1_010 };
    fund_escrow(&mut escrow, &fund, 0).unwrap();
    assert_eq!(escrow.counter, 1);
    mark_fiat_paid(&mut escrow, &MarkFiatPaid { buyer: buyer(), escrow_key: key() }, 0).unwrap();
    assert_eq!(escrow.counter, 1);
    release_escrow(&mut escrow, &release_by(seller()), 0).unwrap();
    assert_eq!(escrow.counter, 2);
    assert!(release_escrow(&mut escrow, &release_by(seller()), 0).is_err());
    assert_eq!(escrow.counter, 2);
}

#[test]
fn tracked_balance_follows_the_funds() {
    let mut escrow = fresh(12_345, 0);
    assert_eq!(escrow.tracked_balance, 0);
    let fund = FundEscrow { seller: seller(), escrow_key: key(), seller_token_balance: 50_000 };
    fund_escrow(&mut escrow, &fund, 0).unwrap();
    assert_eq!(escrow.tracked_balance, 12_345 + 123);
    cancel_escrow(&mut escrow, &cancel_by(seller()), 0).unwrap();
    assert_eq!(escrow.tracked_balance, 0);
}
