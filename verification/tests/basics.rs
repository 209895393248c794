use p2p_escrow::calc::{
    bps, sum, BASIS_POINT_SCALE, DISPUTE_BOND_BASIS_POINTS, FEE_BASIS_POINTS, MAX_AMOUNT,
};
use p2p_escrow::custody::CustodyAccount;
use p2p_escrow::deadline::{
    deadline_after, expired, ARBITRATION_WINDOW_SECONDS, DEPOSIT_WINDOW_SECONDS,
    DISPUTE_RESPONSE_WINDOW_SECONDS, FIAT_WINDOW_SECONDS,
};
use p2p_escrow::events::{balance_changed, EscrowBalanceChanged, EscrowEvent};
use p2p_escrow::model::{EscrowError, EscrowState};
use p2p_escrow::party::{platform_arbitrator, Address, Party};

#[test]
fn constants_have_their_values() {
    assert_eq!(MAX_AMOUNT, 100_000_000);
    assert_eq!(FEE_BASIS_POINTS, 100);
    assert_eq!(DISPUTE_BOND_BASIS_POINTS, 500);
    assert_eq!(BASIS_POINT_SCALE, 10_000);
    assert_eq!(DEPOSIT_WINDOW_SECONDS, 15 * 60);
    assert_eq!(FIAT_WINDOW_SECONDS, 30 * 60);
    assert_eq!(DISPUTE_RESPONSE_WINDOW_SECONDS, 72 * 3_600);
    assert_eq!(ARBITRATION_WINDOW_SECONDS, 168 * 3_600);
}

#[test]
fn bps_rounds_down() {
    assert_eq!(bps(10_000_000, 100), Ok(100_000));
    assert_eq!(bps(20_000_000, 500), Ok(1_000_000));
    assert_eq!(bps(199, 100), Ok(1));
    assert_eq!(bps(99, 100), Ok(0));
    assert_eq!(bps(0, 500), Ok(0));
    assert_eq!(bps(7, 0), Ok(0));
    assert_eq!(bps(12_345, 10_000), Ok(12_345));
}

#[test]
fn bps_reports_overflow() {
    assert_eq!(bps(u64::MAX, 2), Err(EscrowError::FeeCalculationError));
    assert_eq!(bps(u64::MAX / 100 + 1, 100), Err(EscrowError::FeeCalculationError));
    assert_eq!(bps(u64::MAX / 100, 100), Ok(u64::MAX / 100 * 100 / 10_000));
    assert_eq!(bps(u64::MAX, 1), Ok(u64::MAX / 10_000));
}

#[test]
fn sum_reports_overflow() {
    assert_eq!(sum(10_000_000, 100_000), Ok(10_100_000));
    assert_eq!(sum(u64::MAX, 0), Ok(u64::MAX));
    assert_eq!(sum(u64::MAX, 1), Err(EscrowError::FeeCalculationError));
}

#[test]
fn deadlines_are_start_plus_window() {
    assert_eq!(deadline_after(1_000, DEPOSIT_WINDOW_SECONDS), Some(1_900));
    assert_eq!(deadline_after(-5, 5), Some(0));
    assert_eq!(deadline_after(i64::MAX, 1), None);
    assert_eq!(deadline_after(i64::MIN, -1), None);
    assert_eq!(deadline_after(i64::MAX - 1, 1), Some(i64::MAX));
}

#[test]
fn a_deadline_expires_strictly_after_it() {
    assert!(!expired(99, 100));
    assert!(!expired(100, 100));
    assert!(expired(101, 100));
}

#[test]
fn addresses_compare_by_their_bytes() {
    let a = Address::new([7; 32]);
    let mut other = [7u8; 32];
    assert!(a.same(&Address::new(other)));
    other[31] = 8;
    assert!(!a.same(&Address::new(other)));
    other[31] = 7;
    other[0] = 0;
    assert!(!a.same(&Address::new(other)));
    assert_eq!(a.bytes, [7; 32]);
}

#[test]
fn the_platform_arbitrator_is_fixed() {
    assert_eq!(
        platform_arbitrator().bytes,
        [
            0xe2, 0xef, 0x04, 0xd8, 0x35, 0x5b, 0x03, 0xd1, 0xdb, 0x14, 0x87, 0x9e, 0x38, 0x84,
            0x4d, 0x64, 0x74, 0xc7, 0x8b, 0xe4, 0xbe, 0x4e, 0x31, 0xb4, 0xae, 0xfe, 0x13, 0xc8,
            0x2f, 0xdb, 0xdb, 0x2b
        ]
    );
}

#[test]
fn parties_and_their_accounts() {
    assert_eq!(Party::Buyer.other(), Party::Seller);
    assert_eq!(Party::Seller.other(), Party::Buyer);
    assert_eq!(CustodyAccount::tokens(Party::Buyer), CustodyAccount::BuyerTokens);
    assert_eq!(CustodyAccount::tokens(Party::Seller), CustodyAccount::SellerTokens);
    assert_eq!(CustodyAccount::bond(Party::Buyer), CustodyAccount::BuyerBond);
    assert_eq!(CustodyAccount::bond(Party::Seller), CustodyAccount::SellerBond);
}

#[test]
fn terminal_states() {
    assert!(!EscrowState::Created.is_terminal());
    assert!(!EscrowState::Funded.is_terminal());
    assert!(!EscrowState::Disputed.is_terminal());
    assert!(EscrowState::Released.is_terminal());
    assert!(EscrowState::Cancelled.is_terminal());
    assert!(EscrowState::Resolved.is_terminal());
}

#[test]
fn errors_have_their_messages() {
    let expected = [
        (EscrowError::InvalidAmount, "Invalid amount: Zero or negative"),
        (EscrowError::ExceedsMaximum, "Amount exceeds maximum (100 USDC)"),
        (EscrowError::Unauthorized, "Unauthorized caller"),
        (EscrowError::DepositDeadlineExpired, "Deposit deadline expired"),
        (EscrowError::FiatDeadlineExpired, "Fiat payment deadline expired"),
        (EscrowError::InvalidState, "Invalid state transition"),
        (EscrowError::MissingSequentialAddress, "Missing sequential escrow address"),
        (EscrowError::TerminalState, "Already in terminal state"),
        (EscrowError::FeeCalculationError, "Fee calculation error"),
        (EscrowError::InsufficientFunds, "Insufficient funds to cover principal and fee"),
        (EscrowError::IncorrectBondAmount, "Dispute bond amount incorrect"),
        (EscrowError::ResponseDeadlineExpired, "Dispute response deadline expired"),
        (EscrowError::InvalidEvidenceHash, "Evidence hash missing or invalid"),
        (EscrowError::DuplicateEvidence, "Duplicate evidence submission"),
        (EscrowError::ArbitrationDeadlineExpired, "Arbitration deadline expired"),
        (EscrowError::MissingDisputeBond, "Missing dispute bond"),
        (EscrowError::InvalidResolutionExplanation, "Invalid resolution explanation"),
        (EscrowError::BumpNotFound, "Required bump seed not found"),
    ];
    for (error, text) in expected {
        assert_eq!(error.message(), text);
    }
}

#[test]
fn balance_changed_carries_its_fields() {
    let key = Address::new([9; 32]);
    assert_eq!(
        balance_changed(key, 1, 2, 3, "Escrow funded", 4),
        EscrowEvent::BalanceChanged(EscrowBalanceChanged {
            object_id: key,
            escrow_id: 1,
            trade_id: 2,
            new_balance: 3,
            reason: "Escrow funded".to_string(),
            timestamp: 4,
        })
    );
}
