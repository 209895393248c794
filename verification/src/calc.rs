//! Basis-point arithmetic for the platform fee and the dispute bond.

use vstd::prelude::*;
use crate::model::EscrowError;

verus! {

/// Largest principal an escrow may hold, in the smallest unit of the asset.
pub const MAX_AMOUNT: u64 = 100_000_000;

/// Platform fee, in basis points of the principal.
pub const FEE_BASIS_POINTS: u64 = 100;

/// Dispute bond, in basis points of the principal.
pub const DISPUTE_BOND_BASIS_POINTS: u64 = 500;

/// One whole, in basis points.
pub const BASIS_POINT_SCALE: u64 = 10_000;

/// The share of `value` that `basis_points` stand for, rounded down.
pub open spec fn bps_of(value: int, basis_points: int) -> int {
    value * basis_points / 10_000
}

/// The platform fee on a principal of `amount`: one percent, rounded down.
pub open spec fn fee_of(amount: int) -> int {
    bps_of(amount, 100)
}

/// The dispute bond on a principal of `amount`: five percent, rounded down.
pub open spec fn bond_of(amount: int) -> int {
    bps_of(amount, 500)
}

/// What the seller deposits for a principal of `amount`: principal and fee.
pub open spec fn total_of(amount: int) -> int {
    amount + fee_of(amount)
}

/// Computes `value * basis_points / 10000` with floor division. The call
/// fails with `FeeCalculationError` exactly when the product does not fit
/// in 64 bits; nothing is ever truncated.
pub fn bps(value: u64, basis_points: u64) -> (share: Result<u64, EscrowError>)
    ensures
        match share {
            Ok(share) => value * basis_points <= u64::MAX && share == bps_of(
                value as int,
                basis_points as int,
            ),
            Err(error) => value * basis_points > u64::MAX && error
                == EscrowError::FeeCalculationError,
        },
{
    match value.checked_mul(basis_points) {
        Some(product) => Ok(product / BASIS_POINT_SCALE),
        None => Err(EscrowError::FeeCalculationError),
    }
}

/// The sum of two amounts. The call fails with `FeeCalculationError`
/// exactly when the sum does not fit in 64 bits.
pub fn sum(a: u64, b: u64) -> (total: Result<u64, EscrowError>)
    ensures
        match total {
            Ok(total) => total == a + b,
            Err(error) => a + b > u64::MAX && error == EscrowError::FeeCalculationError,
        },
{
    match a.checked_add(b) {
        Some(total) => Ok(total),
        None => Err(EscrowError::FeeCalculationError),
    }
}

} // verus!
