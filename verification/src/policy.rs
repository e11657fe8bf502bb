use vstd::prelude::*;

verus! {

/// Smallest principal, in base units, that a contract may be created for.
pub const MIN_PRINCIPAL: u64 = 100_000_000;

/// One whole, in basis points: a factor of 10,000 multiplies by one.
pub const BPS_SCALE: u64 = 10_000;

/// The interest factor every new contract carries: 1.1, in basis points.
pub const INTEREST_FACTOR_BPS: u64 = 11_000;

/// What an on-time payment takes off the interest factor: 0.02, in basis points.
pub const CASHBACK_BPS: u64 = 200;

/// The largest number of late-paid loans with which a loaner is still admitted.
pub const MAX_LATE_PAID_LOANS: u64 = 3;

} // verus!
