use vstd::prelude::*;
use crate::clock::ClockError;

verus! {

/// Why a contract was not created.
#[derive(Debug, PartialEq, Eq)]
pub enum InitializeContractError {
    /// The principal asked for is below the minimum.
    NeedMoreAmount,
    /// The ledger clock could not be read, so the contract has no creation time.
    ClockUnavailable(ClockError),
}

/// Why a contract was not confirmed.
#[derive(Clone, Copy, Debug, PartialEq, Eq, Structural)]
pub enum LoanConfirmError {
    /// The signer is not the contract's owner.
    Unauthorized,
    /// The loaner has paid too many loans late.
    BadLoaner,
    /// The contract was confirmed before.
    AlreadySettled,
    /// The owner holds less than the principal.
    NotEnoughFunds,
}

/// Why a loan was not paid.
#[derive(Debug, PartialEq, Eq)]
pub enum LoanPaidError {
    /// The signer is not the contract's loaner.
    Unauthorized,
    /// The contract was never confirmed, so nothing was lent.
    NotConfirmed,
    /// The loan was paid before.
    AlreadySettled,
    /// The loaner holds less than the full repayment.
    NotEnoughFunds,
    /// The ledger clock could not be read, so lateness cannot be told.
    ClockUnavailable(ClockError),
}

} // verus!
