use vstd::prelude::*;
use crate::accounts::LoanConfirm;
use crate::errors::LoanConfirmError;
use crate::policy::MAX_LATE_PAID_LOANS;
use crate::states::{LoanState, LoanerHistory};

verus! {

/// A loaner is admitted with at most `MAX_LATE_PAID_LOANS` loans paid late.
pub open spec fn reputation_acceptable(history: LoanerHistory) -> bool {
    history.late_paid_loans <= MAX_LATE_PAID_LOANS
}

/// Why a confirmation is turned down, if it is. The tests come in this order:
/// the signer, the loaner's reputation, the owner's funds, the contract's state.
pub open spec fn confirm_rejection(ctx: LoanConfirm) -> Option<LoanConfirmError> {
    if ctx.owner.key != ctx.contract.owner {
        Some(LoanConfirmError::Unauthorized)
    } else if !reputation_acceptable(ctx.loaner_history) {
        Some(LoanConfirmError::BadLoaner)
    } else if ctx.owner.lamports < ctx.contract.amount {
        Some(LoanConfirmError::NotEnoughFunds)
    } else if ctx.contract.state() != LoanState::Created {
        Some(LoanConfirmError::AlreadySettled)
    } else {
        None
    }
}

/// Whether the loaner's reputation admits a new loan.
pub fn has_acceptable_reputation(history: &LoanerHistory) -> (r: bool)
    ensures
        r == reputation_acceptable(*history),
{
    history.late_paid_loans <= MAX_LATE_PAID_LOANS
}

/// Decides whether a confirmation may go ahead, and names the reason if not.
pub fn check_admission(ctx: &LoanConfirm) -> (r: Option<LoanConfirmError>)
    ensures
        r == confirm_rejection(*ctx),
{
    if !(ctx.owner.key == ctx.contract.owner) {
        Some(LoanConfirmError::Unauthorized)
    } else if !has_acceptable_reputation(&ctx.loaner_history) {
        Some(LoanConfirmError::BadLoaner)
    } else if ctx.owner.lamports < ctx.contract.amount {
        Some(LoanConfirmError::NotEnoughFunds)
    } else if ctx.contract.current_state() != LoanState::Created {
        Some(LoanConfirmError::AlreadySettled)
    } else {
        None
    }
}

} // verus!
