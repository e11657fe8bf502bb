use vstd::prelude::*;
use crate::accounts::{InitializeContract, LoanConfirm, LoanPaid};
use crate::admission::confirm_rejection;
use crate::errors::{LoanConfirmError, LoanPaidError};
use crate::identity::Identity;
use crate::lifecycle::{confirmed, created, paid, pay_rejection};
use crate::policy::{CASHBACK_BPS, MIN_PRINCIPAL};
use crate::settlement::{
    amount_due,
    lemma_scaled_monotonic,
    lemma_scaled_strict,
    repayment_in_full,
    scaled,
};
use crate::states::{Contract, LoanState};

verus! {

/// Once a payment has succeeded, another payment on the same contract by the
/// same loaner is turned down, whenever it is made: for want of funds where
/// the loaner cannot cover the full repayment again, and as already settled
/// where the loaner can.
pub proof fn law_no_second_payment(ctx: LoanPaid, now: i64)
    requires
        ctx.wf(),
        pay_rejection(ctx) is None,
    ensures
        pay_rejection(paid(ctx, now)) is Some,
        pay_rejection(paid(ctx, now)) == if paid(ctx, now).loaner.lamports < repayment_in_full(
            ctx.contract,
        ) {
            Some(LoanPaidError::NotEnoughFunds)
        } else {
            Some(LoanPaidError::AlreadySettled)
        },
{
}

/// Once a confirmation has succeeded, another confirmation of the same
/// contract by the same owner is turned down, so the principal is lent once:
/// for want of funds where the owner cannot fund the loan again, and as
/// already settled where the owner can.
pub proof fn law_no_second_confirmation(ctx: LoanConfirm)
    requires
        ctx.wf(),
        ctx.loaner_history.total_loans < u64::MAX,
        confirm_rejection(ctx) is None,
    ensures
        confirm_rejection(confirmed(ctx)) is Some,
        confirm_rejection(confirmed(ctx)) == if confirmed(ctx).owner.lamports
            < ctx.contract.amount {
            Some(LoanConfirmError::NotEnoughFunds)
        } else {
            Some(LoanConfirmError::AlreadySettled)
        },
{
}

/// The transitions come in order: only a contract in state `Created` is
/// confirmed, and only one in state `Confirmed` is paid.
pub proof fn law_transitions_in_order(confirm: LoanConfirm, pay: LoanPaid)
    ensures
        confirm_rejection(confirm) is None ==> confirm.contract.state() == LoanState::Created,
        pay_rejection(pay) is None ==> pay.contract.state() == LoanState::Confirmed,
{
}

/// The parties, the principal, the interest factor and both dates of a contract
/// are those written at its creation.
pub open spec fn same_terms(before: Contract, after: Contract) -> bool {
    &&& after.loaner == before.loaner
    &&& after.owner == before.owner
    &&& after.amount == before.amount
    &&& after.interest_factor_bps == before.interest_factor_bps
    &&& after.created_at == before.created_at
    &&& after.due_at == before.due_at
}

/// No flag that was set is cleared.
pub open spec fn flags_kept(before: Contract, after: Contract) -> bool {
    &&& before.is_confirmed ==> after.is_confirmed
    &&& before.is_late_paid ==> after.is_late_paid
    &&& before.cashback_claimed ==> after.cashback_claimed
}

/// Confirming and paying leave the terms of the contract alone, the due date
/// among them, and clear no flag.
pub proof fn law_terms_fixed_flags_monotonic(confirm: LoanConfirm, pay: LoanPaid, now: i64)
    ensures
        same_terms(confirm.contract, confirmed(confirm).contract),
        flags_kept(confirm.contract, confirmed(confirm).contract),
        same_terms(pay.contract, paid(pay, now).contract),
        pay_rejection(pay) is None ==> flags_kept(pay.contract, paid(pay, now).contract),
{
}

/// The counters of a history only grow: a confirmation adds one loan, a late
/// payment adds one late loan, and nothing takes one away.
pub proof fn law_history_only_grows(confirm: LoanConfirm, pay: LoanPaid, now: i64)
    requires
        confirm.wf(),
        confirm.loaner_history.total_loans < u64::MAX,
        pay.wf(),
        pay_rejection(pay) is None,
    ensures
        confirmed(confirm).loaner_history.total_loans >= confirm.loaner_history.total_loans,
        confirmed(confirm).loaner_history.late_paid_loans
            >= confirm.loaner_history.late_paid_loans,
        paid(pay, now).loaner_history.total_loans >= pay.loaner_history.total_loans,
        paid(pay, now).loaner_history.late_paid_loans >= pay.loaner_history.late_paid_loans,
        paid(pay, now).loaner_history.wf(),
{
}

/// A payment moves funds and makes none: what the loaner loses the owner gains.
pub proof fn law_payment_conserves_funds(ctx: LoanPaid, now: i64)
    requires
        ctx.wf(),
        pay_rejection(ctx) is None,
    ensures
        paid(ctx, now).loaner.lamports + paid(ctx, now).owner.lamports == ctx.loaner.lamports
            + ctx.owner.lamports,
{
    lemma_scaled_monotonic(
        ctx.contract.amount as nat,
        (ctx.contract.interest_factor_bps - CASHBACK_BPS) as nat,
        ctx.contract.interest_factor_bps as nat,
    );
}

/// A confirmation moves funds and makes none.
pub proof fn law_confirmation_conserves_funds(ctx: LoanConfirm)
    requires
        ctx.wf(),
        confirm_rejection(ctx) is None,
    ensures
        confirmed(ctx).owner.lamports + confirmed(ctx).loaner.lamports == ctx.owner.lamports
            + ctx.loaner.lamports,
{
}

/// A payment at the due date is on time: it is due the discounted amount, as
/// is every earlier payment, and every later one is due the full repayment.
pub proof fn law_due_date_is_on_time(contract: Contract, now: i64)
    requires
        contract.wf(),
    ensures
        amount_due(contract, contract.due_at) == scaled(
            contract.amount as nat,
            (contract.interest_factor_bps - CASHBACK_BPS) as nat,
        ),
        now <= contract.due_at ==> amount_due(contract, now) == amount_due(
            contract,
            contract.due_at,
        ),
        now > contract.due_at ==> amount_due(contract, now) == repayment_in_full(contract),
        amount_due(contract, contract.due_at) < repayment_in_full(contract),
{
    lemma_scaled_strict(
        contract.amount as nat,
        contract.interest_factor_bps as nat,
        CASHBACK_BPS as nat,
    );
}

/// A creation that succeeds writes a valid contract in state `Created` whose
/// principal reaches the minimum, and a history that counts no loan belongs to
/// the contract's loaner afterwards.
pub proof fn law_creation_is_valid(
    ctx: InitializeContract,
    owner: Identity,
    amount: u64,
    due_at: i64,
    now: i64,
)
    requires
        amount >= MIN_PRINCIPAL,
    ensures
        created(ctx, owner, amount, due_at, now).contract.wf(),
        created(ctx, owner, amount, due_at, now).contract.state() == LoanState::Created,
        created(ctx, owner, amount, due_at, now).contract.amount >= MIN_PRINCIPAL,
        created(ctx, owner, amount, due_at, now).loaner_history.total_loans == 0 ==> created(
            ctx,
            owner,
            amount,
            due_at,
            now,
        ).loaner_history.loaner == created(ctx, owner, amount, due_at, now).contract.loaner,
{
}

} // verus!
