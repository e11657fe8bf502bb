use vstd::prelude::*;
use crate::accounts::{InitializeContract, LoanConfirm, LoanPaid};
use crate::admission::{check_admission, confirm_rejection};
use crate::clock::unix_timestamp;
use crate::errors::{InitializeContractError, LoanConfirmError, LoanPaidError};
use crate::identity::{Identity, Wallet};
use crate::policy::{CASHBACK_BPS, INTEREST_FACTOR_BPS, MAX_LATE_PAID_LOANS, MIN_PRINCIPAL};
use crate::settlement::{
    amount_due,
    cashback_discount,
    full_repayment,
    is_late,
    late,
    lemma_scaled_strict,
    repayment_in_full,
};
use crate::states::{Contract, LoanState, LoanerHistory};

verus! {

/// The contract that a creation at `now` writes: the terms as given, the
/// standard interest factor, and no flag set.
pub open spec fn created_contract(
    loaner: Identity,
    owner: Identity,
    amount: u64,
    due_at: i64,
    now: i64,
) -> Contract {
    Contract {
        loaner,
        owner,
        amount,
        interest_factor_bps: INTEREST_FACTOR_BPS,
        created_at: now,
        due_at,
        is_confirmed: false,
        is_late_paid: false,
        cashback_claimed: false,
    }
}

/// The loaner's history after a creation: a history that counts no loan is
/// taken as fresh and made the loaner's, any other is left as it is.
pub open spec fn history_at_creation(history: LoanerHistory, loaner: Identity) -> LoanerHistory {
    if history.total_loans == 0 {
        LoanerHistory { loaner, total_loans: 0, late_paid_loans: 0 }
    } else {
        history
    }
}

/// The accounts after a creation at `now`.
pub open spec fn created(
    ctx: InitializeContract,
    owner: Identity,
    amount: u64,
    due_at: i64,
    now: i64,
) -> InitializeContract {
    InitializeContract {
        loaner: ctx.loaner,
        contract: created_contract(ctx.loaner, owner, amount, due_at, now),
        loaner_history: history_at_creation(ctx.loaner_history, ctx.loaner),
    }
}

/// Creates the loaner's contract with `now` as its creation time. No funds move.
///
/// A principal below the minimum is refused and nothing is written. Otherwise
/// the contract slot is overwritten with the new contract, whatever it held.
pub fn initialize_contract_at(
    ctx: &mut InitializeContract,
    owner_pubkey: Identity,
    amount: u64,
    due_at: i64,
    now: i64,
) -> (r: Result<(), InitializeContractError>)
    ensures
        amount < MIN_PRINCIPAL ==> r == Err::<(), InitializeContractError>(
            InitializeContractError::NeedMoreAmount,
        ) && *final(ctx) == *old(ctx),
        amount >= MIN_PRINCIPAL ==> r == Ok::<(), InitializeContractError>(()) && *final(ctx)
            == created(*old(ctx), owner_pubkey, amount, due_at, now),
        r is Ok ==> final(ctx).contract.wf() && final(ctx).contract.state() == LoanState::Created
            && final(ctx).contract.amount >= MIN_PRINCIPAL,
        old(ctx).loaner_history.wf() ==> final(ctx).loaner_history.wf(),
{
    if amount < MIN_PRINCIPAL {
        return Err(InitializeContractError::NeedMoreAmount);
    }
    ctx.contract = Contract {
        loaner: ctx.loaner,
        owner: owner_pubkey,
        amount,
        interest_factor_bps: INTEREST_FACTOR_BPS,
        created_at: now,
        due_at,
        is_confirmed: false,
        is_late_paid: false,
        cashback_claimed: false,
    };
    if ctx.loaner_history.total_loans == 0 {
        ctx.loaner_history = LoanerHistory { loaner: ctx.loaner, total_loans: 0, late_paid_loans: 0 };
    }
    Ok(())
}

/// Creates the loaner's contract with the ledger's time as its creation time.
///
/// A principal below the minimum is refused before the clock is asked. With a
/// sufficient principal the creation fails only where the clock cannot be read.
pub fn initialize_contract(
    ctx: &mut InitializeContract,
    owner_pubkey: Identity,
    amount: u64,
    due_at: i64,
) -> (r: Result<(), InitializeContractError>)
    ensures
        amount < MIN_PRINCIPAL ==> r == Err::<(), InitializeContractError>(
            InitializeContractError::NeedMoreAmount,
        ),
        r is Err ==> *final(ctx) == *old(ctx),
        amount >= MIN_PRINCIPAL ==> r matches Err(InitializeContractError::ClockUnavailable(_))
            || (r is Ok && exists|now: i64|
            *final(ctx) == #[trigger] created(*old(ctx), owner_pubkey, amount, due_at, now)),
        r is Ok ==> final(ctx).contract.wf() && final(ctx).contract.state() == LoanState::Created
            && final(ctx).contract.amount >= MIN_PRINCIPAL,
        old(ctx).loaner_history.wf() ==> final(ctx).loaner_history.wf(),
{
    if amount < MIN_PRINCIPAL {
        return Err(InitializeContractError::NeedMoreAmount);
    }
    match unix_timestamp() {
        Err(e) => Err(InitializeContractError::ClockUnavailable(e)),
        Ok(now) => initialize_contract_at(ctx, owner_pubkey, amount, due_at, now),
    }
}

/// The accounts after a confirmation: the principal has moved from the owner
/// to the loaner, the contract is confirmed, and the history counts one more loan.
pub open spec fn confirmed(ctx: LoanConfirm) -> LoanConfirm {
    LoanConfirm {
        owner: Wallet {
            key: ctx.owner.key,
            lamports: (ctx.owner.lamports - ctx.contract.amount) as u64,
        },
        contract: Contract { is_confirmed: true, ..ctx.contract },
        loaner_history: LoanerHistory {
            total_loans: (ctx.loaner_history.total_loans + 1) as u64,
            ..ctx.loaner_history
        },
        loaner: Wallet {
            key: ctx.loaner.key,
            lamports: (ctx.loaner.lamports + ctx.contract.amount) as u64,
        },
    }
}

/// The owner confirms the contract and lends the principal. Returns the
/// amount that moved from the owner to the loaner.
///
/// A confirmation that is turned down changes nothing.
pub fn loan_confirm(ctx: &mut LoanConfirm) -> (r: Result<u64, LoanConfirmError>)
    requires
        old(ctx).wf(),
        confirm_rejection(*old(ctx)) is None ==> old(ctx).loaner_history.total_loans < u64::MAX,
    ensures
        final(ctx).wf(),
        r == match confirm_rejection(*old(ctx)) {
            Some(e) => Err::<u64, LoanConfirmError>(e),
            None => Ok::<u64, LoanConfirmError>(old(ctx).contract.amount),
        },
        *final(ctx) == if r is Ok {
            confirmed(*old(ctx))
        } else {
            *old(ctx)
        },
        r is Ok ==> old(ctx).owner.key == old(ctx).contract.owner,
        old(ctx).owner.key != old(ctx).contract.owner ==> r == Err::<u64, LoanConfirmError>(
            LoanConfirmError::Unauthorized,
        ),
        old(ctx).owner.key == old(ctx).contract.owner && old(ctx).loaner_history.late_paid_loans
            > MAX_LATE_PAID_LOANS ==> r == Err::<u64, LoanConfirmError>(LoanConfirmError::BadLoaner),
        old(ctx).owner.key == old(ctx).contract.owner && old(ctx).loaner_history.late_paid_loans
            <= MAX_LATE_PAID_LOANS && old(ctx).owner.lamports < old(ctx).contract.amount ==> r
            == Err::<u64, LoanConfirmError>(LoanConfirmError::NotEnoughFunds),
        r is Ok ==> {
            &&& final(ctx).contract.is_confirmed
            &&& final(ctx).contract.state() == LoanState::Confirmed
            &&& final(ctx).loaner_history.total_loans == old(ctx).loaner_history.total_loans + 1
            &&& final(ctx).loaner_history.late_paid_loans == old(ctx).loaner_history.late_paid_loans
            &&& final(ctx).loaner.lamports == old(ctx).loaner.lamports + old(ctx).contract.amount
            &&& final(ctx).owner.lamports == old(ctx).owner.lamports - old(ctx).contract.amount
        },
{
    match check_admission(ctx) {
        Some(e) => {
            return Err(e);
        },
        None => {},
    }
    let amount: u64 = ctx.contract.amount;
    ctx.owner.lamports = ctx.owner.lamports - amount;
    ctx.loaner.lamports = ctx.loaner.lamports + amount;
    ctx.contract.is_confirmed = true;
    ctx.loaner_history.total_loans = ctx.loaner_history.total_loans + 1;
    Ok(amount)
}

/// Why a payment is turned down before the time is looked at, if it is. The
/// tests come in this order: the signer, the loaner's funds, which must cover
/// the full repayment whether or not a cashback is due, the contract's state.
pub open spec fn pay_rejection(ctx: LoanPaid) -> Option<LoanPaidError> {
    if ctx.loaner.key != ctx.contract.loaner {
        Some(LoanPaidError::Unauthorized)
    } else if ctx.loaner.lamports < repayment_in_full(ctx.contract) {
        Some(LoanPaidError::NotEnoughFunds)
    } else if ctx.contract.state() == LoanState::Created {
        Some(LoanPaidError::NotConfirmed)
    } else if ctx.contract.state() != LoanState::Confirmed {
        Some(LoanPaidError::AlreadySettled)
    } else {
        None
    }
}

/// The accounts after a payment at `now`: the amount due has moved from the
/// loaner to the owner and the contract is settled. A late payment marks the
/// contract and the history; one on time claims the cashback.
pub open spec fn paid(ctx: LoanPaid, now: i64) -> LoanPaid {
    let is_late = late(now, ctx.contract.due_at);
    LoanPaid {
        loaner: Wallet {
            key: ctx.loaner.key,
            lamports: (ctx.loaner.lamports - amount_due(ctx.contract, now)) as u64,
        },
        contract: Contract { is_late_paid: is_late, cashback_claimed: !is_late, ..ctx.contract },
        loaner_history: LoanerHistory {
            late_paid_loans: if is_late {
                (ctx.loaner_history.late_paid_loans + 1) as u64
            } else {
                ctx.loaner_history.late_paid_loans
            },
            ..ctx.loaner_history
        },
        owner: Wallet {
            key: ctx.owner.key,
            lamports: (ctx.owner.lamports + amount_due(ctx.contract, now)) as u64,
        },
    }
}

/// Decides whether a payment may go ahead, and names the reason if not.
pub fn check_payment(ctx: &LoanPaid) -> (r: Option<LoanPaidError>)
    ensures
        r == pay_rejection(*ctx),
{
    if !(ctx.loaner.key == ctx.contract.loaner) {
        return Some(LoanPaidError::Unauthorized);
    }
    let owed: u128 = full_repayment(ctx.contract.amount, ctx.contract.interest_factor_bps);
    if (ctx.loaner.lamports as u128) < owed {
        return Some(LoanPaidError::NotEnoughFunds);
    }
    match ctx.contract.current_state() {
        LoanState::Created => Some(LoanPaidError::NotConfirmed),
        LoanState::Confirmed => None,
        _ => Some(LoanPaidError::AlreadySettled),
    }
}

/// The loaner repays the loan at `now`. Returns the amount that moved from the
/// loaner to the owner.
///
/// A payment that is turned down changes nothing.
pub fn loan_paid_at(ctx: &mut LoanPaid, now: i64) -> (r: Result<u64, LoanPaidError>)
    requires
        old(ctx).wf(),
    ensures
        final(ctx).wf(),
        r == match pay_rejection(*old(ctx)) {
            Some(e) => Err::<u64, LoanPaidError>(e),
            None => Ok::<u64, LoanPaidError>(amount_due(old(ctx).contract, now) as u64),
        },
        *final(ctx) == if r is Ok {
            paid(*old(ctx), now)
        } else {
            *old(ctx)
        },
        r is Ok ==> old(ctx).loaner.key == old(ctx).contract.loaner,
        old(ctx).loaner.key != old(ctx).contract.loaner ==> r == Err::<u64, LoanPaidError>(
            LoanPaidError::Unauthorized,
        ),
        old(ctx).loaner.key == old(ctx).contract.loaner && old(ctx).loaner.lamports
            < repayment_in_full(old(ctx).contract) ==> r == Err::<u64, LoanPaidError>(
            LoanPaidError::NotEnoughFunds,
        ),
        r matches Ok(amount) ==> {
            &&& amount == amount_due(old(ctx).contract, now)
            &&& amount <= repayment_in_full(old(ctx).contract)
            &&& final(ctx).loaner.lamports == old(ctx).loaner.lamports - amount
            &&& final(ctx).owner.lamports == old(ctx).owner.lamports + amount
            &&& final(ctx).loaner_history.total_loans == old(ctx).loaner_history.total_loans
            &&& final(ctx).contract.is_settled()
        },
        r is Ok && now > old(ctx).contract.due_at ==> {
            &&& r == Ok::<u64, LoanPaidError>(repayment_in_full(old(ctx).contract) as u64)
            &&& final(ctx).contract.is_late_paid
            &&& final(ctx).contract.state() == LoanState::LatePaid
            &&& final(ctx).loaner_history.late_paid_loans == old(ctx).loaner_history.late_paid_loans
                + 1
        },
        r is Ok && now <= old(ctx).contract.due_at ==> {
            &&& r->Ok_0 < repayment_in_full(old(ctx).contract)
            &&& !final(ctx).contract.is_late_paid
            &&& final(ctx).contract.state() == LoanState::Paid
            &&& final(ctx).loaner_history == old(ctx).loaner_history
        },
{
    match check_payment(ctx) {
        Some(e) => {
            return Err(e);
        },
        None => {},
    }
    let principal: u64 = ctx.contract.amount;
    let factor: u64 = ctx.contract.interest_factor_bps;
    let owed: u128 = if is_late(now, ctx.contract.due_at) {
        ctx.contract.is_late_paid = true;
        ctx.loaner_history.late_paid_loans = ctx.loaner_history.late_paid_loans + 1;
        full_repayment(principal, factor)
    } else {
        proof {
            lemma_scaled_strict(
                principal as nat,
                factor as nat,
                CASHBACK_BPS as nat,
            );
        }
        ctx.contract.cashback_claimed = true;
        cashback_discount(principal, factor, CASHBACK_BPS)
    };
    let amount: u64 = owed as u64;
    ctx.loaner.lamports = ctx.loaner.lamports - amount;
    ctx.owner.lamports = ctx.owner.lamports + amount;
    Ok(amount)
}

/// The loaner repays the loan at the ledger's time.
///
/// The payment is tested before the clock is asked. A payment that passes the
/// tests fails only where the clock cannot be read.
pub fn loan_paid(ctx: &mut LoanPaid) -> (r: Result<u64, LoanPaidError>)
    requires
        old(ctx).wf(),
    ensures
        final(ctx).wf(),
        r is Err ==> *final(ctx) == *old(ctx),
        pay_rejection(*old(ctx)) matches Some(e) ==> r == Err::<u64, LoanPaidError>(e),
        pay_rejection(*old(ctx)) is None ==> r matches Err(LoanPaidError::ClockUnavailable(_))
            || exists|now: i64|
            r == Ok::<u64, LoanPaidError>(amount_due(old(ctx).contract, now) as u64) && *final(ctx)
                == #[trigger] paid(*old(ctx), now),
{
    match check_payment(ctx) {
        Some(e) => {
            return Err(e);
        },
        None => {},
    }
    match unix_timestamp() {
        Err(e) => Err(LoanPaidError::ClockUnavailable(e)),
        Ok(now) => loan_paid_at(ctx, now),
    }
}

} // verus!
