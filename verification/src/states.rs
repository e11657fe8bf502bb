use vstd::prelude::*;
use crate::identity::Identity;
use crate::policy::{CASHBACK_BPS, MIN_PRINCIPAL};

verus! {

/// Where a contract stands in its life. `Paid` and `LatePaid` are terminal.
#[derive(Clone, Copy, Debug, PartialEq, Eq, Structural)]
pub enum LoanState {
    Created,
    Confirmed,
    Paid,
    LatePaid,
}

/// The terms and the status of one loan.
///
/// `interest_factor_bps` is the multiplier of the full repayment in basis
/// points. `cashback_claimed` is set by the payment that earned the cashback,
/// that is by a payment made on time; `is_late_paid` by one made after `due_at`.
#[derive(Clone, Copy, Debug, PartialEq, Eq)]
pub struct Contract {
    pub loaner: Identity,
    pub owner: Identity,
    pub amount: u64,
    pub interest_factor_bps: u64,
    pub created_at: i64,
    pub due_at: i64,
    pub is_confirmed: bool,
    pub is_late_paid: bool,
    pub cashback_claimed: bool,
}

impl Default for Contract {
    /// An empty slot: no party, no amount, no flag. It is not a valid contract.
    fn default() -> (r: Self)
        ensures
            r.loaner.is_zero(),
            r.owner.is_zero(),
            r.amount == 0,
            r.interest_factor_bps == 0,
            r.created_at == 0,
            r.due_at == 0,
            !r.is_confirmed,
            !r.is_late_paid,
            !r.cashback_claimed,
            r.state() == LoanState::Created,
            !r.wf(),
    {
        Contract {
            loaner: Identity::default(),
            owner: Identity::default(),
            amount: 0,
            interest_factor_bps: 0,
            created_at: 0,
            due_at: 0,
            is_confirmed: false,
            is_late_paid: false,
            cashback_claimed: false,
        }
    }
}

impl Contract {
    /// The principal reaches the minimum, the cashback can be taken off the
    /// interest factor, and the flags are those of one of the four states.
    pub open spec fn wf(&self) -> bool {
        &&& self.amount >= MIN_PRINCIPAL
        &&& self.interest_factor_bps >= CASHBACK_BPS
        &&& (self.is_late_paid || self.cashback_claimed) ==> self.is_confirmed
        &&& !(self.is_late_paid && self.cashback_claimed)
    }

    /// The state that the flags encode.
    pub open spec fn state(&self) -> LoanState {
        if self.is_late_paid {
            LoanState::LatePaid
        } else if self.cashback_claimed {
            LoanState::Paid
        } else if self.is_confirmed {
            LoanState::Confirmed
        } else {
            LoanState::Created
        }
    }

    /// The loan was paid, on time or late.
    pub open spec fn is_settled(&self) -> bool {
        self.is_late_paid || self.cashback_claimed
    }

    pub fn is_wf(&self) -> (r: bool)
        ensures
            r == self.wf(),
    {
        self.amount >= MIN_PRINCIPAL && self.interest_factor_bps >= CASHBACK_BPS && (
        self.is_confirmed || !(self.is_late_paid || self.cashback_claimed)) && !(self.is_late_paid
            && self.cashback_claimed)
    }

    pub fn current_state(&self) -> (r: LoanState)
        ensures
            r == self.state(),
    {
        if self.is_late_paid {
            LoanState::LatePaid
        } else if self.cashback_claimed {
            LoanState::Paid
        } else if self.is_confirmed {
            LoanState::Confirmed
        } else {
            LoanState::Created
        }
    }
}

/// What is known of a loaner across all loans: how many were confirmed and
/// how many of them were paid late.
#[derive(Clone, Copy, Debug, PartialEq, Eq)]
pub struct LoanerHistory {
    pub loaner: Identity,
    pub total_loans: u64,
    pub late_paid_loans: u64,
}

impl Default for LoanerHistory {
    /// A history that counts no loan.
    fn default() -> (r: Self)
        ensures
            r.loaner.is_zero(),
            r.total_loans == 0,
            r.late_paid_loans == 0,
            r.wf(),
    {
        LoanerHistory { loaner: Identity::default(), total_loans: 0, late_paid_loans: 0 }
    }
}

impl LoanerHistory {
    /// No more loans were paid late than were confirmed.
    pub open spec fn wf(&self) -> bool {
        self.late_paid_loans <= self.total_loans
    }

    pub fn is_wf(&self) -> (r: bool)
        ensures
            r == self.wf(),
    {
        self.late_paid_loans <= self.total_loans
    }
}

/// The history has room for the contract: a loan that is confirmed and not yet
/// paid is counted in `total_loans` and not in `late_paid_loans`.
pub open spec fn history_covers(contract: Contract, history: LoanerHistory) -> bool {
    if contract.state() == LoanState::Confirmed {
        history.late_paid_loans < history.total_loans
    } else {
        history.late_paid_loans <= history.total_loans
    }
}

} // verus!
