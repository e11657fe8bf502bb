use vstd::prelude::*;
use crate::identity::{Identity, Wallet};
use crate::states::{history_covers, Contract, LoanState, LoanerHistory};

verus! {

/// What the creation of a contract works on: the loaner who signs, the slot
/// that receives the new contract, and the loaner's history.
#[derive(Clone, Copy, Debug, PartialEq, Eq)]
pub struct InitializeContract {
    pub loaner: Identity,
    pub contract: Contract,
    pub loaner_history: LoanerHistory,
}

/// What a confirmation works on: the owner who signs and pays out, the
/// contract, the loaner's history, and the wallet that receives the principal.
#[derive(Clone, Copy, Debug, PartialEq, Eq)]
pub struct LoanConfirm {
    pub owner: Wallet,
    pub contract: Contract,
    pub loaner_history: LoanerHistory,
    pub loaner: Wallet,
}

/// What a payment works on: the loaner who signs and pays, the contract, the
/// loaner's history, and the wallet that receives the repayment.
#[derive(Clone, Copy, Debug, PartialEq, Eq)]
pub struct LoanPaid {
    pub loaner: Wallet,
    pub contract: Contract,
    pub loaner_history: LoanerHistory,
    pub owner: Wallet,
}

/// The two balances belong to one ledger, whose whole supply fits in 64 bits.
pub open spec fn supply_fits(a: Wallet, b: Wallet) -> bool {
    a.lamports + b.lamports <= u64::MAX
}

impl LoanConfirm {
    /// The contract is valid, the history has room for it, the wallet that
    /// receives the principal is the contract's loaner's, and the two balances
    /// fit in the ledger's supply.
    pub open spec fn wf(&self) -> bool {
        &&& self.contract.wf()
        &&& history_covers(self.contract, self.loaner_history)
        &&& self.loaner.key == self.contract.loaner
        &&& supply_fits(self.owner, self.loaner)
    }

    pub fn is_wf(&self) -> (r: bool)
        ensures
            r == self.wf(),
    {
        self.contract.is_wf() && covers(&self.contract, &self.loaner_history) && self.loaner.key
            == self.contract.loaner && self.owner.lamports <= u64::MAX - self.loaner.lamports
    }
}

impl LoanPaid {
    /// The contract is valid, the history has room for it, the wallet that
    /// receives the repayment is the contract's owner's, and the two balances
    /// fit in the ledger's supply.
    pub open spec fn wf(&self) -> bool {
        &&& self.contract.wf()
        &&& history_covers(self.contract, self.loaner_history)
        &&& self.owner.key == self.contract.owner
        &&& supply_fits(self.loaner, self.owner)
    }

    pub fn is_wf(&self) -> (r: bool)
        ensures
            r == self.wf(),
    {
        self.contract.is_wf() && covers(&self.contract, &self.loaner_history) && self.owner.key
            == self.contract.owner && self.loaner.lamports <= u64::MAX - self.owner.lamports
    }
}

/// Whether the history has room for the contract.
pub fn covers(contract: &Contract, history: &LoanerHistory) -> (r: bool)
    ensures
        r == history_covers(*contract, *history),
{
    match contract.current_state() {
        LoanState::Confirmed => history.late_paid_loans < history.total_loans,
        _ => history.late_paid_loans <= history.total_loans,
    }
}

} // verus!
