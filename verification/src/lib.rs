//! A lending agreement between two parties on a ledger: the contract's life
//! from creation over confirmation to payment, the admission of loaners by
//! their reputation, and the settlement of what is owed.

pub mod accounts;
pub mod admission;
pub mod clock;
pub mod errors;
pub mod identity;
pub mod laws;
pub mod lifecycle;
pub mod policy;
pub mod settlement;
pub mod states;

pub use accounts::{InitializeContract, LoanConfirm, LoanPaid};
pub use clock::ClockError;
pub use errors::{InitializeContractError, LoanConfirmError, LoanPaidError};
pub use identity::{Identity, Wallet};
pub use lifecycle::{
    initialize_contract, initialize_contract_at, loan_confirm, loan_paid, loan_paid_at,
};
pub use states::{Contract, LoanState, LoanerHistory};
