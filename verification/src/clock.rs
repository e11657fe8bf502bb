use vstd::prelude::*;
use anchor_lang::prelude::{Clock, SolanaSysvar};

verus! {

/// anchor_lang's `ProgramError`, the error that `Clock::get` returns. Its
/// content is not looked at: it is only told apart from a clock that was read.
#[verifier::external_type_specification]
#[verifier::external_body]
pub struct ExProgramError(anchor_lang::prelude::ProgramError);

/// Calls anchor_lang's `Clock::get` and hands out the `unix_timestamp` of the
/// clock it returns, or the error it returns. Nothing is claimed of the value:
/// it is whatever the ledger says the time is, and the call may fail, as it
/// does by default where no ledger runs.
#[verifier::external_body]
fn ledger_clock() -> (r: Result<i64, anchor_lang::prelude::ProgramError>) {
    Clock::get().map(|clock| clock.unix_timestamp)
}

/// What the ledger gave in place of the time: the error of the clock, kept
/// as it came so that a caller can hand it on.
#[derive(Debug, PartialEq, Eq)]
pub struct ClockError {
    pub cause: anchor_lang::prelude::ProgramError,
}

/// The ledger's time in seconds since the Unix epoch, or the clock's error
/// where the ledger clock cannot be read.
pub(crate) fn unix_timestamp() -> (now: Result<i64, ClockError>) {
    match ledger_clock() {
        Ok(seconds) => Ok(seconds),
        Err(cause) => Err(ClockError { cause }),
    }
}

} // verus!
