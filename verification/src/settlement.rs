use vstd::prelude::*;
use crate::policy::{BPS_SCALE, CASHBACK_BPS};
use crate::states::Contract;

verus! {

/// `amount` times a factor given in basis points, rounded down to a whole unit.
pub open spec fn scaled(amount: nat, factor_bps: nat) -> nat {
    (amount * factor_bps) / (BPS_SCALE as nat)
}

/// A payment at `now` is late when `now` lies after the due date. A payment at
/// the due date itself is on time.
pub open spec fn late(now: i64, due_at: i64) -> bool {
    now > due_at
}

/// What the loaner owes in full: the principal times the interest factor.
pub open spec fn repayment_in_full(contract: Contract) -> nat {
    scaled(contract.amount as nat, contract.interest_factor_bps as nat)
}

/// What a payment at `now` moves from the loaner to the owner: the full
/// repayment when late, and the principal times the interest factor less the
/// cashback when on time.
pub open spec fn amount_due(contract: Contract, now: i64) -> nat {
    if late(now, contract.due_at) {
        repayment_in_full(contract)
    } else {
        scaled(contract.amount as nat, (contract.interest_factor_bps - CASHBACK_BPS) as nat)
    }
}

/// The product of two 64-bit values fits in 128 bits.
pub proof fn lemma_product_fits(a: u64, b: u64)
    ensures
        0 <= a * b <= u128::MAX,
{
    assert(0 <= a * b <= 0xffff_ffff_ffff_ffff * 0xffff_ffff_ffff_ffff) by (nonlinear_arith)
        requires
            0 <= a <= 0xffff_ffff_ffff_ffff,
            0 <= b <= 0xffff_ffff_ffff_ffff,
    ;
}

/// A smaller factor never gives a larger amount.
pub proof fn lemma_scaled_monotonic(amount: nat, low_bps: nat, high_bps: nat)
    requires
        low_bps <= high_bps,
    ensures
        scaled(amount, low_bps) <= scaled(amount, high_bps),
{
    assert(amount * low_bps <= amount * high_bps) by (nonlinear_arith)
        requires
            low_bps <= high_bps,
    ;
    assert((amount * low_bps) / 10_000 <= (amount * high_bps) / 10_000) by (nonlinear_arith)
        requires
            amount * low_bps <= amount * high_bps,
    ;
}

/// Taking `cut_bps` off the factor lowers the amount strictly as soon as the
/// cut is worth one whole unit of it.
pub proof fn lemma_scaled_strict(amount: nat, factor_bps: nat, cut_bps: nat)
    requires
        cut_bps <= factor_bps,
        amount * cut_bps >= 10_000,
    ensures
        scaled(amount, (factor_bps - cut_bps) as nat) < scaled(amount, factor_bps),
{
    let low = amount * ((factor_bps - cut_bps) as nat);
    let high = amount * factor_bps;
    assert(low + 10_000 <= high) by (nonlinear_arith)
        requires
            low == amount * ((factor_bps - cut_bps) as nat),
            high == amount * factor_bps,
            cut_bps <= factor_bps,
            amount * cut_bps >= 10_000,
    ;
    assert(low / 10_000 < high / 10_000) by (nonlinear_arith)
        requires
            low + 10_000 <= high,
    ;
}

/// `floor(principal * interest_factor)`, exact for every pair of arguments.
pub fn full_repayment(principal: u64, interest_factor_bps: u64) -> (owed: u128)
    ensures
        owed == scaled(principal as nat, interest_factor_bps as nat),
{
    proof {
        lemma_product_fits(principal, interest_factor_bps);
    }
    (principal as u128) * (interest_factor_bps as u128) / (BPS_SCALE as u128)
}

/// `floor(amount * (interest_factor - cashback_factor))`: the cashback lowers
/// the multiplier, it is not taken off as a flat sum.
pub fn cashback_discount(amount: u64, interest_factor_bps: u64, cashback_bps: u64) -> (owed: u128)
    requires
        cashback_bps <= interest_factor_bps,
    ensures
        owed == scaled(amount as nat, (interest_factor_bps - cashback_bps) as nat),
{
    let factor: u64 = interest_factor_bps - cashback_bps;
    proof {
        lemma_product_fits(amount, factor);
    }
    (amount as u128) * (factor as u128) / (BPS_SCALE as u128)
}

/// Whether a payment at `now` comes after the due date.
pub fn is_late(now: i64, due_at: i64) -> (r: bool)
    ensures
        r == late(now, due_at),
{
    now > due_at
}

} // verus!
