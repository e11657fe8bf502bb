use loanly_fans::policy::{BPS_SCALE, CASHBACK_BPS, INTEREST_FACTOR_BPS, MIN_PRINCIPAL};
use loanly_fans::settlement::{cashback_discount, full_repayment, is_late};

#[test]
fn policy_constants_have_their_values() {
    assert_eq!(MIN_PRINCIPAL, 100_000_000);
    assert_eq!(BPS_SCALE, 10_000);
    assert_eq!(INTEREST_FACTOR_BPS, 11_000);
    assert_eq!(CASHBACK_BPS, 200);
}

#[test]
fn full_repayment_multiplies_by_the_interest_factor() {
    assert_eq!(full_repayment(200_000_000, 11_000), 220_000_000);
    assert_eq!(full_repayment(150_000_000, 11_000), 165_000_000);
    assert_eq!(full_repayment(100_000_000, 11_000), 110_000_000);
}

#[test]
fn full_repayment_rounds_down() {
    assert_eq!(full_repayment(123_456_789, 11_000), 135_802_467);
    assert_eq!(full_repayment(999_999_999, 11_000), 1_099_999_998);
    assert_eq!(full_repayment(9, 11_000), 9);
    assert_eq!(full_repayment(10, 11_000), 11);
}

#[test]
fn full_repayment_of_nothing_is_nothing() {
    assert_eq!(full_repayment(0, 11_000), 0);
    assert_eq!(full_repayment(200_000_000, 0), 0);
}

#[test]
fn full_repayment_with_factor_one_is_the_principal() {
    assert_eq!(full_repayment(200_000_000, 10_000), 200_000_000);
    assert_eq!(full_repayment(u64::MAX, 10_000), 18_446_744_073_709_551_615);
}

#[test]
fn full_repayment_is_exact_beyond_64_bits() {
    assert_eq!(full_repayment(u64::MAX, 11_000), 20_291_418_481_080_506_776);
    assert_eq!(
        full_repayment(u64::MAX, u64::MAX),
        34_028_236_692_093_846_342_648_111_928_434_910
    );
}

#[test]
fn cashback_lowers_the_multiplier() {
    assert_eq!(cashback_discount(150_000_000, 11_000, 200), 162_000_000);
    assert_eq!(cashback_discount(200_000_000, 11_000, 200), 216_000_000);
}

#[test]
fn cashback_discount_rounds_down() {
    assert_eq!(cashback_discount(123_456_789, 11_000, 200), 133_333_332);
    assert_eq!(cashback_discount(100_000_001, 11_000, 200), 108_000_001);
}

#[test]
fn cashback_discount_without_cashback_is_the_full_repayment() {
    assert_eq!(
        cashback_discount(123_456_789, 11_000, 0),
        full_repayment(123_456_789, 11_000)
    );
}

#[test]
fn cashback_discount_of_the_whole_factor_is_nothing() {
    assert_eq!(cashback_discount(200_000_000, 11_000, 11_000), 0);
}

#[test]
fn cashback_discount_is_exact_beyond_64_bits() {
    assert_eq!(
        cashback_discount(u64::MAX, 11_000, 200),
        19_922_483_599_606_315_744
    );
}

#[test]
fn discounted_amount_is_below_the_full_repayment() {
    let principals: [u64; 4] = [100_000_000, 150_000_000, 123_456_789, u64::MAX];
    for principal in principals {
        assert!(
            cashback_discount(principal, INTEREST_FACTOR_BPS, CASHBACK_BPS)
                < full_repayment(principal, INTEREST_FACTOR_BPS)
        );
    }
}

#[test]
fn lateness_is_strict() {
    assert!(!is_late(1_000, 1_000));
    assert!(!is_late(999, 1_000));
    assert!(is_late(1_001, 1_000));
}

#[test]
fn lateness_at_the_ends_of_the_range() {
    assert!(!is_late(i64::MIN, i64::MAX));
    assert!(is_late(i64::MAX, i64::MIN));
    assert!(!is_late(i64::MAX, i64::MAX));
    assert!(!is_late(-5, -5));
    assert!(is_late(-4, -5));
}
