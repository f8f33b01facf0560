use lib::digit_arith::{add_digits, append_zero_digits, mul_digits, mul_digits_by_digit};
use lib::div_elimination::{
    compare_result_matches_less_order, compare_signed_digits, integer_digits, nonzero_denominator_requires_flip,
    two_denominators_product_is_positive,
};
use lib::fact::AtomicFact;
use lib::obj::Obj;
use lib::runtime::{BuiltinRule, Runtime, StmtResult, VerifiedBy, VerifyState};
use lib::NumberCompareResult;

fn value(ds: &[u8]) -> u128 {
    ds.iter().fold(0u128, |acc, d| acc * 10 + *d as u128)
}

fn num(v: &str) -> Obj {
    Obj::Number(v.to_string())
}

fn div(a: &str, b: &str) -> Obj {
    Obj::Div(Box::new(num(a)), Box::new(num(b)))
}

#[test]
fn digit_sums_and_products() {
    assert_eq!(value(&add_digits(&vec![9, 9], &vec![1])), 100);
    assert_eq!(value(&add_digits(&vec![], &vec![4, 2])), 42);
    assert_eq!(value(&mul_digits_by_digit(&vec![1, 2], 9)), 108);
    assert_eq!(value(&mul_digits_by_digit(&vec![1, 2], 0)), 0);
    assert_eq!(value(&mul_digits(&vec![1, 2], &vec![3, 4])), 408);
    assert_eq!(value(&mul_digits(&vec![9, 9, 9], &vec![9, 9, 9])), 998001);
    assert_eq!(value(&mul_digits(&vec![5], &vec![])), 0);
    assert_eq!(append_zero_digits(&vec![7], 3), vec![7, 0, 0, 0]);
}

#[test]
fn signed_digit_comparison() {
    assert_eq!(integer_digits("-1.25"), (true, vec![1, 2, 5], 2));
    assert_eq!(compare_signed_digits(true, &vec![3], false, &vec![0]), NumberCompareResult::Less);
    assert_eq!(compare_signed_digits(true, &vec![0], false, &vec![0]), NumberCompareResult::Equal);
    assert_eq!(compare_signed_digits(true, &vec![3], true, &vec![2]), NumberCompareResult::Less);
    assert_eq!(compare_signed_digits(false, &vec![1, 0], false, &vec![9]), NumberCompareResult::Greater);
}

#[test]
fn denominator_signs() {
    assert_eq!(nonzero_denominator_requires_flip("0"), None);
    assert_eq!(nonzero_denominator_requires_flip("-0.0"), None);
    assert_eq!(nonzero_denominator_requires_flip("2"), Some(false));
    assert_eq!(nonzero_denominator_requires_flip("-0.5"), Some(true));
    assert_eq!(two_denominators_product_is_positive("-2", "-3"), Some(true));
    assert_eq!(two_denominators_product_is_positive("-2", "3"), Some(false));
    assert_eq!(two_denominators_product_is_positive("2", "0"), None);
    assert!(compare_result_matches_less_order(NumberCompareResult::Greater, false, true));
    assert!(!compare_result_matches_less_order(NumberCompareResult::Equal, false, false));
    assert!(compare_result_matches_less_order(NumberCompareResult::Equal, true, true));
}

#[test]
fn quotient_orders() {
    let rt = Runtime::new();
    // 1/2 < 2/3
    assert_eq!(rt.try_verify_numeric_order_via_div_elimination(&div("1", "2"), &div("2", "3"), false), Some(true));
    assert_eq!(rt.try_verify_numeric_order_via_div_elimination(&div("2", "3"), &div("1", "2"), false), Some(false));
    // 1/(-2) < 1/3: a negative denominator reverses the cleared comparison.
    assert_eq!(rt.try_verify_numeric_order_via_div_elimination(&div("1", "-2"), &div("1", "3"), false), Some(true));
    assert_eq!(rt.try_verify_numeric_order_via_div_elimination(&div("1", "-2"), &div("1", "-3"), false), Some(true));
    // A zero denominator decides nothing.
    assert_eq!(rt.try_verify_numeric_order_via_div_elimination(&div("1", "0"), &div("1", "2"), false), None);
    // 0.5 < 3/4 and 3/4 <= 0.75 but not 3/4 < 0.75.
    assert_eq!(rt.try_verify_numeric_order_via_div_elimination(&num("0.5"), &div("3", "4"), false), Some(true));
    assert_eq!(rt.try_verify_numeric_order_via_div_elimination(&div("3", "4"), &num("0.75"), true), Some(true));
    assert_eq!(rt.try_verify_numeric_order_via_div_elimination(&div("3", "4"), &num("0.75"), false), Some(false));
    // 2.5/0.5 = 5 <= 5
    assert_eq!(rt.try_verify_numeric_order_via_div_elimination(&div("2.5", "0.5"), &num("5"), true), Some(true));
    // Not quotients of literals.
    let x = Obj::Identifier("x".to_string());
    assert_eq!(rt.try_verify_numeric_order_via_div_elimination(&Obj::Div(Box::new(num("1")), Box::new(x)), &num("1"), false), None);
    assert_eq!(rt.try_verify_numeric_order_via_div_elimination(&num("1"), &num("2"), false), None);
}

#[test]
fn quotients_in_the_order_check() {
    let rt = Runtime::new();
    let vs = VerifyState::new(2);
    let fact = AtomicFact::GreaterFact(div("2", "3"), div("1", "2"));
    assert_eq!(rt.verify_number_comparison_builtin_rule(&fact), Some(true));
    assert_eq!(
        rt.verify_non_equational_known_then_builtin_rules_only(&fact, &vs),
        StmtResult::FactualStmtSuccess(VerifiedBy::Builtin(BuiltinRule::NumberComparison))
    );
    let wrong = AtomicFact::LessFact(div("2", "3"), div("1", "2"));
    assert_eq!(rt.verify_number_comparison_builtin_rule(&wrong), Some(false));
}
