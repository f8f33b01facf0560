use lib::decimal::{
    compare_number_strings, compare_normalized_number_str_to_zero, normalized_decimal_string_is_even_integer,
    normalized_decimal_string_is_integer, parse_number_parts_for_comparison, first_non_zero_integer_digit_index,
    digits_are_all_zero,
};
use lib::obj::StandardSet;
use lib::standard_sets::standard_set_is_subset_eq;
use lib::NumberCompareResult;

#[test]
fn compare_equal_values_written_differently() {
    assert_eq!(compare_number_strings("1.5", "1.50"), NumberCompareResult::Equal);
    assert_eq!(compare_number_strings("007", "7"), NumberCompareResult::Equal);
    assert_eq!(compare_number_strings("0", "-0"), NumberCompareResult::Equal);
}

#[test]
fn compare_orders_by_value() {
    assert_eq!(compare_number_strings("-2", "1"), NumberCompareResult::Less);
    assert_eq!(compare_number_strings("10", "9"), NumberCompareResult::Greater);
    assert_eq!(compare_number_strings("0.1", "0.01"), NumberCompareResult::Greater);
    assert_eq!(compare_number_strings("-1.25", "-1.2"), NumberCompareResult::Less);
    assert_eq!(compare_number_strings(" 3 ", "3"), NumberCompareResult::Equal);
}

#[test]
fn compare_negative_zero_against_negative_number() {
    // A negative zero is compared by magnitude against a negative number.
    assert_eq!(compare_number_strings("-0", "-3"), NumberCompareResult::Less);
    assert_eq!(compare_number_strings("-3", "-0"), NumberCompareResult::Greater);
}

#[test]
fn compare_is_antisymmetric_on_samples() {
    let values = ["-3", "-0.5", "0", "0.25", "2", "2.00", "11"];
    for a in values.iter() {
        for b in values.iter() {
            let ab = compare_number_strings(a, b);
            let ba = compare_number_strings(b, a);
            let reversed = match ba {
                NumberCompareResult::Less => NumberCompareResult::Greater,
                NumberCompareResult::Equal => NumberCompareResult::Equal,
                NumberCompareResult::Greater => NumberCompareResult::Less,
            };
            assert_eq!(ab, reversed);
        }
        assert_eq!(compare_number_strings(a, a), NumberCompareResult::Equal);
    }
}

#[test]
fn compare_is_transitive_on_samples() {
    assert_eq!(compare_number_strings("-1", "0.5"), NumberCompareResult::Less);
    assert_eq!(compare_number_strings("0.5", "0.75"), NumberCompareResult::Less);
    assert_eq!(compare_number_strings("-1", "0.75"), NumberCompareResult::Less);
}

#[test]
fn sign_of_number_strings() {
    assert_eq!(compare_normalized_number_str_to_zero("-0.5"), NumberCompareResult::Less);
    assert_eq!(compare_normalized_number_str_to_zero("0.000"), NumberCompareResult::Equal);
    assert_eq!(compare_normalized_number_str_to_zero("3"), NumberCompareResult::Greater);
    assert_eq!(compare_normalized_number_str_to_zero("-0"), NumberCompareResult::Equal);
}

#[test]
fn parse_parts_of_a_number() {
    let (negative, int_digits, frac_digits) = parse_number_parts_for_comparison("-12.50");
    assert!(negative);
    assert_eq!(int_digits, vec![1u8, 2]);
    assert_eq!(frac_digits, vec![5u8, 0]);
    let (negative, int_digits, frac_digits) = parse_number_parts_for_comparison(".5");
    assert!(!negative);
    assert_eq!(int_digits, vec![0u8]);
    assert_eq!(frac_digits, vec![5u8]);
}

#[test]
fn integer_and_even_strings() {
    assert!(normalized_decimal_string_is_integer("4.000"));
    assert!(!normalized_decimal_string_is_integer("4.01"));
    assert!(normalized_decimal_string_is_even_integer("-14"));
    assert!(!normalized_decimal_string_is_even_integer("15"));
    assert!(!normalized_decimal_string_is_even_integer("2.5"));
}

#[test]
fn digit_helpers() {
    assert!(digits_are_all_zero(&[0, 0, 0]));
    assert!(!digits_are_all_zero(&[0, 1]));
    assert_eq!(first_non_zero_integer_digit_index(&[0, 0, 3, 0]), 2);
    assert_eq!(first_non_zero_integer_digit_index(&[0, 0]), 1);
}

#[test]
fn standard_set_inclusions() {
    assert!(standard_set_is_subset_eq(&StandardSet::N, &StandardSet::Z));
    assert!(!standard_set_is_subset_eq(&StandardSet::Z, &StandardSet::N));
    assert!(standard_set_is_subset_eq(&StandardSet::NPos, &StandardSet::RPos));
    assert!(standard_set_is_subset_eq(&StandardSet::QNeg, &StandardSet::RNz));
    assert!(!standard_set_is_subset_eq(&StandardSet::QPos, &StandardSet::Z));
    assert!(standard_set_is_subset_eq(&StandardSet::R, &StandardSet::R));
}
