//! Ordering quotients of number literals by clearing denominators:
//! `a / b < c / d` is decided by comparing `a * d` with `c * b`, the order
//! reversed when `b * d` is negative.
use vstd::prelude::*;
use crate::obj::{Obj, ObjV};
use crate::decimal::{NumberCompareResult, decimal_sign, frac_len, signed_scaled, pow10, digits_value,
    all_digits, all_zero, int_order, parse_parts, padded, scaled_magnitude, max_nat,
    lemma_digits_value_all_zero, lemma_digits_value_leading_zeros, lemma_pow10_positive,
    parse_number_parts_for_comparison, digits_are_all_zero, compare_non_negative_decimal_parts,
    compare_normalized_number_str_to_zero};
use crate::digit_arith::{mul_digits, append_zero_digits};
use crate::runtime::Runtime;
use crate::evaluate::{resolved_literal, resolve_number_literal};

verus! {

/// The value of a number string times `10^frac_len`: all its digits read as
/// one integer, with its sign.
pub open spec fn num_val(s: Seq<char>) -> int {
    signed_scaled(s, frac_len(s))
}

/// A magnitude with a sign.
pub open spec fn signed_value(negative: bool, v: nat) -> int {
    if negative {
        -(v as int)
    } else {
        v as int
    }
}

/// `None` for a zero denominator; otherwise whether it is negative, which
/// reverses an inequality multiplied by it.
pub open spec fn denominator_flip(s: Seq<char>) -> Option<bool> {
    if decimal_sign(s) == NumberCompareResult::Equal {
        None
    } else {
        Some(decimal_sign(s) == NumberCompareResult::Less)
    }
}

/// `None` when either denominator is zero; otherwise whether their product
/// is positive.
pub open spec fn denominators_product_positive(b: Seq<char>, d: Seq<char>) -> Option<bool> {
    match (denominator_flip(b), denominator_flip(d)) {
        (Some(fb), Some(fd)) => Some(fb == fd),
        _ => None,
    }
}

/// Whether a comparison of the cleared sides establishes `<` (or `<=` when
/// `allow_equal`), read the other way round when `flip`.
pub open spec fn order_matches(c: NumberCompareResult, allow_equal: bool, flip: bool) -> bool {
    if !flip {
        c == NumberCompareResult::Less || (allow_equal && c == NumberCompareResult::Equal)
    } else {
        c == NumberCompareResult::Greater || (allow_equal && c == NumberCompareResult::Equal)
    }
}

/// `a / b` against `c / d`: `a * d` against `c * b`, both at the common scale.
pub open spec fn quotients_result(a: Seq<char>, b: Seq<char>, c: Seq<char>, d: Seq<char>, allow_equal: bool) -> Option<bool> {
    match denominators_product_positive(b, d) {
        None => None,
        Some(positive) => Some(order_matches(
            int_order(
                num_val(a) * num_val(d) * pow10(frac_len(c)) * pow10(frac_len(b)),
                num_val(c) * num_val(b) * pow10(frac_len(a)) * pow10(frac_len(d)),
            ),
            allow_equal,
            !positive,
        )),
    }
}

/// `a` against `c / d`: `a * d` against `c`, both at the common scale.
pub open spec fn right_quotient_result(a: Seq<char>, c: Seq<char>, d: Seq<char>, allow_equal: bool) -> Option<bool> {
    match denominator_flip(d) {
        None => None,
        Some(flip) => Some(order_matches(
            int_order(num_val(a) * num_val(d) * pow10(frac_len(c)) * pow10(0), num_val(c) * pow10(frac_len(a)) * pow10(frac_len(d))),
            allow_equal,
            flip,
        )),
    }
}

/// `a / b` against `c`: `a` against `c * b`, both at the common scale.
pub open spec fn left_quotient_result(a: Seq<char>, b: Seq<char>, c: Seq<char>, allow_equal: bool) -> Option<bool> {
    match denominator_flip(b) {
        None => None,
        Some(flip) => Some(order_matches(
            int_order(num_val(a) * pow10(frac_len(c)) * pow10(frac_len(b)), num_val(c) * num_val(b) * pow10(frac_len(a)) * pow10(0)),
            allow_equal,
            flip,
        )),
    }
}

/// Whether `l < r` (or `l <= r` when `allow_equal`) holds by clearing the
/// denominators of quotients whose parts stand for numbers (literals, or
/// integer expressions evaluated first); `None` when neither side is such a
/// quotient, a part stands for no number, or a denominator is zero.
pub open spec fn div_elimination(l: ObjV, r: ObjV, allow_equal: bool) -> Option<bool> {
    match l {
        ObjV::Div(la, lb) => match r {
            ObjV::Div(ra, rb) => match (resolved_literal(*la), resolved_literal(*lb), resolved_literal(*ra), resolved_literal(*rb)) {
                (Some(a), Some(b), Some(c), Some(d)) => quotients_result(a, b, c, d, allow_equal),
                _ => None,
            },
            _ => match (resolved_literal(*la), resolved_literal(*lb), resolved_literal(r)) {
                (Some(a), Some(b), Some(c)) => left_quotient_result(a, b, c, allow_equal),
                _ => None,
            },
        },
        _ => match r {
            ObjV::Div(ra, rb) => match (resolved_literal(l), resolved_literal(*ra), resolved_literal(*rb)) {
                (Some(a), Some(c), Some(d)) => right_quotient_result(a, c, d, allow_equal),
                _ => None,
            },
            _ => None,
        },
    }
}

/// Signs multiply.
proof fn lemma_signed_value_mul(n1: bool, v1: nat, n2: bool, v2: nat)
    ensures
        signed_value(n1, v1) * signed_value(n2, v2) == signed_value(n1 != n2, v1 * v2),
{
    let a = v1 as int;
    let b = v2 as int;
    assert((-a) * (-b) == a * b) by (nonlinear_arith);
    assert((-a) * b == -(a * b)) by (nonlinear_arith);
    assert(a * (-b) == -(a * b)) by (nonlinear_arith);
}

/// A positive factor keeps the sign.
proof fn lemma_signed_value_scale(n: bool, v: nat, q: nat)
    ensures
        signed_value(n, v) * q == signed_value(n, v * q),
{
    let a = v as int;
    assert((-a) * q == -(a * q)) by (nonlinear_arith);
}

/// The sign of a number string, all its digits as one integer, and the
/// number of its fractional digits.
pub fn integer_digits(s: &str) -> (r: (bool, Vec<u8>, usize))
    ensures
        all_digits(r.1@),
        signed_value(r.0, digits_value(r.1@)) == num_val(s@),
        r.2 == frac_len(s@),
{
    let (negative, int_digits, frac_digits) = parse_number_parts_for_comparison(s);
    let f = frac_digits.len();
    let ghost p = parse_parts(s@);
    let mut all = int_digits;
    let mut frac = frac_digits;
    all.append(&mut frac);
    proof {
        assert(padded(p.2, p.2.len()) == p.2);
        assert(all@ == p.1 + p.2);
        assert(all_digits(all@)) by {
            assert forall|i: int| 0 <= i < all@.len() implies #[trigger] all@[i] <= 9 by {
                if i < p.1.len() {
                    assert(all@[i] == p.1[i]);
                } else {
                    assert(all@[i] == p.2[i - p.1.len()]);
                }
            }
        }
    }
    (negative, all, f)
}

/// `x * y * 10^j1 * 10^j2` as a sign and digits.
fn cross_term(x: &str, y: &str, j1: usize, j2: usize) -> (r: (bool, Vec<u8>))
    ensures
        all_digits(r.1@),
        signed_value(r.0, digits_value(r.1@)) == num_val(x@) * num_val(y@) * pow10(j1 as nat) * pow10(j2 as nat),
{
    let (nx, mx, _) = integer_digits(x);
    let (ny, my, _) = integer_digits(y);
    let p = mul_digits(&mx, &my);
    let p1 = append_zero_digits(&p, j1);
    let p2 = append_zero_digits(&p1, j2);
    proof {
        let vx = digits_value(mx@);
        let vy = digits_value(my@);
        let q1 = pow10(j1 as nat);
        let q2 = pow10(j2 as nat);
        lemma_signed_value_mul(nx, vx, ny, vy);
        lemma_signed_value_scale(nx != ny, vx * vy, q1);
        lemma_signed_value_scale(nx != ny, vx * vy * q1, q2);
    }
    (nx != ny, p2)
}

/// `x * 10^j1 * 10^j2` as a sign and digits.
fn scaled_term(x: &str, j1: usize, j2: usize) -> (r: (bool, Vec<u8>))
    ensures
        all_digits(r.1@),
        signed_value(r.0, digits_value(r.1@)) == num_val(x@) * pow10(j1 as nat) * pow10(j2 as nat),
{
    let (nx, mx, _) = integer_digits(x);
    let p1 = append_zero_digits(&mx, j1);
    let p2 = append_zero_digits(&p1, j2);
    proof {
        let vx = digits_value(mx@);
        lemma_signed_value_scale(nx, vx, pow10(j1 as nat));
        lemma_signed_value_scale(nx, vx * pow10(j1 as nat), pow10(j2 as nat));
    }
    (nx, p2)
}

/// The digits with a zero in front: the same value, never empty.
fn with_leading_zero(m: &Vec<u8>) -> (r: Vec<u8>)
    requires
        all_digits(m@),
    ensures
        r@ == seq![0u8] + m@,
        r@.len() > 0,
        all_digits(r@),
        digits_value(r@) == digits_value(m@),
{
    let mut out: Vec<u8> = Vec::new();
    out.push(0);
    let mut i: usize = 0;
    while i < m.len()
        invariant
            i <= m.len(),
            out@ == seq![0u8] + m@.take(i as int),
        decreases m.len() - i,
    {
        out.push(m[i]);
        i = i + 1;
        assert(out@ =~= seq![0u8] + m@.take(i as int));
    }
    proof {
        assert(m@.take(m@.len() as int) =~= m@);
        assert(all_zero(seq![0u8]));
        lemma_digits_value_leading_zeros(seq![0u8], m@);
        assert(all_digits(out@)) by {
            assert forall|t: int| 0 <= t < out@.len() implies #[trigger] out@[t] <= 9 by {
                if t > 0 {
                    assert(out@[t] == m@[t - 1]);
                }
            }
        }
    }
    out
}

/// Compare two signed integers given by their signs and digits.
pub fn compare_signed_digits(n1: bool, m1: &Vec<u8>, n2: bool, m2: &Vec<u8>) -> (r: NumberCompareResult)
    requires
        all_digits(m1@),
        all_digits(m2@),
    ensures
        r == int_order(signed_value(n1, digits_value(m1@)), signed_value(n2, digits_value(m2@))),
{
    let a = with_leading_zero(m1);
    let b = with_leading_zero(m2);
    let empty: Vec<u8> = Vec::new();
    proof {
        lemma_digits_value_all_zero(a@);
        lemma_digits_value_all_zero(b@);
        assert(max_nat(0, 0) == 0);
        assert(padded(empty@, 0) =~= Seq::<u8>::empty());
        assert(a@ + padded(empty@, 0) =~= a@);
        assert(b@ + padded(empty@, 0) =~= b@);
        assert(scaled_magnitude(a@, empty@, 0) == digits_value(a@));
        assert(scaled_magnitude(b@, empty@, 0) == digits_value(b@));
    }
    let z1 = digits_are_all_zero(a.as_slice());
    let z2 = digits_are_all_zero(b.as_slice());
    let magnitudes = compare_non_negative_decimal_parts(a.as_slice(), empty.as_slice(), b.as_slice(), empty.as_slice());
    let neg1 = n1 && !z1;
    let neg2 = n2 && !z2;
    if neg1 && !neg2 {
        return NumberCompareResult::Less;
    }
    if neg2 && !neg1 {
        return NumberCompareResult::Greater;
    }
    if neg1 && neg2 {
        return match magnitudes {
            NumberCompareResult::Less => NumberCompareResult::Greater,
            NumberCompareResult::Equal => NumberCompareResult::Equal,
            NumberCompareResult::Greater => NumberCompareResult::Less,
        };
    }
    magnitudes
}

/// The sign of a number string against zero.
pub fn decimal_str_sign_vs_zero(number_value: &str) -> (r: NumberCompareResult)
    ensures
        r == decimal_sign(number_value@),
{
    compare_normalized_number_str_to_zero(number_value)
}

/// `None` for a zero denominator; otherwise whether it reverses the order.
pub fn nonzero_denominator_requires_flip(denominator: &str) -> (r: Option<bool>)
    ensures
        r == denominator_flip(denominator@),
{
    match decimal_str_sign_vs_zero(denominator) {
        NumberCompareResult::Equal => None,
        NumberCompareResult::Greater => Some(false),
        NumberCompareResult::Less => Some(true),
    }
}

/// `None` when either denominator is zero; otherwise whether their product is positive.
pub fn two_denominators_product_is_positive(left_den: &str, right_den: &str) -> (r: Option<bool>)
    ensures
        r == denominators_product_positive(left_den@, right_den@),
{
    match (nonzero_denominator_requires_flip(left_den), nonzero_denominator_requires_flip(right_den)) {
        (Some(fl), Some(fr)) => Some(fl == fr),
        _ => None,
    }
}

/// Whether the comparison establishes the order, reversed when `flip`.
pub fn compare_result_matches_less_order(compare_result: NumberCompareResult, allow_equal: bool, flip: bool) -> (r: bool)
    ensures
        r == order_matches(compare_result, allow_equal, flip),
{
    match compare_result {
        NumberCompareResult::Less => !flip,
        NumberCompareResult::Equal => allow_equal,
        NumberCompareResult::Greater => flip,
    }
}

impl Runtime {
    /// Decide `left < right` (or `left <= right` when `allow_equal`) where a
    /// side is a quotient of number literals, by multiplying out the
    /// denominators; `None` when that does not apply or a denominator is zero.
    pub fn try_verify_numeric_order_via_div_elimination(&self, left_obj: &Obj, right_obj: &Obj, allow_equal: bool) -> (r: Option<bool>)
        ensures
            r == div_elimination(left_obj@, right_obj@, allow_equal),
    {
        match left_obj {
            Obj::Div(la, lb) => match right_obj {
                Obj::Div(ra, rb) => match (resolve_number_literal(la), resolve_number_literal(lb), resolve_number_literal(ra), resolve_number_literal(rb)) {
                    (Some(a), Some(b), Some(c), Some(d)) => compare_quotients(a.as_str(), b.as_str(), c.as_str(), d.as_str(), allow_equal),
                    _ => None,
                },
                _ => match (resolve_number_literal(la), resolve_number_literal(lb), resolve_number_literal(right_obj)) {
                    (Some(a), Some(b), Some(c)) => compare_left_quotient(a.as_str(), b.as_str(), c.as_str(), allow_equal),
                    _ => None,
                },
            },
            _ => match right_obj {
                Obj::Div(ra, rb) => match (resolve_number_literal(left_obj), resolve_number_literal(ra), resolve_number_literal(rb)) {
                    (Some(a), Some(c), Some(d)) => compare_right_quotient(a.as_str(), c.as_str(), d.as_str(), allow_equal),
                    _ => None,
                },
                _ => None,
            },
        }
    }
}

/// `a / b` against `c / d`, as in `quotients_result`.
pub fn compare_quotients(a: &str, b: &str, c: &str, d: &str, allow_equal: bool) -> (r: Option<bool>)
    ensures
        r == quotients_result(a@, b@, c@, d@, allow_equal),
{
    let positive = match two_denominators_product_is_positive(b, d) {
        Some(p) => p,
        None => return None,
    };
    let (_, _, fa) = integer_digits(a);
    let (_, _, fb) = integer_digits(b);
    let (_, _, fc) = integer_digits(c);
    let (_, _, fd) = integer_digits(d);
    let (nl, ml) = cross_term(a, d, fc, fb);
    let (nr, mr) = cross_term(c, b, fa, fd);
    let compared = compare_signed_digits(nl, &ml, nr, &mr);
    Some(compare_result_matches_less_order(compared, allow_equal, !positive))
}

/// `a / b` against `c`, as in `left_quotient_result`.
pub fn compare_left_quotient(a: &str, b: &str, c: &str, allow_equal: bool) -> (r: Option<bool>)
    ensures
        r == left_quotient_result(a@, b@, c@, allow_equal),
{
    let flip = match nonzero_denominator_requires_flip(b) {
        Some(f) => f,
        None => return None,
    };
    let (_, _, fa) = integer_digits(a);
    let (_, _, fb) = integer_digits(b);
    let (_, _, fc) = integer_digits(c);
    let (nl, ml) = scaled_term(a, fc, fb);
    let (nr, mr) = cross_term(c, b, fa, 0);
    let compared = compare_signed_digits(nl, &ml, nr, &mr);
    Some(compare_result_matches_less_order(compared, allow_equal, flip))
}

/// `a` against `c / d`, as in `right_quotient_result`.
pub fn compare_right_quotient(a: &str, c: &str, d: &str, allow_equal: bool) -> (r: Option<bool>)
    ensures
        r == right_quotient_result(a@, c@, d@, allow_equal),
{
    let flip = match nonzero_denominator_requires_flip(d) {
        Some(f) => f,
        None => return None,
    };
    let (_, _, fa) = integer_digits(a);
    let (_, _, fc) = integer_digits(c);
    let (_, _, fd) = integer_digits(d);
    let (nl, ml) = cross_term(a, d, fc, 0);
    let (nr, mr) = scaled_term(c, fa, fd);
    let compared = compare_signed_digits(nl, &ml, nr, &mr);
    Some(compare_result_matches_less_order(compared, allow_equal, flip))
}

} // verus!
