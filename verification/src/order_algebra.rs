//! The algebraic order rules: powers with a common exponent, sums and
//! differences, products and quotients, each proving `l < r` or `l <= r`
//! from order subgoals.
use vstd::prelude::*;
use crate::obj::{Obj, ObjV, StandardSet, objs_equal};
use crate::fact::{AtomicFact, AtomicFactV};
use crate::runtime::{Runtime, BuiltinRule, VerifyState, is_known};
use crate::decimal::{all_zero, parse_parts, digits_value, normalized_decimal_string_is_even_integer};
use crate::int_literal::{i128_literal, int_string, parse_i128_literal, i128_to_string, lemma_i128_literal_range};
use crate::abs_order::{abs_v, order_fact_v, abs_obj, abs_order_subgoal};
use crate::builtin::{
    order_subgoal, subgoal_holds, known_then_builtin_result, known_equal, zero_v, zero_obj, alg_add_common,
    alg_sub_componentwise_strict, alg_sub_componentwise_weak, alg_subtract_nonnegative, alg_subtract_positive,
    alg_move_left_subtractor, alg_self_plus, alg_add_nonnegative, alg_move_right_subtractor, algebra_rule,
};
use crate::order_normalize::normalize_positive_order_atomic_fact;

verus! {

broadcast use vstd::string::group_string_axioms;

/// The number literal `1`.
pub open spec fn one_v() -> ObjV {
    ObjV::Number(seq!['1'])
}

/// The number literal `2`.
pub open spec fn two_v() -> ObjV {
    ObjV::Number(seq!['2'])
}

/// The value of a number literal read as a 128-bit integer.
pub open spec fn int_literal_v(o: ObjV) -> Option<int> {
    match o {
        ObjV::Number(s) => i128_literal(s),
        _ => None,
    }
}

pub open spec fn positive_int_literal(o: ObjV) -> bool {
    int_literal_v(o) matches Some(v) && v > 0
}

pub open spec fn nonnegative_int_literal(o: ObjV) -> bool {
    int_literal_v(o) matches Some(v) && v >= 0
}

pub open spec fn positive_odd_int_literal(o: ObjV) -> bool {
    int_literal_v(o) matches Some(v) && v > 0 && v % 2 == 1
}

/// A literal that denotes an even integer and reads as a positive 128-bit integer.
#[verifier::opaque]
pub open spec fn positive_even_int_literal(o: ObjV) -> bool {
    o matches ObjV::Number(s) && all_zero(parse_parts(s).2) && digits_value(parse_parts(s).1) % 2 == 0
        && positive_int_literal(o)
}

/// `a^n < b^n` from `0 <= a`, `0 <= b` and `a < b` (or `a^n <= b^n` from
/// `0 <= a` and `a <= b`), for a positive integer `n`.
#[verifier::opaque]
pub open spec fn alg_pow_nonnegative_base(rt: &Runtime, l: ObjV, r: ObjV, strict: bool, d: nat) -> bool
    decreases d, 1nat,
{
    l matches ObjV::Pow(a, n) && r matches ObjV::Pow(b, m) && *n == *m
        && (positive_int_literal(*n) || subgoal_holds(rt, AtomicFactV::InFact(*n, ObjV::StandardSet(StandardSet::NPos)), d))
        && order_subgoal(rt, AtomicFactV::LessEqualFact(zero_v(), *a), d)
        && (strict ==> order_subgoal(rt, AtomicFactV::LessEqualFact(zero_v(), *b), d))
        && order_subgoal(rt, order_fact_v(*a, *b, strict), d)
}

/// `a^n < b^n` from `a < b` (or `<=`), for a positive odd integer literal `n`.
#[verifier::opaque]
pub open spec fn alg_pow_odd_exponent(rt: &Runtime, l: ObjV, r: ObjV, strict: bool, d: nat) -> bool
    decreases d, 1nat,
{
    l matches ObjV::Pow(a, n) && r matches ObjV::Pow(b, m) && *n == *m && positive_odd_int_literal(*n)
        && order_subgoal(rt, order_fact_v(*a, *b, strict), d)
}

/// `a^k < b^k` from a known `abs(a) < abs(b)` (or `<=`), for an even `k` in `N_pos`.
#[verifier::opaque]
pub open spec fn alg_pow_even_exponent_from_abs(rt: &Runtime, l: ObjV, r: ObjV, strict: bool, d: nat) -> bool
    decreases d, 1nat,
{
    l matches ObjV::Pow(a, n) && r matches ObjV::Pow(b, m) && *n == *m
        && (positive_even_int_literal(*n) || (subgoal_holds(rt, AtomicFactV::InFact(*n, ObjV::StandardSet(StandardSet::NPos)), d)
        && known_equal(rt, ObjV::Mod(Box::new(*n), Box::new(two_v())), zero_v())))
        && is_known(rt, order_fact_v(abs_v(*a), abs_v(*b), strict))
}

/// `abs(x - n) < abs(x)` from `0 < x` and `0 <= x - n`, for a positive integer literal `n`.
#[verifier::opaque]
pub open spec fn alg_abs_sub(rt: &Runtime, l: ObjV, r: ObjV, d: nat) -> bool
    decreases d, 1nat,
{
    l matches ObjV::Abs(s) && *s matches ObjV::Sub(x, nn) && r matches ObjV::Abs(y) && *x == *y
        && positive_int_literal(*nn) && order_subgoal(rt, AtomicFactV::LessFact(zero_v(), *y), d)
        && order_subgoal(rt, AtomicFactV::LessEqualFact(zero_v(), *s), d)
}

/// `a - n < a` for a positive integer literal `n` (`a - n <= a` for a nonnegative one).
pub open spec fn alg_sub_literal(l: ObjV, r: ObjV, strict: bool) -> bool {
    l matches ObjV::Sub(x, nn) && *x == r && (if strict {
        positive_int_literal(*nn)
    } else {
        nonnegative_int_literal(*nn)
    })
}

/// `a / b < a` from `0 < a` and `1 < b`.
#[verifier::opaque]
pub open spec fn alg_div_greater_than_one(rt: &Runtime, l: ObjV, r: ObjV, d: nat) -> bool
    decreases d, 1nat,
{
    l matches ObjV::Div(_, b) && order_subgoal(rt, AtomicFactV::LessFact(zero_v(), r), d)
        && order_subgoal(rt, AtomicFactV::LessFact(one_v(), *b), d)
}

/// `a * b < 0` (or `<= 0`) from factors of opposite signs.
#[verifier::opaque]
pub open spec fn alg_mul_negative_by_signs(rt: &Runtime, l: ObjV, r: ObjV, strict: bool, d: nat) -> bool
    decreases d, 1nat,
{
    r == zero_v() && (l matches ObjV::Mul(x, y) && ((order_subgoal(rt, order_fact_v(*x, zero_v(), strict), d)
        && order_subgoal(rt, order_fact_v(zero_v(), *y, strict), d)) || (order_subgoal(rt, order_fact_v(*y, zero_v(), strict), d)
        && order_subgoal(rt, order_fact_v(zero_v(), *x, strict), d))))
}

/// `0 < a * b` (or `0 <=`) from factors of the same sign.
#[verifier::opaque]
pub open spec fn alg_mul_positive_by_signs(rt: &Runtime, l: ObjV, r: ObjV, strict: bool, d: nat) -> bool
    decreases d, 1nat,
{
    l == zero_v() && (r matches ObjV::Mul(x, y) && ((order_subgoal(rt, order_fact_v(zero_v(), *x, strict), d)
        && order_subgoal(rt, order_fact_v(zero_v(), *y, strict), d)) || (order_subgoal(rt, order_fact_v(*x, zero_v(), strict), d)
        && order_subgoal(rt, order_fact_v(*y, zero_v(), strict), d))))
}

/// `a < b * a` from `0 < a` and `1 < b` (or the weak forms).
#[verifier::opaque]
pub open spec fn alg_self_times(rt: &Runtime, l: ObjV, r: ObjV, strict: bool, d: nat) -> bool
    decreases d, 1nat,
{
    r matches ObjV::Mul(b, _) && order_subgoal(rt, order_fact_v(zero_v(), l, strict), d)
        && order_subgoal(rt, order_fact_v(one_v(), *b, strict), d)
}

/// `x1 * x2 <= y1 * y2` from nonnegative factors ordered pairwise, in either pairing.
#[verifier::opaque]
pub open spec fn alg_mul_componentwise(rt: &Runtime, l: ObjV, r: ObjV, d: nat) -> bool
    decreases d, 1nat,
{
    l matches ObjV::Mul(x1, x2) && r matches ObjV::Mul(y1, y2) && ((order_subgoal(rt, AtomicFactV::LessEqualFact(zero_v(), *x1), d)
        && order_subgoal(rt, AtomicFactV::LessEqualFact(zero_v(), *x2), d)
        && order_subgoal(rt, AtomicFactV::LessEqualFact(zero_v(), *y1), d)
        && order_subgoal(rt, AtomicFactV::LessEqualFact(zero_v(), *y2), d)
        && order_subgoal(rt, AtomicFactV::LessEqualFact(*x1, *y1), d)
        && order_subgoal(rt, AtomicFactV::LessEqualFact(*x2, *y2), d))
        || (order_subgoal(rt, AtomicFactV::LessEqualFact(zero_v(), *x1), d)
        && order_subgoal(rt, AtomicFactV::LessEqualFact(zero_v(), *x2), d)
        && order_subgoal(rt, AtomicFactV::LessEqualFact(zero_v(), *y2), d)
        && order_subgoal(rt, AtomicFactV::LessEqualFact(zero_v(), *y1), d)
        && order_subgoal(rt, AtomicFactV::LessEqualFact(*x1, *y2), d)
        && order_subgoal(rt, AtomicFactV::LessEqualFact(*x2, *y1), d)))
}

/// `k * u < k * v` (or `u * k < v * k`): from `0 < k` and `u < v`, or from
/// `k < 0` and `v < u` (and the weak forms).
#[verifier::opaque]
pub open spec fn mul_shared_factor_rule(rt: &Runtime, l: ObjV, r: ObjV, strict: bool, d: nat) -> Option<BuiltinRule>
    decreases d, 1nat,
{
    match (l, r) {
        (ObjV::Mul(a1, a2), ObjV::Mul(b1, b2)) => if *a1 == *b1 && order_subgoal(rt, order_fact_v(zero_v(), *a1, strict), d)
            && order_subgoal(rt, order_fact_v(*a2, *b2, strict), d) {
            Some(BuiltinRule::MulSharedFactorPositive)
        } else if *a1 == *b1 && order_subgoal(rt, order_fact_v(*a1, zero_v(), strict), d)
            && order_subgoal(rt, order_fact_v(*b2, *a2, strict), d) {
            Some(BuiltinRule::MulSharedFactorNegative)
        } else if *a2 == *b2 && order_subgoal(rt, order_fact_v(zero_v(), *a2, strict), d)
            && order_subgoal(rt, order_fact_v(*a1, *b1, strict), d) {
            Some(BuiltinRule::MulSharedFactorPositive)
        } else if *a2 == *b2 && order_subgoal(rt, order_fact_v(*a2, zero_v(), strict), d)
            && order_subgoal(rt, order_fact_v(*b1, *a1, strict), d) {
            Some(BuiltinRule::MulSharedFactorNegative)
        } else {
            None
        },
        _ => None,
    }
}

/// `a + c < b + d` from `a < b` and `c < d`, from `a < b` and `c <= d`, or
/// from `a <= b` and `c < d`.
#[verifier::opaque]
pub open spec fn alg_add_componentwise_strict(rt: &Runtime, l: ObjV, r: ObjV, d: nat) -> bool
    decreases d, 1nat,
{
    l matches ObjV::Add(a, c) && r matches ObjV::Add(b, e) && ((order_subgoal(rt, AtomicFactV::LessFact(*a, *b), d)
        && order_subgoal(rt, AtomicFactV::LessFact(*c, *e), d)) || (order_subgoal(rt, AtomicFactV::LessFact(*a, *b), d)
        && order_subgoal(rt, AtomicFactV::LessEqualFact(*c, *e), d)) || (order_subgoal(rt, AtomicFactV::LessEqualFact(*a, *b), d)
        && order_subgoal(rt, AtomicFactV::LessFact(*c, *e), d)))
}

/// `a + c <= b + d` from `a <= b` and `c <= d`.
#[verifier::opaque]
pub open spec fn alg_add_componentwise_weak(rt: &Runtime, l: ObjV, r: ObjV, d: nat) -> bool
    decreases d, 1nat,
{
    l matches ObjV::Add(a, c) && r matches ObjV::Add(b, e) && order_subgoal(rt, AtomicFactV::LessEqualFact(*a, *b), d)
        && order_subgoal(rt, AtomicFactV::LessEqualFact(*c, *e), d)
}

/// `a / c < b / c` from `0 < c` and `a < b`, or from `c < 0` and `b < a`
/// (and the weak forms).
#[verifier::opaque]
pub open spec fn div_same_denominator_rule(rt: &Runtime, l: ObjV, r: ObjV, strict: bool, d: nat) -> Option<BuiltinRule>
    decreases d, 1nat,
{
    match (l, r) {
        (ObjV::Div(a, c1), ObjV::Div(b, c2)) => if *c1 != *c2 {
            None
        } else if order_subgoal(rt, AtomicFactV::LessFact(zero_v(), *c1), d) && order_subgoal(rt, order_fact_v(*a, *b, strict), d) {
            Some(BuiltinRule::DivSameDenominatorPositive)
        } else if order_subgoal(rt, AtomicFactV::LessFact(*c1, zero_v()), d) && order_subgoal(rt, order_fact_v(*b, *a, strict), d) {
            Some(BuiltinRule::DivSameDenominatorNegative)
        } else {
            None
        },
        _ => None,
    }
}

/// `a + n`, written as one literal when `a` is an integer literal and the
/// sum fits; `a` itself when `n` is zero.
pub open spec fn plus_offset(a: ObjV, n: int) -> ObjV {
    if n == 0 {
        a
    } else {
        match int_literal_v(a) {
            Some(base) => if i128::MIN <= base + n <= i128::MAX {
                ObjV::Number(int_string(base + n))
            } else {
                ObjV::Add(Box::new(a), Box::new(ObjV::Number(int_string(n))))
            },
            None => ObjV::Add(Box::new(a), Box::new(ObjV::Number(int_string(n)))),
        }
    }
}

/// `a <= x - n` from `a + n <= x`, for a nonnegative integer literal `n`.
#[verifier::opaque]
pub open spec fn alg_move_right_integer(rt: &Runtime, l: ObjV, r: ObjV, d: nat) -> bool
    decreases d, 1nat,
{
    r matches ObjV::Sub(x, nn) && int_literal_v(*nn) matches Some(n) && n >= 0
        && order_subgoal(rt, AtomicFactV::LessEqualFact(plus_offset(l, n), *x), d)
}

/// The first strict rules: powers with a common exponent.
pub open spec fn strict_pow_rules(rt: &Runtime, l: ObjV, r: ObjV, d: nat) -> Option<BuiltinRule>
    decreases d, 2nat,
{
    if alg_pow_nonnegative_base(rt, l, r, true, d) {
        Some(BuiltinRule::PowMonotoneNonnegativeBase)
    } else if alg_pow_odd_exponent(rt, l, r, true, d) {
        Some(BuiltinRule::PowMonotoneOddExponent)
    } else if alg_pow_even_exponent_from_abs(rt, l, r, true, d) {
        Some(BuiltinRule::PowEvenExponentFromAbs)
    } else {
        None
    }
}

/// The next strict rules: sums, differences and absolute values.
pub open spec fn strict_sum_rules(rt: &Runtime, l: ObjV, r: ObjV, d: nat) -> Option<BuiltinRule>
    decreases d, 2nat,
{
    if alg_add_common(rt, l, r, true, d) {
        Some(BuiltinRule::AlgebraAddCommonTerm)
    } else if alg_sub_componentwise_strict(rt, l, r, d) {
        Some(BuiltinRule::AlgebraSubComponentwise)
    } else if alg_abs_sub(rt, l, r, d) {
        Some(BuiltinRule::AbsOfSubtractedPositiveInteger)
    } else if alg_subtract_nonnegative(rt, l, r, true, d) {
        Some(BuiltinRule::AlgebraSubtractNonnegative)
    } else if alg_subtract_positive(rt, l, r, d) {
        Some(BuiltinRule::AlgebraSubtractPositive)
    } else if alg_move_left_subtractor(rt, l, r, true, d) {
        Some(BuiltinRule::AlgebraMoveLeftSubtractor)
    } else if alg_self_plus(rt, l, r, true, d) {
        Some(BuiltinRule::AlgebraSelfPlusNonnegative)
    } else if alg_add_nonnegative(rt, l, r, true, d) {
        Some(BuiltinRule::AlgebraAddNonnegative)
    } else if alg_move_right_subtractor(rt, l, r, true, d) {
        Some(BuiltinRule::AlgebraMoveRightSubtractor)
    } else if alg_sub_literal(l, r, true) {
        Some(BuiltinRule::SubtractIntegerLiteral)
    } else {
        None
    }
}

/// The last strict rules: quotients, products and componentwise sums. A
/// rule that claims the shape of the fact without its subgoals ends the search.
pub open spec fn strict_product_rules(rt: &Runtime, l: ObjV, r: ObjV, d: nat) -> Option<BuiltinRule>
    decreases d, 2nat,
{
    if l matches ObjV::Div(a, _) && *a == r {
        if alg_div_greater_than_one(rt, l, r, d) {
            Some(BuiltinRule::DivByGreaterThanOne)
        } else {
            None
        }
    } else if alg_mul_negative_by_signs(rt, l, r, true, d) {
        Some(BuiltinRule::MulNegativeBySigns)
    } else if alg_mul_positive_by_signs(rt, l, r, true, d) {
        Some(BuiltinRule::MulPositiveBySigns)
    } else if r matches ObjV::Mul(_, m) && *m == l {
        if alg_self_times(rt, l, r, true, d) {
            Some(BuiltinRule::SelfTimesGreaterThanOne)
        } else {
            None
        }
    } else if mul_shared_factor_rule(rt, l, r, true, d) is Some {
        mul_shared_factor_rule(rt, l, r, true, d)
    } else if alg_add_componentwise_strict(rt, l, r, d) {
        Some(BuiltinRule::AddComponentwise)
    } else {
        div_same_denominator_rule(rt, l, r, true, d)
    }
}

/// The first weak rules: powers with a common exponent.
pub open spec fn weak_pow_rules(rt: &Runtime, l: ObjV, r: ObjV, d: nat) -> Option<BuiltinRule>
    decreases d, 2nat,
{
    if alg_pow_nonnegative_base(rt, l, r, false, d) {
        Some(BuiltinRule::PowMonotoneNonnegativeBase)
    } else if alg_pow_odd_exponent(rt, l, r, false, d) {
        Some(BuiltinRule::PowMonotoneOddExponent)
    } else if alg_pow_even_exponent_from_abs(rt, l, r, false, d) {
        Some(BuiltinRule::PowEvenExponentFromAbs)
    } else {
        None
    }
}

/// The next weak rules: sums and differences.
pub open spec fn weak_sum_rules(rt: &Runtime, l: ObjV, r: ObjV, d: nat) -> Option<BuiltinRule>
    decreases d, 2nat,
{
    if alg_add_common(rt, l, r, false, d) {
        Some(BuiltinRule::AlgebraAddCommonTerm)
    } else if alg_subtract_nonnegative(rt, l, r, false, d) {
        Some(BuiltinRule::AlgebraSubtractNonnegative)
    } else if alg_move_left_subtractor(rt, l, r, false, d) {
        Some(BuiltinRule::AlgebraMoveLeftSubtractor)
    } else if alg_self_plus(rt, l, r, false, d) {
        Some(BuiltinRule::AlgebraSelfPlusNonnegative)
    } else if alg_add_nonnegative(rt, l, r, false, d) {
        Some(BuiltinRule::AlgebraAddNonnegative)
    } else if alg_move_right_subtractor(rt, l, r, false, d) {
        Some(BuiltinRule::AlgebraMoveRightSubtractor)
    } else if alg_move_right_integer(rt, l, r, d) {
        Some(BuiltinRule::MoveRightIntegerSubtractor)
    } else if alg_sub_literal(l, r, false) {
        Some(BuiltinRule::SubtractIntegerLiteral)
    } else {
        None
    }
}

/// The last weak rules: products, componentwise sums and differences, and
/// quotients. A rule that claims the shape of the fact without its
/// subgoals ends the search.
pub open spec fn weak_product_rules(rt: &Runtime, l: ObjV, r: ObjV, d: nat) -> Option<BuiltinRule>
    decreases d, 2nat,
{
    if alg_mul_negative_by_signs(rt, l, r, false, d) {
        Some(BuiltinRule::MulNegativeBySigns)
    } else if alg_mul_positive_by_signs(rt, l, r, false, d) {
        Some(BuiltinRule::MulPositiveBySigns)
    } else if r matches ObjV::Mul(_, m) && *m == l {
        if alg_self_times(rt, l, r, false, d) {
            Some(BuiltinRule::SelfTimesGreaterThanOne)
        } else {
            None
        }
    } else if alg_mul_componentwise(rt, l, r, d) {
        Some(BuiltinRule::MulComponentwiseNonnegative)
    } else if mul_shared_factor_rule(rt, l, r, false, d) is Some {
        mul_shared_factor_rule(rt, l, r, false, d)
    } else if l is Add && r is Add {
        if alg_add_componentwise_weak(rt, l, r, d) {
            Some(BuiltinRule::AddComponentwise)
        } else {
            None
        }
    } else if l is Sub && r is Sub {
        if alg_sub_componentwise_weak(rt, l, r, d) {
            Some(BuiltinRule::AlgebraSubComponentwise)
        } else {
            None
        }
    } else {
        div_same_denominator_rule(rt, l, r, false, d)
    }
}

/// An integer literal's value is in the 128-bit range.
pub proof fn lemma_int_literal_in_range(o: ObjV)
    ensures
        int_literal_v(o) matches Some(v) ==> i128::MIN <= v <= i128::MAX,
{
    if let ObjV::Number(s) = o {
        lemma_i128_literal_range(s);
    }
}

/// The number literal `1`.
pub fn literal_one_obj() -> (r: Obj)
    ensures
        r@ == one_v(),
{
    let lit = "1";
    proof {
        reveal_strlit("1");
        assert(lit@ =~= seq!['1']);
    }
    Obj::Number(lit.to_string())
}

/// The number literal `2`.
pub fn literal_two_obj() -> (r: Obj)
    ensures
        r@ == two_v(),
{
    let lit = "2";
    proof {
        reveal_strlit("2");
        assert(lit@ =~= seq!['2']);
    }
    Obj::Number(lit.to_string())
}

/// The value of a number literal read as a 128-bit integer.
pub fn integer_value_of_number_obj(obj: &Obj) -> (r: Option<i128>)
    ensures
        match int_literal_v(obj@) {
            Some(v) => r == Some(v as i128),
            None => r is None,
        },
{
    match obj {
        Obj::Number(s) => parse_i128_literal(s.as_str()),
        _ => None,
    }
}

/// Whether the object is a positive integer literal.
pub fn obj_is_positive_integer_number(obj: &Obj) -> (r: bool)
    ensures
        r == positive_int_literal(obj@),
{
    proof {
        lemma_int_literal_in_range(obj@);
    }
    match integer_value_of_number_obj(obj) {
        Some(v) => v > 0,
        None => false,
    }
}

/// Whether the object is a nonnegative integer literal.
pub fn obj_is_nonnegative_integer_number(obj: &Obj) -> (r: bool)
    ensures
        r == nonnegative_int_literal(obj@),
{
    proof {
        lemma_int_literal_in_range(obj@);
    }
    match integer_value_of_number_obj(obj) {
        Some(v) => v >= 0,
        None => false,
    }
}

/// Whether the object is a positive odd integer literal.
pub fn obj_is_positive_odd_integer_number(obj: &Obj) -> (r: bool)
    ensures
        r == positive_odd_int_literal(obj@),
{
    proof {
        lemma_int_literal_in_range(obj@);
    }
    match integer_value_of_number_obj(obj) {
        Some(v) => v > 0 && (v as u128) % 2 == 1,
        None => false,
    }
}

/// Whether the object is a positive even integer literal.
pub fn obj_is_positive_even_integer_number(obj: &Obj) -> (r: bool)
    ensures
        r == positive_even_int_literal(obj@),
{
    proof {
        reveal(positive_even_int_literal);
    }
    match obj {
        Obj::Number(s) => {
            if !normalized_decimal_string_is_even_integer(s.as_str()) {
                return false;
            }
            obj_is_positive_integer_number(obj)
        },
        _ => false,
    }
}


impl Runtime {
    /// `a^n < b^n` from `0 <= a`, `0 <= b` and `a < b` (or `a^n <= b^n` from
    /// `0 <= a` and `a <= b`), for a positive integer `n`.
    pub fn try_pow_same_positive_integer_exponent_nonnegative_base(&self, left: &Obj, right: &Obj, strict: bool, verify_state: &VerifyState) -> (r: bool)
        ensures
            r == alg_pow_nonnegative_base(self, left@, right@, strict, verify_state.subgoal_depth as nat),
        decreases verify_state.subgoal_depth, 1nat,
    {
        proof {
            reveal(alg_pow_nonnegative_base);
        }
        match (left, right) {
            (Obj::Pow(a, n), Obj::Pow(b, m)) => {
                if !objs_equal(n, m) {
                    return false;
                }
                if !obj_is_positive_integer_number(n) {
                    let in_n_pos = AtomicFact::InFact(n.duplicate(), Obj::StandardSet(StandardSet::NPos));
                    if !self.verify_subgoal(&in_n_pos, verify_state) {
                        return false;
                    }
                }
                if !self.verify_order_subgoal(&AtomicFact::LessEqualFact(zero_obj(), a.duplicate()), verify_state) {
                    return false;
                }
                if strict && !self.verify_order_subgoal(&AtomicFact::LessEqualFact(zero_obj(), b.duplicate()), verify_state) {
                    return false;
                }
                self.verify_order_subgoal(&abs_order_subgoal(a.duplicate(), b.duplicate(), strict), verify_state)
            },
            _ => false,
        }
    }

    /// `a^n < b^n` from `a < b` (or `<=`), for a positive odd integer literal `n`.
    pub fn try_pow_same_positive_odd_integer_exponent(&self, left: &Obj, right: &Obj, strict: bool, verify_state: &VerifyState) -> (r: bool)
        ensures
            r == alg_pow_odd_exponent(self, left@, right@, strict, verify_state.subgoal_depth as nat),
        decreases verify_state.subgoal_depth, 1nat,
    {
        proof {
            reveal(alg_pow_odd_exponent);
        }
        match (left, right) {
            (Obj::Pow(a, n), Obj::Pow(b, m)) => {
                if !objs_equal(n, m) || !obj_is_positive_odd_integer_number(n) {
                    return false;
                }
                self.verify_order_subgoal(&abs_order_subgoal(a.duplicate(), b.duplicate(), strict), verify_state)
            },
            _ => false,
        }
    }

    /// `a^k < b^k` from a known `abs(a) < abs(b)` (or `<=`), for an even `k` in `N_pos`.
    pub fn try_pow_even_exponent_from_abs(&self, left: &Obj, right: &Obj, strict: bool, verify_state: &VerifyState) -> (r: bool)
        ensures
            r == alg_pow_even_exponent_from_abs(self, left@, right@, strict, verify_state.subgoal_depth as nat),
        decreases verify_state.subgoal_depth, 1nat,
    {
        proof {
            reveal(alg_pow_even_exponent_from_abs);
        }
        match (left, right) {
            (Obj::Pow(a, n), Obj::Pow(b, m)) => {
                if !objs_equal(n, m) {
                    return false;
                }
                if !obj_is_positive_even_integer_number(n) {
                    let in_n_pos = AtomicFact::InFact(n.duplicate(), Obj::StandardSet(StandardSet::NPos));
                    if !self.verify_subgoal(&in_n_pos, verify_state) {
                        return false;
                    }
                    let modulo = Obj::Mod(Box::new(n.duplicate()), Box::new(literal_two_obj()));
                    if !self.objs_known_equal(&modulo, &zero_obj()) {
                        return false;
                    }
                }
                let abs_fact = abs_order_subgoal(abs_obj(a.duplicate()), abs_obj(b.duplicate()), strict);
                self.fact_is_known(&abs_fact)
            },
            _ => false,
        }
    }


    /// `abs(x - n) < abs(x)` from `0 < x` and `0 <= x - n`, for a positive integer literal `n`.
    #[verifier::rlimit(80)]
    pub fn try_abs_sub_positive_integer(&self, left: &Obj, right: &Obj, verify_state: &VerifyState) -> (r: bool)
        ensures
            r == alg_abs_sub(self, left@, right@, verify_state.subgoal_depth as nat),
        decreases verify_state.subgoal_depth, 1nat,
    {
        proof {
            reveal(alg_abs_sub);
        }
        match (left, right) {
            (Obj::Abs(s), Obj::Abs(y)) => match &**s {
                Obj::Sub(x, nn) => {
                    assert(left@ == ObjV::Abs(Box::new(s@)) && right@ == ObjV::Abs(Box::new(y@)));
                    assert(s@ == ObjV::Sub(Box::new(x@), Box::new(nn@)));
                    if !objs_equal(x, y) || !obj_is_positive_integer_number(nn) {
                        return false;
                    }
                    let positive = self.verify_order_subgoal(&AtomicFact::LessFact(zero_obj(), y.duplicate()), verify_state);
                    let nonnegative = self.verify_order_subgoal(&AtomicFact::LessEqualFact(zero_obj(), s.duplicate()), verify_state);
                    positive && nonnegative
                },
                _ => false,
            },
            _ => false,
        }
    }

    /// `a / b < a` from `0 < a` and `1 < b`.
    pub fn try_div_by_greater_than_one(&self, left: &Obj, right: &Obj, verify_state: &VerifyState) -> (r: bool)
        ensures
            r == alg_div_greater_than_one(self, left@, right@, verify_state.subgoal_depth as nat),
        decreases verify_state.subgoal_depth, 1nat,
    {
        proof {
            reveal(alg_div_greater_than_one);
        }
        match left {
            Obj::Div(_, b) => {
                if !self.verify_order_subgoal(&AtomicFact::LessFact(zero_obj(), right.duplicate()), verify_state) {
                    return false;
                }
                self.verify_order_subgoal(&AtomicFact::LessFact(literal_one_obj(), b.duplicate()), verify_state)
            },
            _ => false,
        }
    }

    /// `a * b < 0` (or `<= 0`) from factors of opposite signs.
    pub fn try_mul_negative_by_signs(&self, left: &Obj, right: &Obj, strict: bool, verify_state: &VerifyState) -> (r: bool)
        ensures
            r == alg_mul_negative_by_signs(self, left@, right@, strict, verify_state.subgoal_depth as nat),
        decreases verify_state.subgoal_depth, 1nat,
    {
        proof {
            reveal(alg_mul_negative_by_signs);
        }
        if !objs_equal(right, &zero_obj()) {
            return false;
        }
        match left {
            Obj::Mul(x, y) => {
                let r1 = self.verify_order_subgoal(&abs_order_subgoal(x.duplicate(), zero_obj(), strict), verify_state);
                let r2 = self.verify_order_subgoal(&abs_order_subgoal(zero_obj(), y.duplicate(), strict), verify_state);
                if r1 && r2 {
                    return true;
                }
                let r3 = self.verify_order_subgoal(&abs_order_subgoal(y.duplicate(), zero_obj(), strict), verify_state);
                let r4 = self.verify_order_subgoal(&abs_order_subgoal(zero_obj(), x.duplicate(), strict), verify_state);
                r3 && r4
            },
            _ => false,
        }
    }

    /// `0 < a * b` (or `0 <=`) from factors of the same sign.
    pub fn try_mul_positive_by_signs(&self, left: &Obj, right: &Obj, strict: bool, verify_state: &VerifyState) -> (r: bool)
        ensures
            r == alg_mul_positive_by_signs(self, left@, right@, strict, verify_state.subgoal_depth as nat),
        decreases verify_state.subgoal_depth, 1nat,
    {
        proof {
            reveal(alg_mul_positive_by_signs);
        }
        if !objs_equal(left, &zero_obj()) {
            return false;
        }
        match right {
            Obj::Mul(x, y) => {
                let r1 = self.verify_order_subgoal(&abs_order_subgoal(zero_obj(), x.duplicate(), strict), verify_state);
                let r2 = self.verify_order_subgoal(&abs_order_subgoal(zero_obj(), y.duplicate(), strict), verify_state);
                if r1 && r2 {
                    return true;
                }
                let r3 = self.verify_order_subgoal(&abs_order_subgoal(x.duplicate(), zero_obj(), strict), verify_state);
                let r4 = self.verify_order_subgoal(&abs_order_subgoal(y.duplicate(), zero_obj(), strict), verify_state);
                r3 && r4
            },
            _ => false,
        }
    }

    /// `a < b * a` from `0 < a` and `1 < b` (or the weak forms).
    pub fn try_self_times_greater_than_one(&self, left: &Obj, right: &Obj, strict: bool, verify_state: &VerifyState) -> (r: bool)
        ensures
            r == alg_self_times(self, left@, right@, strict, verify_state.subgoal_depth as nat),
        decreases verify_state.subgoal_depth, 1nat,
    {
        proof {
            reveal(alg_self_times);
        }
        match right {
            Obj::Mul(b, _) => {
                if !self.verify_order_subgoal(&abs_order_subgoal(zero_obj(), left.duplicate(), strict), verify_state) {
                    return false;
                }
                self.verify_order_subgoal(&abs_order_subgoal(literal_one_obj(), b.duplicate(), strict), verify_state)
            },
            _ => false,
        }
    }

    /// `x1 * x2 <= y1 * y2` from nonnegative factors ordered pairwise, in either pairing.
    #[verifier::rlimit(80)]
    pub fn try_mul_le_componentwise_nonnegative_factors(&self, left: &Obj, right: &Obj, verify_state: &VerifyState) -> (r: bool)
        ensures
            r == alg_mul_componentwise(self, left@, right@, verify_state.subgoal_depth as nat),
        decreases verify_state.subgoal_depth, 1nat,
    {
        proof {
            reveal(alg_mul_componentwise);
        }
        match (left, right) {
            (Obj::Mul(x1, x2), Obj::Mul(y1, y2)) => {
                let n1 = self.verify_order_subgoal(&AtomicFact::LessEqualFact(zero_obj(), x1.duplicate()), verify_state);
                let n2 = self.verify_order_subgoal(&AtomicFact::LessEqualFact(zero_obj(), x2.duplicate()), verify_state);
                let n3 = self.verify_order_subgoal(&AtomicFact::LessEqualFact(zero_obj(), y1.duplicate()), verify_state);
                let n4 = self.verify_order_subgoal(&AtomicFact::LessEqualFact(zero_obj(), y2.duplicate()), verify_state);
                if !(n1 && n2 && n3 && n4) {
                    return false;
                }
                let straight = self.verify_order_subgoal(&AtomicFact::LessEqualFact(x1.duplicate(), y1.duplicate()), verify_state)
                    && self.verify_order_subgoal(&AtomicFact::LessEqualFact(x2.duplicate(), y2.duplicate()), verify_state);
                if straight {
                    return true;
                }
                self.verify_order_subgoal(&AtomicFact::LessEqualFact(x1.duplicate(), y2.duplicate()), verify_state)
                    && self.verify_order_subgoal(&AtomicFact::LessEqualFact(x2.duplicate(), y1.duplicate()), verify_state)
            },
            _ => false,
        }
    }

    /// `k * u < k * v` (or `u * k < v * k`): from `0 < k` and `u < v`, or
    /// from `k < 0` and `v < u` (and the weak forms).
    #[verifier::rlimit(80)]
    pub fn try_mul_shared_factor(&self, left: &Obj, right: &Obj, strict: bool, verify_state: &VerifyState) -> (r: Option<BuiltinRule>)
        ensures
            r == mul_shared_factor_rule(self, left@, right@, strict, verify_state.subgoal_depth as nat),
        decreases verify_state.subgoal_depth, 1nat,
    {
        proof {
            reveal(mul_shared_factor_rule);
        }
        match (left, right) {
            (Obj::Mul(a1, a2), Obj::Mul(b1, b2)) => {
                if objs_equal(a1, b1) {
                    if self.verify_order_subgoal(&abs_order_subgoal(zero_obj(), a1.duplicate(), strict), verify_state)
                        && self.verify_order_subgoal(&abs_order_subgoal(a2.duplicate(), b2.duplicate(), strict), verify_state) {
                        return Some(BuiltinRule::MulSharedFactorPositive);
                    }
                    if self.verify_order_subgoal(&abs_order_subgoal(a1.duplicate(), zero_obj(), strict), verify_state)
                        && self.verify_order_subgoal(&abs_order_subgoal(b2.duplicate(), a2.duplicate(), strict), verify_state) {
                        return Some(BuiltinRule::MulSharedFactorNegative);
                    }
                }
                if objs_equal(a2, b2) {
                    if self.verify_order_subgoal(&abs_order_subgoal(zero_obj(), a2.duplicate(), strict), verify_state)
                        && self.verify_order_subgoal(&abs_order_subgoal(a1.duplicate(), b1.duplicate(), strict), verify_state) {
                        return Some(BuiltinRule::MulSharedFactorPositive);
                    }
                    if self.verify_order_subgoal(&abs_order_subgoal(a2.duplicate(), zero_obj(), strict), verify_state)
                        && self.verify_order_subgoal(&abs_order_subgoal(b1.duplicate(), a1.duplicate(), strict), verify_state) {
                        return Some(BuiltinRule::MulSharedFactorNegative);
                    }
                }
                None
            },
            _ => None,
        }
    }

    /// `a + c < b + d` from the sides ordered pairwise, one of them strictly.
    pub fn try_add_componentwise_strict(&self, left: &Obj, right: &Obj, verify_state: &VerifyState) -> (r: bool)
        ensures
            r == alg_add_componentwise_strict(self, left@, right@, verify_state.subgoal_depth as nat),
        decreases verify_state.subgoal_depth, 1nat,
    {
        proof {
            reveal(alg_add_componentwise_strict);
        }
        match (left, right) {
            (Obj::Add(a, c), Obj::Add(b, e)) => {
                let ab_strict = self.verify_order_subgoal(&AtomicFact::LessFact(a.duplicate(), b.duplicate()), verify_state);
                let ce_strict = self.verify_order_subgoal(&AtomicFact::LessFact(c.duplicate(), e.duplicate()), verify_state);
                if ab_strict && ce_strict {
                    return true;
                }
                let ce_weak = self.verify_order_subgoal(&AtomicFact::LessEqualFact(c.duplicate(), e.duplicate()), verify_state);
                if ab_strict && ce_weak {
                    return true;
                }
                let ab_weak = self.verify_order_subgoal(&AtomicFact::LessEqualFact(a.duplicate(), b.duplicate()), verify_state);
                ab_weak && ce_strict
            },
            _ => false,
        }
    }

    /// `a + c <= b + d` from `a <= b` and `c <= d`.
    pub fn try_add_componentwise_weak(&self, left: &Obj, right: &Obj, verify_state: &VerifyState) -> (r: bool)
        ensures
            r == alg_add_componentwise_weak(self, left@, right@, verify_state.subgoal_depth as nat),
        decreases verify_state.subgoal_depth, 1nat,
    {
        proof {
            reveal(alg_add_componentwise_weak);
        }
        match (left, right) {
            (Obj::Add(a, c), Obj::Add(b, e)) => {
                self.verify_order_subgoal(&AtomicFact::LessEqualFact(a.duplicate(), b.duplicate()), verify_state)
                    && self.verify_order_subgoal(&AtomicFact::LessEqualFact(c.duplicate(), e.duplicate()), verify_state)
            },
            _ => false,
        }
    }

    /// `a / c < b / c` from `0 < c` and `a < b`, or from `c < 0` and `b < a`
    /// (and the weak forms).
    pub fn try_div_same_denominator(&self, left: &Obj, right: &Obj, strict: bool, verify_state: &VerifyState) -> (r: Option<BuiltinRule>)
        ensures
            r == div_same_denominator_rule(self, left@, right@, strict, verify_state.subgoal_depth as nat),
        decreases verify_state.subgoal_depth, 1nat,
    {
        proof {
            reveal(div_same_denominator_rule);
        }
        match (left, right) {
            (Obj::Div(a, c1), Obj::Div(b, c2)) => {
                if !objs_equal(c1, c2) {
                    return None;
                }
                if self.verify_order_subgoal(&AtomicFact::LessFact(zero_obj(), c1.duplicate()), verify_state)
                    && self.verify_order_subgoal(&abs_order_subgoal(a.duplicate(), b.duplicate(), strict), verify_state) {
                    return Some(BuiltinRule::DivSameDenominatorPositive);
                }
                if self.verify_order_subgoal(&AtomicFact::LessFact(c1.duplicate(), zero_obj()), verify_state)
                    && self.verify_order_subgoal(&abs_order_subgoal(b.duplicate(), a.duplicate(), strict), verify_state) {
                    return Some(BuiltinRule::DivSameDenominatorNegative);
                }
                None
            },
            _ => None,
        }
    }


}

} // verus!
