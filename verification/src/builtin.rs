//! The builtin rules for facts other than equalities: set relations, type
//! predicates, order, membership and inequality. A rule may ask for other
//! facts first; those subgoals are checked against the known facts and then
//! by the builtin rules again, one level deeper.
use vstd::prelude::*;
use crate::obj::{Obj, ObjV, StandardSet, objs_equal, lemma_view_list, view_list};
use crate::fact::{AtomicFact, AtomicFactV};
use crate::runtime::{
    Runtime, StmtResult, VerifiedBy, BuiltinRule, RuntimeError, VerifyState, is_known,
    known_result,
};
use crate::standard_sets::{
    standard_set_subset, standard_set_is_subset_eq, standard_set_holds, NumberKind, NumberSign,
};
use crate::decimal::{
    NumberCompareResult, decimal_compare, decimal_sign, compare_number_strings,
    compare_normalized_number_str_to_zero, normalized_decimal_string_is_integer, all_zero,
    parse_parts, lemma_magnitude_zero, frac_len, digits_value, normalized_decimal_string_is_even_integer,
};
use crate::div_elimination::div_elimination;
use crate::evaluate::{resolved_literal, resolve_number_literal};
use crate::lower_bound::lower_bound_rule;
use crate::log_order::log_order_rule;
use crate::not_equal_extra::{not_equal_known_rule, not_equal_zero_rule};
use crate::in_extra::in_standard_set_rule;
use crate::range_membership::range_membership_rule;
use crate::order_extra::{one_le_from_n_nonzero, one_le_from_z_positive, sqrt_monotone, power_sign_rule, zero_product_rule};
use crate::order_algebra::{
    strict_pow_rules, strict_sum_rules, strict_product_rules, weak_pow_rules, weak_sum_rules, weak_product_rules,
};
use crate::order_normalize::{normalized_order, normalize_positive_order_atomic_fact};
use crate::abs_order::{
    abs_v, neg_v, is_negation_of, is_add_of_abs_pair, is_abs_of_add_pair, is_abs_of_sub_pair,
    negated_arg, order_fact_v, neg_obj, abs_obj, obj_is_negation_of, obj_is_add_of_abs_pair,
    obj_is_abs_of_add_pair, obj_is_abs_of_sub_pair, abs_order_subgoal, peel_negation, peel_abs,
};

verus! {

broadcast use vstd::string::group_string_axioms;

/// Success by the given builtin rule.
pub open spec fn builtin_success(rule: BuiltinRule) -> StmtResult {
    StmtResult::FactualStmtSuccess(VerifiedBy::Builtin(rule))
}

/// Success by the rule, if there is one.
pub open spec fn rule_result(rule: Option<BuiltinRule>) -> StmtResult {
    match rule {
        Some(r) => builtin_success(r),
        None => StmtResult::StmtUnknown,
    }
}

/// The empty list set `{}`.
pub open spec fn empty_set_v() -> ObjV {
    ObjV::ListSet(Seq::empty())
}

/// `a = b` or `b = a` is known.
pub open spec fn known_equal(rt: &Runtime, a: ObjV, b: ObjV) -> bool {
    is_known(rt, AtomicFactV::EqualFact(a, b)) || is_known(rt, AtomicFactV::EqualFact(b, a))
}

// ------------------------------------------------------------------
// Set relations: a subset fact and its dual superset fact
// ------------------------------------------------------------------

/// `l subset r`: standard sets by their inclusion chain, an object is a
/// subset of itself, and the known dual fact `r superset l`.
pub open spec fn subset_result(rt: &Runtime, l: ObjV, r: ObjV) -> StmtResult {
    if l matches ObjV::StandardSet(a) && r matches ObjV::StandardSet(b) && standard_set_subset(a, b) {
        builtin_success(BuiltinRule::StandardSetSubset)
    } else if l == r {
        builtin_success(BuiltinRule::SubsetSupersetDuality)
    } else if is_known(rt, AtomicFactV::SupersetFact(r, l)) {
        builtin_success(BuiltinRule::SubsetSupersetDuality)
    } else {
        StmtResult::StmtUnknown
    }
}

/// `l superset r`, the mirror image of [`subset_result`].
pub open spec fn superset_result(rt: &Runtime, l: ObjV, r: ObjV) -> StmtResult {
    if l matches ObjV::StandardSet(a) && r matches ObjV::StandardSet(b) && standard_set_subset(b, a) {
        builtin_success(BuiltinRule::StandardSetSuperset)
    } else if l == r {
        builtin_success(BuiltinRule::SubsetSupersetDuality)
    } else if is_known(rt, AtomicFactV::SubsetFact(r, l)) {
        builtin_success(BuiltinRule::SubsetSupersetDuality)
    } else {
        StmtResult::StmtUnknown
    }
}

/// `not l subset r` from the known dual `not r superset l`.
pub open spec fn not_subset_result(rt: &Runtime, l: ObjV, r: ObjV) -> StmtResult {
    if is_known(rt, AtomicFactV::NotSupersetFact(r, l)) {
        builtin_success(BuiltinRule::SubsetSupersetDuality)
    } else {
        StmtResult::StmtUnknown
    }
}

/// `not l superset r` from the known dual `not r subset l`.
pub open spec fn not_superset_result(rt: &Runtime, l: ObjV, r: ObjV) -> StmtResult {
    if is_known(rt, AtomicFactV::NotSubsetFact(r, l)) {
        builtin_success(BuiltinRule::SubsetSupersetDuality)
    } else {
        StmtResult::StmtUnknown
    }
}

// ------------------------------------------------------------------
// Type predicates that need no subgoal
// ------------------------------------------------------------------

/// `$is_cart(s)` holds of every `cart(...)` object.
pub open spec fn is_cart_result(s: ObjV) -> StmtResult {
    if s is Cart {
        builtin_success(BuiltinRule::CartIsCart)
    } else {
        StmtResult::StmtUnknown
    }
}

/// `$is_tuple(s)` holds of every tuple with at least two components.
pub open spec fn is_tuple_result(s: ObjV) -> StmtResult {
    if s matches ObjV::Tuple(v) && v.len() >= 2 {
        builtin_success(BuiltinRule::TupleIsTuple)
    } else {
        StmtResult::StmtUnknown
    }
}

/// `not $is_nonempty_set(s)`: the empty list set, or a set known to equal it.
pub open spec fn not_nonempty_result(rt: &Runtime, s: ObjV) -> StmtResult {
    if s matches ObjV::ListSet(v) && v.len() == 0 {
        builtin_success(BuiltinRule::NotNonemptyEmptyListSet)
    } else if known_equal(rt, s, empty_set_v()) {
        builtin_success(BuiltinRule::NotNonemptyFromEqualEmptySet)
    } else {
        StmtResult::StmtUnknown
    }
}

// ------------------------------------------------------------------
// The checks that recurse into subgoals
// ------------------------------------------------------------------

/// A subgoal holds: it is known, or there is a level left for it and on
/// that level a builtin rule proves it.
pub open spec fn subgoal_holds(rt: &Runtime, g: AtomicFactV, d: nat) -> bool
    decreases d, 0nat,
{
    is_known(rt, g) || (d > 0 && known_then_builtin_result(rt, g, (d - 1) as nat).spec_is_true())
}

/// Each set of the list is nonempty, as a subgoal.
pub open spec fn all_nonempty(rt: &Runtime, v: Seq<ObjV>, d: nat) -> bool
    decreases d, 1nat,
{
    forall|i: int| 0 <= i < v.len() ==> subgoal_holds(rt, AtomicFactV::IsNonemptySetFact(#[trigger] v[i]), d)
}

/// Each set of the list is finite, as a subgoal.
pub open spec fn all_finite(rt: &Runtime, v: Seq<ObjV>, d: nat) -> bool
    decreases d, 1nat,
{
    forall|i: int| 0 <= i < v.len() ==> subgoal_holds(rt, AtomicFactV::IsFiniteSetFact(#[trigger] v[i]), d)
}

/// `$is_nonempty_set(s)`.
pub open spec fn nonempty_result(rt: &Runtime, s: ObjV, d: nat) -> StmtResult
    decreases d, 2nat,
{
    if is_known(rt, AtomicFactV::NotEqualFact(s, empty_set_v())) {
        builtin_success(BuiltinRule::NonemptyFromNotEqualEmptySet)
    } else {
        match s {
            ObjV::StandardSet(_) => builtin_success(BuiltinRule::NonemptyStandardSet),
            ObjV::ListSet(v) => if v.len() == 0 {
                StmtResult::StmtUnknown
            } else {
                builtin_success(BuiltinRule::NonemptyListSet)
            },
            ObjV::PowerSet(_) => builtin_success(BuiltinRule::NonemptyPowerSet),
            ObjV::ClosedRange(a, b) => if subgoal_holds(rt, AtomicFactV::LessEqualFact(*a, *b), d) {
                builtin_success(BuiltinRule::NonemptyClosedRange)
            } else {
                StmtResult::StmtUnknown
            },
            ObjV::Interval(a, b, lc, rc) => {
                let order = if lc && rc {
                    AtomicFactV::LessEqualFact(*a, *b)
                } else {
                    AtomicFactV::LessFact(*a, *b)
                };
                if subgoal_holds(rt, order, d) {
                    builtin_success(BuiltinRule::NonemptyInterval)
                } else {
                    StmtResult::StmtUnknown
                }
            },
            ObjV::Union(a, b) => if subgoal_holds(rt, AtomicFactV::IsNonemptySetFact(*a), d) {
                builtin_success(BuiltinRule::NonemptyUnionLeft)
            } else if subgoal_holds(rt, AtomicFactV::IsNonemptySetFact(*b), d) {
                builtin_success(BuiltinRule::NonemptyUnionRight)
            } else {
                StmtResult::StmtUnknown
            },
            ObjV::Cart(v) => if all_nonempty(rt, v, d) {
                builtin_success(BuiltinRule::NonemptyCart)
            } else {
                StmtResult::StmtUnknown
            },
            ObjV::FiniteSeqSet(set, _) => if subgoal_holds(rt, AtomicFactV::IsNonemptySetFact(*set), d) {
                builtin_success(BuiltinRule::NonemptyFiniteSeqSet)
            } else {
                StmtResult::StmtUnknown
            },
            ObjV::SeqSet(set) => if subgoal_holds(rt, AtomicFactV::IsNonemptySetFact(*set), d) {
                builtin_success(BuiltinRule::NonemptySeqSet)
            } else {
                StmtResult::StmtUnknown
            },
            ObjV::MatrixSet(set, _, _) => if subgoal_holds(rt, AtomicFactV::IsNonemptySetFact(*set), d) {
                builtin_success(BuiltinRule::NonemptyMatrixSet)
            } else {
                StmtResult::StmtUnknown
            },
            _ => StmtResult::StmtUnknown,
        }
    }
}

/// `$is_finite_set(s)`.
pub open spec fn finite_result(rt: &Runtime, s: ObjV, d: nat) -> StmtResult
    decreases d, 2nat,
{
    match s {
        ObjV::ListSet(_) => builtin_success(BuiltinRule::FiniteListSet),
        ObjV::ClosedRange(_, _) => builtin_success(BuiltinRule::FiniteClosedRange),
        ObjV::Range(_, _) => builtin_success(BuiltinRule::FiniteRange),
        ObjV::Union(a, b) => if subgoal_holds(rt, AtomicFactV::IsFiniteSetFact(*a), d)
            && subgoal_holds(rt, AtomicFactV::IsFiniteSetFact(*b), d) {
            builtin_success(BuiltinRule::FiniteUnion)
        } else {
            StmtResult::StmtUnknown
        },
        ObjV::Intersect(a, b) => if subgoal_holds(rt, AtomicFactV::IsFiniteSetFact(*a), d)
            && subgoal_holds(rt, AtomicFactV::IsFiniteSetFact(*b), d) {
            builtin_success(BuiltinRule::FiniteIntersect)
        } else {
            StmtResult::StmtUnknown
        },
        ObjV::SetMinus(a, _) => if subgoal_holds(rt, AtomicFactV::IsFiniteSetFact(*a), d) {
            builtin_success(BuiltinRule::FiniteSetMinus)
        } else {
            StmtResult::StmtUnknown
        },
        ObjV::SetDiff(a, b) => if subgoal_holds(rt, AtomicFactV::IsFiniteSetFact(*a), d)
            && subgoal_holds(rt, AtomicFactV::IsFiniteSetFact(*b), d) {
            builtin_success(BuiltinRule::FiniteSetDiff)
        } else {
            StmtResult::StmtUnknown
        },
        ObjV::Cart(v) => if all_finite(rt, v, d) {
            builtin_success(BuiltinRule::FiniteCart)
        } else {
            StmtResult::StmtUnknown
        },
        _ => StmtResult::StmtUnknown,
    }
}

// ------------------------------------------------------------------
// Order facts
// ------------------------------------------------------------------

/// The literal `0`.
pub open spec fn zero_v() -> ObjV {
    ObjV::Number(seq!['0'])
}

/// A number literal whose value is zero.
pub open spec fn resolves_to_zero(o: ObjV) -> bool {
    o matches ObjV::Number(s) && decimal_sign(s) == NumberCompareResult::Equal
}

/// A number literal whose value is one.
pub open spec fn resolves_to_one(o: ObjV) -> bool {
    o matches ObjV::Number(s) && decimal_compare(s, seq!['1']) == NumberCompareResult::Equal
}

/// `n >= c` or `c <= n`, where `c` is the literal zero (or one, when
/// `one` holds): `n` in `N` (or `N_pos`) as a subgoal.
pub open spec fn bound_from_membership(rt: &Runtime, f: AtomicFactV, one: bool, d: nat) -> bool
    decreases d, 1nat,
{
    let set = ObjV::StandardSet(if one { StandardSet::NPos } else { StandardSet::N });
    match f {
        AtomicFactV::GreaterEqualFact(l, r) => (if one { resolves_to_one(r) } else { resolves_to_zero(r) })
            && subgoal_holds(rt, AtomicFactV::InFact(l, set), d),
        AtomicFactV::LessEqualFact(l, r) => (if one { resolves_to_one(l) } else { resolves_to_zero(l) })
            && subgoal_holds(rt, AtomicFactV::InFact(r, set), d),
        _ => false,
    }
}

/// The negation of the complementary order: `a > b` from `not a <= b`, and so on.
pub open spec fn negated_complement(f: AtomicFactV) -> Option<AtomicFactV> {
    match f {
        AtomicFactV::GreaterFact(l, r) => Some(AtomicFactV::NotLessEqualFact(l, r)),
        AtomicFactV::LessFact(l, r) => Some(AtomicFactV::NotGreaterEqualFact(l, r)),
        AtomicFactV::GreaterEqualFact(l, r) => Some(AtomicFactV::NotLessFact(l, r)),
        AtomicFactV::LessEqualFact(l, r) => Some(AtomicFactV::NotGreaterFact(l, r)),
        _ => None,
    }
}

/// The two order facts equivalent to a negated order: `not a < b` is `b <= a`
/// and `a >= b`, and so on.
pub open spec fn equivalent_orders(f: AtomicFactV) -> Option<(AtomicFactV, AtomicFactV)> {
    match f {
        AtomicFactV::NotLessFact(l, r) => Some((AtomicFactV::LessEqualFact(r, l), AtomicFactV::GreaterEqualFact(l, r))),
        AtomicFactV::NotGreaterFact(l, r) => Some((AtomicFactV::LessEqualFact(l, r), AtomicFactV::GreaterEqualFact(r, l))),
        AtomicFactV::NotLessEqualFact(l, r) => Some((AtomicFactV::LessFact(r, l), AtomicFactV::GreaterFact(l, r))),
        AtomicFactV::NotGreaterEqualFact(l, r) => Some((AtomicFactV::LessFact(l, r), AtomicFactV::GreaterFact(r, l))),
        _ => None,
    }
}

/// An order subgoal: known, or (one level deeper) proved by the order rules.
pub open spec fn order_subgoal(rt: &Runtime, g: AtomicFactV, d: nat) -> bool
    decreases d, 0nat,
{
    is_known(rt, g) || (d > 0 && order_result(rt, g, (d - 1) as nat).spec_is_true())
}

/// `abs(arg) <= bound` (or `<`) is known.
pub open spec fn known_abs_compare(rt: &Runtime, arg: ObjV, bound: ObjV, strict: bool) -> bool {
    is_known(rt, order_fact_v(abs_v(arg), bound, strict))
}

/// `abs(x) <= b` (or `<`) from `x <= b` and `-x <= b` (or `<`).
pub open spec fn abs_upper_bound(rt: &Runtime, l: ObjV, r: ObjV, strict: bool, d: nat) -> bool
    decreases d, 1nat,
{
    l matches ObjV::Abs(x) && subgoal_holds(rt, order_fact_v(*x, r, strict), d)
        && subgoal_holds(rt, order_fact_v(neg_v(*x), r, strict), d)
}

/// Bounds on `l` read off a known comparison between absolute values.
pub open spec fn abs_bound_from_abs_compare(rt: &Runtime, l: ObjV, r: ObjV, strict: bool, d: nat) -> Option<BuiltinRule>
    decreases d, 1nat,
{
    let zero = zero_v();
    let neg_first = match negated_arg(l) {
        Some(inner) => match inner {
            ObjV::Abs(y) => if known_abs_compare(rt, r, abs_v(*y), strict) {
                Some(BuiltinRule::AbsNegAbsBoundFromAbsCompare)
            } else {
                None
            },
            _ => if known_abs_compare(rt, r, abs_v(inner), strict)
                && subgoal_holds(rt, AtomicFactV::GreaterEqualFact(inner, zero), d) {
                Some(BuiltinRule::AbsNegBoundFromAbsCompareAndSign)
            } else {
                None
            },
        },
        None => None,
    };
    if neg_first is Some {
        neg_first
    } else if known_abs_compare(rt, l, r, strict) {
        Some(BuiltinRule::AbsBoundFromAbsCompare)
    } else if negated_arg(l) matches Some(arg) && known_abs_compare(rt, arg, r, strict) {
        Some(BuiltinRule::AbsNegArgBoundFromAbsCompare)
    } else if known_abs_compare(rt, r, abs_v(l), strict)
        && subgoal_holds(rt, AtomicFactV::LessEqualFact(l, zero), d) {
        Some(BuiltinRule::AbsLowerFromAbsCompareAndSign)
    } else if negated_arg(r) matches Some(y) && known_abs_compare(rt, l, abs_v(y), strict)
        && subgoal_holds(rt, AtomicFactV::LessEqualFact(y, zero), d) {
        Some(BuiltinRule::AbsNegUpperFromAbsCompareAndSign)
    } else if known_abs_compare(rt, l, abs_v(r), strict)
        && subgoal_holds(rt, AtomicFactV::GreaterEqualFact(r, zero), d) {
        Some(BuiltinRule::AbsUpperFromAbsCompareAndSign)
    } else {
        None
    }
}

/// The weak absolute-value rules for `l <= r`.
pub open spec fn abs_weak_rule(rt: &Runtime, l: ObjV, r: ObjV, d: nat) -> Option<BuiltinRule>
    decreases d, 2nat,
{
    if r matches ObjV::Abs(a) && (l == *a || is_negation_of(l, *a)) {
        Some(BuiltinRule::AbsLowerBound)
    } else if l matches ObjV::Abs(a) && (match *a {
        ObjV::Add(x, y) => is_add_of_abs_pair(r, *x, *y),
        ObjV::Sub(x, y) => is_add_of_abs_pair(r, *x, *y),
        _ => false,
    }) {
        Some(BuiltinRule::AbsTriangle)
    } else if l matches ObjV::Sub(p, q) && *p matches ObjV::Abs(x) && *q matches ObjV::Abs(y)
        && (is_abs_of_add_pair(r, *x, *y) || is_abs_of_sub_pair(r, *x, *y)) {
        Some(BuiltinRule::AbsReverseTriangle)
    } else if abs_upper_bound(rt, l, r, false, d) {
        Some(BuiltinRule::AbsUpperBound)
    } else {
        abs_bound_from_abs_compare(rt, l, r, false, d)
    }
}

/// The strict absolute-value rules for `l < r`.
pub open spec fn abs_strict_rule(rt: &Runtime, l: ObjV, r: ObjV, d: nat) -> Option<BuiltinRule>
    decreases d, 2nat,
{
    if abs_upper_bound(rt, l, r, true, d) {
        Some(BuiltinRule::AbsUpperBoundStrict)
    } else {
        abs_bound_from_abs_compare(rt, l, r, true, d)
    }
}

/// The two operands of a difference.
pub open spec fn sub_parts(o: ObjV) -> Option<(ObjV, ObjV)> {
    match o {
        ObjV::Sub(a, b) => Some((*a, *b)),
        _ => None,
    }
}

/// The two operands of a sum.
pub open spec fn add_parts(o: ObjV) -> Option<(ObjV, ObjV)> {
    match o {
        ObjV::Add(a, b) => Some((*a, *b)),
        _ => None,
    }
}

/// For two sums with a common term, the two remaining terms.
pub open spec fn add_common_remaining_v(l: ObjV, r: ObjV) -> Option<(ObjV, ObjV)> {
    match (l, r) {
        (ObjV::Add(l1, l2), ObjV::Add(r1, r2)) => if *l1 == *r1 {
            Some((*l2, *r2))
        } else if *l1 == *r2 {
            Some((*l2, *r1))
        } else if *l2 == *r1 {
            Some((*l1, *r2))
        } else if *l2 == *r2 {
            Some((*l1, *r1))
        } else {
            None
        },
        _ => None,
    }
}

/// For `a <= a + b` or `a <= b + a`, the other addend `b`.
pub open spec fn other_addend(l: ObjV, r: ObjV) -> Option<ObjV> {
    match r {
        ObjV::Add(u, v) => if *u == l {
            Some(*v)
        } else if *v == l {
            Some(*u)
        } else {
            None
        },
        _ => None,
    }
}

/// `u + a <= u + b` from `a <= b` (and the strict form).
#[verifier::opaque]
pub open spec fn alg_add_common(rt: &Runtime, l: ObjV, r: ObjV, strict: bool, d: nat) -> bool
    decreases d, 1nat,
{
    add_common_remaining_v(l, r) matches Some((a, b)) && order_subgoal(rt, order_fact_v(a, b, strict), d)
}

/// `a - d < b - c` from `a < b` and `c <= d`, or from `a <= b` and `c < d`.
#[verifier::opaque]
pub open spec fn alg_sub_componentwise_strict(rt: &Runtime, l: ObjV, r: ObjV, d: nat) -> bool
    decreases d, 1nat,
{
    sub_parts(l) matches Some((a, dd)) && sub_parts(r) matches Some((b, c))
        && ((order_subgoal(rt, AtomicFactV::LessFact(a, b), d) && order_subgoal(rt, AtomicFactV::LessEqualFact(c, dd), d))
        || (order_subgoal(rt, AtomicFactV::LessEqualFact(a, b), d) && order_subgoal(rt, AtomicFactV::LessFact(c, dd), d)))
}

/// `a - d <= b - c` from `a <= b` and `c <= d`.
#[verifier::opaque]
pub open spec fn alg_sub_componentwise_weak(rt: &Runtime, l: ObjV, r: ObjV, d: nat) -> bool
    decreases d, 1nat,
{
    sub_parts(l) matches Some((a, dd)) && sub_parts(r) matches Some((b, c))
        && order_subgoal(rt, AtomicFactV::LessEqualFact(a, b), d) && order_subgoal(rt, AtomicFactV::LessEqualFact(c, dd), d)
}

/// `a - c <= b` from `a <= b` and `0 <= c` (and the strict form).
#[verifier::opaque]
pub open spec fn alg_subtract_nonnegative(rt: &Runtime, l: ObjV, r: ObjV, strict: bool, d: nat) -> bool
    decreases d, 1nat,
{
    sub_parts(l) matches Some((a, c)) && order_subgoal(rt, order_fact_v(a, r, strict), d)
        && order_subgoal(rt, AtomicFactV::LessEqualFact(zero_v(), c), d)
}

/// `a - c < b` from `a <= b` and `0 < c`.
#[verifier::opaque]
pub open spec fn alg_subtract_positive(rt: &Runtime, l: ObjV, r: ObjV, d: nat) -> bool
    decreases d, 1nat,
{
    sub_parts(l) matches Some((a, c)) && order_subgoal(rt, AtomicFactV::LessEqualFact(a, r), d)
        && order_subgoal(rt, AtomicFactV::LessFact(zero_v(), c), d)
}

/// `a - c <= b` from `a <= b + c` (and the strict form).
#[verifier::opaque]
pub open spec fn alg_move_left_subtractor(rt: &Runtime, l: ObjV, r: ObjV, strict: bool, d: nat) -> bool
    decreases d, 1nat,
{
    sub_parts(l) matches Some((a, c)) && order_subgoal(rt, order_fact_v(a, ObjV::Add(Box::new(r), Box::new(c)), strict), d)
}

/// `a <= a + b` from `0 <= b` (and the strict form).
#[verifier::opaque]
pub open spec fn alg_self_plus(rt: &Runtime, l: ObjV, r: ObjV, strict: bool, d: nat) -> bool
    decreases d, 1nat,
{
    other_addend(l, r) matches Some(b) && order_subgoal(rt, order_fact_v(zero_v(), b, strict), d)
}

/// `a <= u + v` from `a <= u` and `0 <= v`, or from `a <= v` and `0 <= u`
/// (and the strict forms).
#[verifier::opaque]
pub open spec fn alg_add_nonnegative(rt: &Runtime, l: ObjV, r: ObjV, strict: bool, d: nat) -> bool
    decreases d, 1nat,
{
    add_parts(r) matches Some((u, v)) && ((order_subgoal(rt, order_fact_v(l, u, strict), d)
        && order_subgoal(rt, AtomicFactV::LessEqualFact(zero_v(), v), d)) || (order_subgoal(rt, order_fact_v(l, v, strict), d)
        && order_subgoal(rt, AtomicFactV::LessEqualFact(zero_v(), u), d)))
}

/// `a <= x - c` from `a + c <= x` (and the strict form).
#[verifier::opaque]
pub open spec fn alg_move_right_subtractor(rt: &Runtime, l: ObjV, r: ObjV, strict: bool, d: nat) -> bool
    decreases d, 1nat,
{
    sub_parts(r) matches Some((x, c)) && order_subgoal(rt, order_fact_v(ObjV::Add(Box::new(l), Box::new(c)), x, strict), d)
}

/// The algebraic rules, after normalizing to `<=` or `<`.
pub open spec fn algebra_rule(rt: &Runtime, f: AtomicFactV, d: nat) -> Option<BuiltinRule>
    decreases d, 3nat,
{
    match normalized_order(f) {
        Some(AtomicFactV::LessEqualFact(l, r)) => if weak_pow_rules(rt, l, r, d) is Some {
            weak_pow_rules(rt, l, r, d)
        } else if weak_sum_rules(rt, l, r, d) is Some {
            weak_sum_rules(rt, l, r, d)
        } else {
            weak_product_rules(rt, l, r, d)
        },
        Some(AtomicFactV::LessFact(l, r)) => if strict_pow_rules(rt, l, r, d) is Some {
            strict_pow_rules(rt, l, r, d)
        } else if strict_sum_rules(rt, l, r, d) is Some {
            strict_sum_rules(rt, l, r, d)
        } else {
            strict_product_rules(rt, l, r, d)
        },
        _ => None,
    }
}

/// `0 <= abs(x)`.
pub open spec fn zero_le_abs(f: AtomicFactV) -> bool {
    normalized_order(f) matches Some(AtomicFactV::LessEqualFact(z, e)) && z == zero_v() && e is Abs
}

/// `0 <= sqrt(x)` from `0 <= x` as a subgoal.
pub open spec fn zero_le_sqrt(rt: &Runtime, f: AtomicFactV, d: nat) -> bool
    decreases d, 1nat,
{
    normalized_order(f) matches Some(AtomicFactV::LessEqualFact(z, e)) && e matches ObjV::Sqrt(x)
        && z == zero_v() && subgoal_holds(rt, AtomicFactV::LessEqualFact(zero_v(), *x), d)
}

/// `0 < sqrt(x)` from `0 < x` as a subgoal.
pub open spec fn zero_lt_sqrt(rt: &Runtime, f: AtomicFactV, d: nat) -> bool
    decreases d, 1nat,
{
    normalized_order(f) matches Some(AtomicFactV::LessFact(z, e)) && e matches ObjV::Sqrt(x)
        && z == zero_v() && subgoal_holds(rt, AtomicFactV::LessFact(zero_v(), *x), d)
}

/// `0 <= u - v` from `v <= u`, and `0 < u - v` from `v < u`.
pub open spec fn zero_sub_rule(rt: &Runtime, f: AtomicFactV, d: nat) -> Option<BuiltinRule>
    decreases d, 1nat,
{
    match normalized_order(f) {
        Some(AtomicFactV::LessEqualFact(z, e)) => if e matches ObjV::Sub(u, v) && z == zero_v()
            && order_subgoal(rt, AtomicFactV::LessEqualFact(*v, *u), d) {
            Some(BuiltinRule::ZeroLeSubFromOrder)
        } else {
            None
        },
        Some(AtomicFactV::LessFact(z, e)) => if e matches ObjV::Sub(u, v) && z == zero_v()
            && order_subgoal(rt, AtomicFactV::LessFact(*v, *u), d) {
            Some(BuiltinRule::ZeroLtSubFromOrder)
        } else {
            None
        },
        _ => None,
    }
}

/// `0 <= a + b` from `0 <= a` and `0 <= b`.
pub open spec fn zero_le_add(rt: &Runtime, f: AtomicFactV, d: nat) -> bool
    decreases d, 1nat,
{
    normalized_order(f) matches Some(AtomicFactV::LessEqualFact(z, e)) && e matches ObjV::Add(a, b)
        && z == zero_v() && order_subgoal(rt, AtomicFactV::LessEqualFact(zero_v(), *a), d)
        && order_subgoal(rt, AtomicFactV::LessEqualFact(zero_v(), *b), d)
}

/// `0 < a + b` from `0 < a` and `0 <= b`, or from `0 <= a` and `0 < b`.
pub open spec fn zero_lt_add(rt: &Runtime, f: AtomicFactV, d: nat) -> Option<BuiltinRule>
    decreases d, 1nat,
{
    match normalized_order(f) {
        Some(AtomicFactV::LessFact(z, e)) => match e {
            ObjV::Add(a, b) => if z != zero_v() {
                None
            } else if order_subgoal(rt, AtomicFactV::LessFact(zero_v(), *a), d)
                && order_subgoal(rt, AtomicFactV::LessEqualFact(zero_v(), *b), d) {
                Some(BuiltinRule::ZeroLtAddStrictLeft)
            } else if order_subgoal(rt, AtomicFactV::LessEqualFact(zero_v(), *a), d)
                && order_subgoal(rt, AtomicFactV::LessFact(zero_v(), *b), d) {
                Some(BuiltinRule::ZeroLtAddStrictRight)
            } else {
                None
            },
            _ => None,
        },
        _ => None,
    }
}

/// `l <= r` or `l >= r` (as written) from the same object on both sides, a
/// known equality, or the known strict fact.
pub open spec fn weak_order_rule(rt: &Runtime, f: AtomicFactV) -> Option<BuiltinRule> {
    match f {
        AtomicFactV::LessEqualFact(l, r) => if l == r {
            Some(BuiltinRule::LessEqualFromSameObject)
        } else if known_equal(rt, l, r) {
            Some(BuiltinRule::LessEqualFromKnownEquality)
        } else if is_known(rt, AtomicFactV::LessFact(l, r)) {
            Some(BuiltinRule::LessEqualFromKnownStrictOrder)
        } else {
            None
        },
        AtomicFactV::GreaterEqualFact(l, r) => if l == r {
            Some(BuiltinRule::GreaterEqualFromSameObject)
        } else if known_equal(rt, l, r) {
            Some(BuiltinRule::GreaterEqualFromKnownEquality)
        } else if is_known(rt, AtomicFactV::GreaterFact(l, r)) {
            Some(BuiltinRule::GreaterEqualFromKnownStrictOrder)
        } else {
            None
        },
        _ => None,
    }
}

/// Comparing number literals: `Some(true)` when the normalized fact holds of
/// the two literals, `Some(false)` when it fails, `None` when the rule does
/// not apply.
pub open spec fn number_comparison(f: AtomicFactV) -> Option<bool> {
    match normalized_order(f) {
        Some(AtomicFactV::LessFact(l, r)) => match (resolved_literal(l), resolved_literal(r)) {
            (Some(a), Some(b)) => Some(decimal_compare(a, b) == NumberCompareResult::Less),
            _ => div_elimination(l, r, false),
        },
        Some(AtomicFactV::LessEqualFact(l, r)) => match (resolved_literal(l), resolved_literal(r)) {
            (Some(a), Some(b)) => Some(decimal_compare(a, b) != NumberCompareResult::Greater),
            _ => div_elimination(l, r, true),
        },
        _ => None,
    }
}

/// The absolute-value rules, after normalizing to `<=` or `<`.
pub open spec fn abs_rule(rt: &Runtime, f: AtomicFactV, d: nat) -> Option<BuiltinRule>
    decreases d, 3nat,
{
    match normalized_order(f) {
        Some(AtomicFactV::LessEqualFact(l, r)) => abs_weak_rule(rt, l, r, d),
        Some(AtomicFactV::LessFact(l, r)) => abs_strict_rule(rt, l, r, d),
        _ => None,
    }
}

/// The rule that proves an order fact, in the order the rules are tried.
pub open spec fn order_rule(rt: &Runtime, f: AtomicFactV, d: nat) -> Option<BuiltinRule>
    decreases d, 4nat,
{
    if bound_from_membership(rt, f, false, d) {
        Some(BuiltinRule::NonnegativeFromMembershipInN)
    } else if bound_from_membership(rt, f, true, d) {
        Some(BuiltinRule::OneLeFromMembershipInNPos)
    } else if one_le_from_n_nonzero(rt, f, d) {
        Some(BuiltinRule::OneLeFromMembershipInNAndNonzero)
    } else if one_le_from_z_positive(rt, f, d) {
        Some(BuiltinRule::OneLeFromMembershipInZAndPositive)
    } else if lower_bound_rule(rt, f, d) is Some {
        lower_bound_rule(rt, f, d)
    } else if negated_complement(f) matches Some(g) && is_known(rt, g) {
        Some(BuiltinRule::OrderFromKnownNegatedComplement)
    } else if equivalent_orders(f) matches Some((g, h)) && (is_known(rt, g) || is_known(rt, h)) {
        Some(BuiltinRule::NegatedOrderFromKnownEquivalentOrder)
    } else if algebra_rule(rt, f, d) is Some {
        algebra_rule(rt, f, d)
    } else if zero_le_abs(f) {
        Some(BuiltinRule::ZeroLeAbs)
    } else if zero_le_sqrt(rt, f, d) {
        Some(BuiltinRule::ZeroLeSqrt)
    } else if zero_lt_sqrt(rt, f, d) {
        Some(BuiltinRule::ZeroLtSqrt)
    } else if sqrt_monotone(rt, f, d) {
        Some(BuiltinRule::SqrtMonotone)
    } else if log_order_rule(rt, f, d) is Some {
        log_order_rule(rt, f, d)
    } else if abs_rule(rt, f, d) is Some {
        abs_rule(rt, f, d)
    } else if zero_sub_rule(rt, f, d) is Some {
        zero_sub_rule(rt, f, d)
    } else if zero_le_add(rt, f, d) {
        Some(BuiltinRule::ZeroLeAdd)
    } else if zero_lt_add(rt, f, d) is Some {
        zero_lt_add(rt, f, d)
    } else if power_sign_rule(rt, f, d) is Some {
        power_sign_rule(rt, f, d)
    } else if zero_product_rule(rt, f, d) is Some {
        zero_product_rule(rt, f, d)
    } else if weak_order_rule(rt, f) is Some {
        weak_order_rule(rt, f)
    } else if number_comparison(f) == Some(true) {
        Some(BuiltinRule::NumberComparison)
    } else {
        None
    }
}

/// An order fact by the numeric builtin rules.
pub open spec fn order_result(rt: &Runtime, f: AtomicFactV, d: nat) -> StmtResult
    decreases d, 5nat,
{
    rule_result(order_rule(rt, f, d))
}

// ------------------------------------------------------------------
// Membership and inequality
// ------------------------------------------------------------------

/// Whether a number literal denotes an integer or a fraction.
pub open spec fn literal_kind(s: Seq<char>) -> NumberKind {
    if all_zero(parse_parts(s).2) {
        NumberKind::Integer
    } else {
        NumberKind::Fraction
    }
}

/// The sign of a number literal.
pub open spec fn literal_sign(s: Seq<char>) -> NumberSign {
    match decimal_sign(s) {
        NumberCompareResult::Less => NumberSign::Negative,
        NumberCompareResult::Equal => NumberSign::Zero,
        NumberCompareResult::Greater => NumberSign::Positive,
    }
}

/// The number that the literal denotes lies in the standard set.
pub open spec fn literal_in_standard_set(s: Seq<char>, set: StandardSet) -> bool {
    standard_set_holds(set, literal_kind(s), literal_sign(s))
}

/// `n $in set` for a literal `n`.
pub open spec fn literal_in_result(s: Seq<char>, set: StandardSet) -> StmtResult {
    if literal_in_standard_set(s, set) {
        builtin_success(BuiltinRule::StandardSetMembership)
    } else {
        StmtResult::StmtUnknown
    }
}

/// `not n $in set` for a literal `n`.
pub open spec fn literal_not_in_result(s: Seq<char>, set: StandardSet) -> StmtResult {
    if !literal_in_standard_set(s, set) {
        builtin_success(BuiltinRule::NotInStandardSet)
    } else {
        StmtResult::StmtUnknown
    }
}

/// The element is one of the listed objects, or known equal to one.
pub open spec fn equals_some_element(rt: &Runtime, e: ObjV, v: Seq<ObjV>) -> bool {
    exists|i: int| 0 <= i < v.len() && (e == #[trigger] v[i] || known_equal(rt, e, v[i]))
}

/// Each component of the tuple lies in the corresponding factor, as subgoals.
pub open spec fn all_components_in(rt: &Runtime, tv: Seq<ObjV>, cv: Seq<ObjV>, d: nat) -> bool
    decreases d, 1nat,
{
    forall|i: int| 0 <= i < tv.len() ==> subgoal_holds(rt, AtomicFactV::InFact(#[trigger] tv[i], cv[i]), d)
}

/// The element differs from each listed object, as subgoals.
pub open spec fn differs_from_all(rt: &Runtime, e: ObjV, v: Seq<ObjV>, d: nat) -> bool
    decreases d, 1nat,
{
    forall|i: int| 0 <= i < v.len() ==> subgoal_holds(rt, AtomicFactV::NotEqualFact(e, #[trigger] v[i]), d)
}

/// `a op b $in N` from `a $in N` and `b $in N`, as subgoals.
pub open spec fn operands_in_n(rt: &Runtime, a: ObjV, b: ObjV, d: nat) -> bool
    decreases d, 1nat,
{
    subgoal_holds(rt, AtomicFactV::InFact(a, ObjV::StandardSet(StandardSet::N)), d)
        && subgoal_holds(rt, AtomicFactV::InFact(b, ObjV::StandardSet(StandardSet::N)), d)
}

/// `e $in s`.
pub open spec fn in_result(rt: &Runtime, e: ObjV, s: ObjV, d: nat) -> StmtResult
    decreases d, 4nat,
{
    match s {
        ObjV::Cart(cv) => match e {
            ObjV::Tuple(tv) => if tv.len() >= 2 && tv.len() == cv.len() && all_components_in(rt, tv, cv, d) {
                builtin_success(BuiltinRule::TupleInCart)
            } else {
                StmtResult::StmtUnknown
            },
            _ => StmtResult::StmtUnknown,
        },
        ObjV::StandardSet(set) => match e {
            ObjV::Number(n) => literal_in_result(n, set),
            ObjV::Add(a, b) => if set == StandardSet::N {
                if operands_in_n(rt, *a, *b, d) {
                    builtin_success(BuiltinRule::AddInNFromSummands)
                } else {
                    StmtResult::StmtUnknown
                }
            } else {
                rule_result(in_standard_set_rule(rt, e, set, d))
            },
            ObjV::Mul(a, b) => if set == StandardSet::N {
                if operands_in_n(rt, *a, *b, d) {
                    builtin_success(BuiltinRule::MulInNFromFactors)
                } else {
                    StmtResult::StmtUnknown
                }
            } else {
                rule_result(in_standard_set_rule(rt, e, set, d))
            },
            _ => rule_result(in_standard_set_rule(rt, e, set, d)),
        },
        ObjV::ListSet(v) => if equals_some_element(rt, e, v) {
            builtin_success(BuiltinRule::ListSetMembership)
        } else {
            StmtResult::StmtUnknown
        },
        ObjV::ClosedRange(_, _) | ObjV::Range(_, _) | ObjV::Interval(_, _, _, _) => rule_result(range_membership_rule(rt, e, s, d)),
        _ => StmtResult::StmtUnknown,
    }
}

/// `not e $in s`.
pub open spec fn not_in_result(rt: &Runtime, e: ObjV, s: ObjV, d: nat) -> StmtResult
    decreases d, 2nat,
{
    match s {
        ObjV::StandardSet(set) => match e {
            ObjV::Number(n) => literal_not_in_result(n, set),
            _ => StmtResult::StmtUnknown,
        },
        ObjV::ListSet(v) => if differs_from_all(rt, e, v, d) {
            builtin_success(BuiltinRule::NotInListSet)
        } else {
            StmtResult::StmtUnknown
        },
        _ => StmtResult::StmtUnknown,
    }
}

/// The other side of `{} != s` or `s != {}`.
pub open spec fn side_against_empty_set(l: ObjV, r: ObjV) -> Option<ObjV> {
    match l {
        ObjV::ListSet(x) if x.len() == 0 => Some(r),
        _ => match r {
            ObjV::ListSet(y) if y.len() == 0 => Some(l),
            _ => None,
        },
    }
}

/// The operands of `a - b != 0` or `0 != a - b`.
pub open spec fn sub_against_zero(l: ObjV, r: ObjV) -> Option<(ObjV, ObjV)> {
    match l {
        ObjV::Sub(a, b) if r == zero_v() => Some((*a, *b)),
        _ => match r {
            ObjV::Sub(a, b) if l == zero_v() => Some((*a, *b)),
            _ => None,
        },
    }
}

/// The operands of `a + b != 0` or `0 != a + b`.
pub open spec fn add_against_zero(l: ObjV, r: ObjV) -> Option<(ObjV, ObjV)> {
    match l {
        ObjV::Add(a, b) if r == zero_v() => Some((*a, *b)),
        _ => match r {
            ObjV::Add(a, b) if l == zero_v() => Some((*a, *b)),
            _ => None,
        },
    }
}

/// `l < r`, `l > r`, `r < l` or `r > l` is known.
pub open spec fn known_strict_order_between(rt: &Runtime, l: ObjV, r: ObjV) -> bool {
    is_known(rt, AtomicFactV::LessFact(l, r)) || is_known(rt, AtomicFactV::GreaterFact(l, r))
        || is_known(rt, AtomicFactV::LessFact(r, l)) || is_known(rt, AtomicFactV::GreaterFact(r, l))
}

/// `{} != s` from `$is_nonempty_set(s)` as a subgoal.
pub open spec fn not_equal_empty_set_from_nonempty(rt: &Runtime, l: ObjV, r: ObjV, d: nat) -> bool
    decreases d, 1nat,
{
    side_against_empty_set(l, r) matches Some(s) && subgoal_holds(rt, AtomicFactV::IsNonemptySetFact(s), d)
}

/// `l != r`.
pub open spec fn not_equal_result(rt: &Runtime, l: ObjV, r: ObjV, d: nat) -> StmtResult
    decreases d, 3nat,
{
    if resolved_literal(l) matches Some(a) && resolved_literal(r) matches Some(b) && decimal_compare(a, b)
        != NumberCompareResult::Equal {
        builtin_success(BuiltinRule::NotEqualByCalculation)
    } else if l matches ObjV::ListSet(x) && r matches ObjV::ListSet(y) && x.len() != y.len() {
        builtin_success(BuiltinRule::NotEqualListSetsOfDifferentLength)
    } else if not_equal_empty_set_from_nonempty(rt, l, r, d) {
        builtin_success(BuiltinRule::NotEqualEmptySetFromNonempty)
    } else if known_strict_order_between(rt, l, r) {
        builtin_success(BuiltinRule::NotEqualFromKnownStrictOrder)
    } else if sub_against_zero(l, r) matches Some((a, b)) && (is_known(rt, AtomicFactV::NotEqualFact(a, b))
        || is_known(rt, AtomicFactV::NotEqualFact(b, a))) {
        builtin_success(BuiltinRule::SubNotEqualZeroFromOperandNotEqual)
    } else if add_against_zero(l, r) matches Some((a, b)) && (is_known(rt, AtomicFactV::NotEqualFact(a, neg_v(b)))
        || is_known(rt, AtomicFactV::NotEqualFact(b, neg_v(a)))) {
        builtin_success(BuiltinRule::AddNotEqualZeroFromOperandNotEqualNegation)
    } else if not_equal_known_rule(rt, l, r) is Some {
        rule_result(not_equal_known_rule(rt, l, r))
    } else {
        rule_result(not_equal_zero_rule(rt, l, r, d))
    }
}

/// The builtin rules for a fact that is not an equality.
pub closed spec fn builtin_result(rt: &Runtime, f: AtomicFactV, d: nat) -> StmtResult
    decreases d, 6nat,
{
    match f {
        AtomicFactV::NotEqualFact(l, r) => not_equal_result(rt, l, r, d),
        AtomicFactV::InFact(e, s) => in_result(rt, e, s, d),
        AtomicFactV::NotInFact(e, s) => not_in_result(rt, e, s, d),
        AtomicFactV::SubsetFact(l, r) => subset_result(rt, l, r),
        AtomicFactV::SupersetFact(l, r) => superset_result(rt, l, r),
        AtomicFactV::NotSubsetFact(l, r) => not_subset_result(rt, l, r),
        AtomicFactV::NotSupersetFact(l, r) => not_superset_result(rt, l, r),
        AtomicFactV::IsSetFact(_) => builtin_success(BuiltinRule::EveryObjectIsASet),
        AtomicFactV::IsNonemptySetFact(s) => nonempty_result(rt, s, d),
        AtomicFactV::IsFiniteSetFact(s) => finite_result(rt, s, d),
        AtomicFactV::IsCartFact(s) => is_cart_result(s),
        AtomicFactV::IsTupleFact(s) => is_tuple_result(s),
        AtomicFactV::NotIsNonemptySetFact(s) => not_nonempty_result(rt, s),
        AtomicFactV::LessFact(_, _) | AtomicFactV::NotLessFact(_, _) | AtomicFactV::LessEqualFact(_, _)
        | AtomicFactV::NotLessEqualFact(_, _) | AtomicFactV::GreaterFact(_, _)
        | AtomicFactV::NotGreaterFact(_, _) | AtomicFactV::GreaterEqualFact(_, _)
        | AtomicFactV::NotGreaterEqualFact(_, _) => order_result(rt, f, d),
        _ => StmtResult::StmtUnknown,
    }
}

/// Unfolds [`builtin_result`] once: the builtin rules for each kind of fact.
pub proof fn lemma_builtin_result(rt: &Runtime, f: AtomicFactV, d: nat)
    ensures
        builtin_result(rt, f, d) == {
        match f {
            AtomicFactV::NotEqualFact(l, r) => not_equal_result(rt, l, r, d),
            AtomicFactV::InFact(e, s) => in_result(rt, e, s, d),
            AtomicFactV::NotInFact(e, s) => not_in_result(rt, e, s, d),
            AtomicFactV::SubsetFact(l, r) => subset_result(rt, l, r),
            AtomicFactV::SupersetFact(l, r) => superset_result(rt, l, r),
            AtomicFactV::NotSubsetFact(l, r) => not_subset_result(rt, l, r),
            AtomicFactV::NotSupersetFact(l, r) => not_superset_result(rt, l, r),
            AtomicFactV::IsSetFact(_) => builtin_success(BuiltinRule::EveryObjectIsASet),
            AtomicFactV::IsNonemptySetFact(s) => nonempty_result(rt, s, d),
            AtomicFactV::IsFiniteSetFact(s) => finite_result(rt, s, d),
            AtomicFactV::IsCartFact(s) => is_cart_result(s),
            AtomicFactV::IsTupleFact(s) => is_tuple_result(s),
            AtomicFactV::NotIsNonemptySetFact(s) => not_nonempty_result(rt, s),
            AtomicFactV::LessFact(_, _) | AtomicFactV::NotLessFact(_, _) | AtomicFactV::LessEqualFact(_, _)
            | AtomicFactV::NotLessEqualFact(_, _) | AtomicFactV::GreaterFact(_, _)
            | AtomicFactV::NotGreaterFact(_, _) | AtomicFactV::GreaterEqualFact(_, _)
            | AtomicFactV::NotGreaterEqualFact(_, _) => order_result(rt, f, d),
            _ => StmtResult::StmtUnknown,
        }
        },
{
}

/// A fact that is not an equality: known, or proved by a builtin rule.
pub open spec fn known_then_builtin_result(rt: &Runtime, f: AtomicFactV, d: nat) -> StmtResult
    decreases d, 7nat,
{
    if is_known(rt, f) {
        StmtResult::FactualStmtSuccess(VerifiedBy::KnownFact)
    } else {
        builtin_result(rt, f, d)
    }
}

/// Success by the rule, if there is one; unknown otherwise.
pub fn rule_outcome(rule: Option<BuiltinRule>) -> (r: StmtResult)
    ensures
        r == rule_result(rule),
{
    match rule {
        Some(x) => StmtResult::FactualStmtSuccess(VerifiedBy::Builtin(x)),
        None => StmtResult::StmtUnknown,
    }
}

/// Success by the given builtin rule.
pub fn succeed(rule: BuiltinRule) -> (r: StmtResult)
    ensures
        r == builtin_success(rule),
{
    StmtResult::FactualStmtSuccess(VerifiedBy::Builtin(rule))
}

/// The empty list set `{}`.
pub fn empty_set_obj() -> (r: Obj)
    ensures
        r@ == empty_set_v(),
{
    let v: Vec<Obj> = Vec::new();
    proof {
        lemma_view_list(v@);
        assert(crate::obj::view_list(v@) =~= Seq::<ObjV>::empty());
    }
    Obj::ListSet(v)
}

impl Runtime {
    /// Whether the fact is among the known atomic facts.
    pub fn fact_is_known(&self, f: &AtomicFact) -> (r: bool)
        ensures
            r == is_known(self, f@),
    {
        self.verify_non_equational_atomic_fact_with_known_atomic_facts(f).is_true()
    }

    /// Whether `a = b` or `b = a` is known.
    pub fn objs_known_equal(&self, a: &Obj, b: &Obj) -> (r: bool)
        ensures
            r == known_equal(self, a@, b@),
    {
        let ab = AtomicFact::EqualFact(a.duplicate(), b.duplicate());
        if self.fact_is_known(&ab) {
            return true;
        }
        let ba = AtomicFact::EqualFact(b.duplicate(), a.duplicate());
        self.fact_is_known(&ba)
    }

    /// Verify subset: standard sets by their inclusion chain, an object is a
    /// subset of itself, and the known dual fact `right superset left`.
    pub fn verify_subset_fact_with_builtin_rules(&self, left: &Obj, right: &Obj, verify_state: &VerifyState) -> (r: Result<StmtResult, RuntimeError>)
        ensures
            r == Ok::<StmtResult, RuntimeError>(subset_result(self, left@, right@)),
    {
        if let (Obj::StandardSet(a), Obj::StandardSet(b)) = (left, right) {
            if standard_set_is_subset_eq(a, b) {
                return Ok(StmtResult::FactualStmtSuccess(VerifiedBy::Builtin(BuiltinRule::StandardSetSubset)));
            }
        }
        if objs_equal(left, right) {
            return Ok(StmtResult::FactualStmtSuccess(VerifiedBy::Builtin(BuiltinRule::SubsetSupersetDuality)));
        }
        let converted = AtomicFact::SupersetFact(right.duplicate(), left.duplicate());
        if self.fact_is_known(&converted) {
            Ok(StmtResult::FactualStmtSuccess(VerifiedBy::Builtin(BuiltinRule::SubsetSupersetDuality)))
        } else {
            Ok(StmtResult::StmtUnknown)
        }
    }

    /// Verify superset: the mirror image of subset.
    pub fn verify_superset_fact_with_builtin_rules(&self, left: &Obj, right: &Obj, verify_state: &VerifyState) -> (r: Result<StmtResult, RuntimeError>)
        ensures
            r == Ok::<StmtResult, RuntimeError>(superset_result(self, left@, right@)),
    {
        if let (Obj::StandardSet(a), Obj::StandardSet(b)) = (left, right) {
            if standard_set_is_subset_eq(b, a) {
                return Ok(StmtResult::FactualStmtSuccess(VerifiedBy::Builtin(BuiltinRule::StandardSetSuperset)));
            }
        }
        if objs_equal(left, right) {
            return Ok(StmtResult::FactualStmtSuccess(VerifiedBy::Builtin(BuiltinRule::SubsetSupersetDuality)));
        }
        let converted = AtomicFact::SubsetFact(right.duplicate(), left.duplicate());
        if self.fact_is_known(&converted) {
            Ok(StmtResult::FactualStmtSuccess(VerifiedBy::Builtin(BuiltinRule::SubsetSupersetDuality)))
        } else {
            Ok(StmtResult::StmtUnknown)
        }
    }

    /// Verify `not left subset right` from the known dual `not right superset left`.
    pub fn verify_not_subset_fact_with_builtin_rules(&self, left: &Obj, right: &Obj, verify_state: &VerifyState) -> (r: Result<StmtResult, RuntimeError>)
        ensures
            r == Ok::<StmtResult, RuntimeError>(not_subset_result(self, left@, right@)),
    {
        let converted = AtomicFact::NotSupersetFact(right.duplicate(), left.duplicate());
        if self.fact_is_known(&converted) {
            Ok(StmtResult::FactualStmtSuccess(VerifiedBy::Builtin(BuiltinRule::SubsetSupersetDuality)))
        } else {
            Ok(StmtResult::StmtUnknown)
        }
    }

    /// Verify `not left superset right` from the known dual `not right subset left`.
    pub fn verify_not_superset_fact_with_builtin_rules(&self, left: &Obj, right: &Obj, verify_state: &VerifyState) -> (r: Result<StmtResult, RuntimeError>)
        ensures
            r == Ok::<StmtResult, RuntimeError>(not_superset_result(self, left@, right@)),
    {
        let converted = AtomicFact::NotSubsetFact(right.duplicate(), left.duplicate());
        if self.fact_is_known(&converted) {
            Ok(StmtResult::FactualStmtSuccess(VerifiedBy::Builtin(BuiltinRule::SubsetSupersetDuality)))
        } else {
            Ok(StmtResult::StmtUnknown)
        }
    }

    /// `$is_cart(set)`.
    pub fn verify_is_cart_fact_with_builtin_rules(&self, set: &Obj) -> (r: StmtResult)
        ensures
            r == is_cart_result(set@),
    {
        match set {
            Obj::Cart(_) => StmtResult::FactualStmtSuccess(VerifiedBy::Builtin(BuiltinRule::CartIsCart)),
            _ => StmtResult::StmtUnknown,
        }
    }

    /// `$is_tuple(set)`.
    pub fn verify_is_tuple_fact_with_builtin_rules(&self, set: &Obj) -> (r: StmtResult)
        ensures
            r == is_tuple_result(set@),
    {
        match set {
            Obj::Tuple(v) => {
                proof {
                    lemma_view_list(v@);
                }
                if v.len() < 2 {
                    StmtResult::StmtUnknown
                } else {
                    StmtResult::FactualStmtSuccess(VerifiedBy::Builtin(BuiltinRule::TupleIsTuple))
                }
            },
            _ => StmtResult::StmtUnknown,
        }
    }

    /// `not $is_nonempty_set(set)`.
    pub fn verify_not_is_nonempty_set_fact_with_builtin_rules(&self, set: &Obj) -> (r: StmtResult)
        ensures
            r == not_nonempty_result(self, set@),
    {
        if let Obj::ListSet(v) = set {
            proof {
                lemma_view_list(v@);
            }
            if v.len() == 0 {
                return StmtResult::FactualStmtSuccess(VerifiedBy::Builtin(BuiltinRule::NotNonemptyEmptyListSet));
            }
        }
        let empty = empty_set_obj();
        if self.objs_known_equal(set, &empty) {
            StmtResult::FactualStmtSuccess(VerifiedBy::Builtin(BuiltinRule::NotNonemptyFromEqualEmptySet))
        } else {
            StmtResult::StmtUnknown
        }
    }

    /// Check a subgoal one level deeper: known, or proved by the builtin rules.
    pub fn verify_subgoal(&self, goal: &AtomicFact, verify_state: &VerifyState) -> (r: bool)
        ensures
            r == subgoal_holds(self, goal@, verify_state.subgoal_depth as nat),
        decreases verify_state.subgoal_depth, 0nat,
    {
        if self.fact_is_known(goal) {
            return true;
        }
        if verify_state.subgoal_depth == 0 {
            return false;
        }
        let next = verify_state.deeper();
        self.verify_non_equational_known_then_builtin_rules_only(goal, &next).is_true()
    }

    /// Each set of the list is nonempty, as a subgoal.
    fn verify_all_nonempty(&self, sets: &Vec<Obj>, verify_state: &VerifyState) -> (r: bool)
        ensures
            r == all_nonempty(self, sets@.map_values(|o: Obj| o@), verify_state.subgoal_depth as nat),
        decreases verify_state.subgoal_depth, 1nat,
    {
        let ghost vs = sets@.map_values(|o: Obj| o@);
        let mut i: usize = 0;
        while i < sets.len()
            invariant
                i <= sets.len(),
                vs == sets@.map_values(|o: Obj| o@),
                forall|j: int| 0 <= j < i ==> subgoal_holds(self, AtomicFactV::IsNonemptySetFact(#[trigger] vs[j]), verify_state.subgoal_depth as nat),
            decreases sets.len() - i,
        {
            let g = AtomicFact::IsNonemptySetFact(sets[i].duplicate());
            if !self.verify_subgoal(&g, verify_state) {
                assert(g@ == AtomicFactV::IsNonemptySetFact(vs[i as int]));
                return false;
            }
            i = i + 1;
        }
        true
    }

    /// Each set of the list is finite, as a subgoal.
    fn verify_all_finite(&self, sets: &Vec<Obj>, verify_state: &VerifyState) -> (r: bool)
        ensures
            r == all_finite(self, sets@.map_values(|o: Obj| o@), verify_state.subgoal_depth as nat),
        decreases verify_state.subgoal_depth, 1nat,
    {
        let ghost vs = sets@.map_values(|o: Obj| o@);
        let mut i: usize = 0;
        while i < sets.len()
            invariant
                i <= sets.len(),
                vs == sets@.map_values(|o: Obj| o@),
                forall|j: int| 0 <= j < i ==> subgoal_holds(self, AtomicFactV::IsFiniteSetFact(#[trigger] vs[j]), verify_state.subgoal_depth as nat),
            decreases sets.len() - i,
        {
            let g = AtomicFact::IsFiniteSetFact(sets[i].duplicate());
            if !self.verify_subgoal(&g, verify_state) {
                assert(g@ == AtomicFactV::IsFiniteSetFact(vs[i as int]));
                return false;
            }
            i = i + 1;
        }
        true
    }

    /// `$is_nonempty_set(set)`.
    #[verifier::spinoff_prover]
    #[verifier::rlimit(100)]
    pub fn verify_is_nonempty_set_fact_with_builtin_rules(&self, set: &Obj, verify_state: &VerifyState) -> (r: StmtResult)
        ensures
            r == nonempty_result(self, set@, verify_state.subgoal_depth as nat),
        decreases verify_state.subgoal_depth, 2nat,
    {
        let empty = empty_set_obj();
        let not_equal_empty = AtomicFact::NotEqualFact(set.duplicate(), empty);
        if self.fact_is_known(&not_equal_empty) {
            return StmtResult::FactualStmtSuccess(VerifiedBy::Builtin(BuiltinRule::NonemptyFromNotEqualEmptySet));
        }
        match set {
            Obj::StandardSet(_) => succeed(BuiltinRule::NonemptyStandardSet),
            Obj::ListSet(v) => {
                proof {
                    lemma_view_list(v@);
                }
                if v.len() == 0 {
                    StmtResult::StmtUnknown
                } else {
                    succeed(BuiltinRule::NonemptyListSet)
                }
            },
            Obj::PowerSet(_) => succeed(BuiltinRule::NonemptyPowerSet),
            Obj::ClosedRange(a, b) => {
                let g = AtomicFact::LessEqualFact(a.duplicate(), b.duplicate());
                if self.verify_subgoal(&g, verify_state) {
                    succeed(BuiltinRule::NonemptyClosedRange)
                } else {
                    StmtResult::StmtUnknown
                }
            },
            Obj::Interval(a, b, lc, rc) => {
                let g = if *lc && *rc {
                    AtomicFact::LessEqualFact(a.duplicate(), b.duplicate())
                } else {
                    AtomicFact::LessFact(a.duplicate(), b.duplicate())
                };
                if self.verify_subgoal(&g, verify_state) {
                    succeed(BuiltinRule::NonemptyInterval)
                } else {
                    StmtResult::StmtUnknown
                }
            },
            Obj::Union(a, b) => {
                let ga = AtomicFact::IsNonemptySetFact(a.duplicate());
                if self.verify_subgoal(&ga, verify_state) {
                    return succeed(BuiltinRule::NonemptyUnionLeft);
                }
                let gb = AtomicFact::IsNonemptySetFact(b.duplicate());
                if self.verify_subgoal(&gb, verify_state) {
                    succeed(BuiltinRule::NonemptyUnionRight)
                } else {
                    StmtResult::StmtUnknown
                }
            },
            Obj::Cart(v) => {
                proof {
                    lemma_view_list(v@);
                    assert(v@.map_values(|o: Obj| o@) =~= crate::obj::view_list(v@));
                }
                if self.verify_all_nonempty(v, verify_state) {
                    succeed(BuiltinRule::NonemptyCart)
                } else {
                    StmtResult::StmtUnknown
                }
            },
            Obj::FiniteSeqSet(s, _) => {
                let g = AtomicFact::IsNonemptySetFact(s.duplicate());
                if self.verify_subgoal(&g, verify_state) {
                    succeed(BuiltinRule::NonemptyFiniteSeqSet)
                } else {
                    StmtResult::StmtUnknown
                }
            },
            Obj::SeqSet(s) => {
                let g = AtomicFact::IsNonemptySetFact(s.duplicate());
                if self.verify_subgoal(&g, verify_state) {
                    succeed(BuiltinRule::NonemptySeqSet)
                } else {
                    StmtResult::StmtUnknown
                }
            },
            Obj::MatrixSet(s, _, _) => {
                let g = AtomicFact::IsNonemptySetFact(s.duplicate());
                if self.verify_subgoal(&g, verify_state) {
                    succeed(BuiltinRule::NonemptyMatrixSet)
                } else {
                    StmtResult::StmtUnknown
                }
            },
            _ => StmtResult::StmtUnknown,
        }
    }

    /// `$is_finite_set(set)`.
    #[verifier::spinoff_prover]
    #[verifier::rlimit(100)]
    pub fn verify_is_finite_set_fact_with_builtin_rules(&self, set: &Obj, verify_state: &VerifyState) -> (r: StmtResult)
        ensures
            r == finite_result(self, set@, verify_state.subgoal_depth as nat),
        decreases verify_state.subgoal_depth, 2nat,
    {
        match set {
            Obj::ListSet(_) => succeed(BuiltinRule::FiniteListSet),
            Obj::ClosedRange(_, _) => succeed(BuiltinRule::FiniteClosedRange),
            Obj::Range(_, _) => succeed(BuiltinRule::FiniteRange),
            Obj::Union(a, b) => {
                if self.verify_subgoal(&AtomicFact::IsFiniteSetFact(a.duplicate()), verify_state)
                    && self.verify_subgoal(&AtomicFact::IsFiniteSetFact(b.duplicate()), verify_state) {
                    succeed(BuiltinRule::FiniteUnion)
                } else {
                    StmtResult::StmtUnknown
                }
            },
            Obj::Intersect(a, b) => {
                if self.verify_subgoal(&AtomicFact::IsFiniteSetFact(a.duplicate()), verify_state)
                    && self.verify_subgoal(&AtomicFact::IsFiniteSetFact(b.duplicate()), verify_state) {
                    succeed(BuiltinRule::FiniteIntersect)
                } else {
                    StmtResult::StmtUnknown
                }
            },
            Obj::SetMinus(a, _) => {
                if self.verify_subgoal(&AtomicFact::IsFiniteSetFact(a.duplicate()), verify_state) {
                    succeed(BuiltinRule::FiniteSetMinus)
                } else {
                    StmtResult::StmtUnknown
                }
            },
            Obj::SetDiff(a, b) => {
                if self.verify_subgoal(&AtomicFact::IsFiniteSetFact(a.duplicate()), verify_state)
                    && self.verify_subgoal(&AtomicFact::IsFiniteSetFact(b.duplicate()), verify_state) {
                    succeed(BuiltinRule::FiniteSetDiff)
                } else {
                    StmtResult::StmtUnknown
                }
            },
            Obj::Cart(v) => {
                proof {
                    lemma_view_list(v@);
                    assert(v@.map_values(|o: Obj| o@) =~= crate::obj::view_list(v@));
                }
                if self.verify_all_finite(v, verify_state) {
                    succeed(BuiltinRule::FiniteCart)
                } else {
                    StmtResult::StmtUnknown
                }
            },
            _ => StmtResult::StmtUnknown,
        }
    }

    /// The builtin rules for a fact that is not an equality.
    pub fn verify_non_equational_atomic_fact_with_builtin_rules(&self, atomic_fact: &AtomicFact, verify_state: &VerifyState) -> (r: Result<StmtResult, RuntimeError>)
        requires
            !(atomic_fact@ is EqualFact),
        ensures
            r == Ok::<StmtResult, RuntimeError>(builtin_result(self, atomic_fact@, verify_state.subgoal_depth as nat)),
        decreases verify_state.subgoal_depth, 6nat,
    {
        match atomic_fact {
            AtomicFact::NotEqualFact(l, r) => self.verify_not_equal_fact_with_builtin_rules(l, r, verify_state),
            AtomicFact::InFact(e, s) => self.verify_in_fact_with_builtin_rules(e, s, verify_state),
            AtomicFact::NotInFact(e, s) => self.verify_not_in_fact_with_builtin_rules(e, s, verify_state),
            AtomicFact::SubsetFact(l, r) => self.verify_subset_fact_with_builtin_rules(l, r, verify_state),
            AtomicFact::SupersetFact(l, r) => self.verify_superset_fact_with_builtin_rules(l, r, verify_state),
            AtomicFact::NotSubsetFact(l, r) => self.verify_not_subset_fact_with_builtin_rules(l, r, verify_state),
            AtomicFact::NotSupersetFact(l, r) => self.verify_not_superset_fact_with_builtin_rules(l, r, verify_state),
            AtomicFact::IsSetFact(_) => Ok(StmtResult::FactualStmtSuccess(VerifiedBy::Builtin(BuiltinRule::EveryObjectIsASet))),
            AtomicFact::IsNonemptySetFact(s) => Ok(self.verify_is_nonempty_set_fact_with_builtin_rules(s, verify_state)),
            AtomicFact::IsFiniteSetFact(s) => Ok(self.verify_is_finite_set_fact_with_builtin_rules(s, verify_state)),
            AtomicFact::IsCartFact(s) => Ok(self.verify_is_cart_fact_with_builtin_rules(s)),
            AtomicFact::IsTupleFact(s) => Ok(self.verify_is_tuple_fact_with_builtin_rules(s)),
            AtomicFact::NotIsNonemptySetFact(s) => Ok(self.verify_not_is_nonempty_set_fact_with_builtin_rules(s)),
            AtomicFact::LessFact(_, _) | AtomicFact::NotLessFact(_, _) | AtomicFact::LessEqualFact(_, _)
            | AtomicFact::NotLessEqualFact(_, _) | AtomicFact::GreaterFact(_, _)
            | AtomicFact::NotGreaterFact(_, _) | AtomicFact::GreaterEqualFact(_, _)
            | AtomicFact::NotGreaterEqualFact(_, _) => self.verify_order_atomic_fact_numeric_builtin_only(atomic_fact, verify_state),
            _ => Ok(StmtResult::StmtUnknown),
        }
    }

    /// A fact that is not an equality: look it up among the known facts, then
    /// try the builtin rules.
    pub fn verify_non_equational_known_then_builtin_rules_only(&self, atomic_fact: &AtomicFact, verify_state: &VerifyState) -> (r: StmtResult)
        ensures
            r == known_then_builtin_result(self, atomic_fact@, verify_state.subgoal_depth as nat),
        decreases verify_state.subgoal_depth, 7nat,
    {
        let known = self.verify_non_equational_atomic_fact_with_known_atomic_facts(atomic_fact);
        if known.is_true() {
            return known;
        }
        if let AtomicFact::EqualFact(_, _) = atomic_fact {
            return StmtResult::StmtUnknown;
        }
        match self.verify_non_equational_atomic_fact_with_builtin_rules(atomic_fact, verify_state) {
            Ok(r) => r,
            Err(_) => StmtResult::StmtUnknown,
        }
    }
}

/// The literal `0`.
pub fn zero_obj() -> (r: Obj)
    ensures
        r@ == zero_v(),
{
    let lit = "0";
    proof {
        reveal_strlit("0");
        assert(lit@ =~= seq!['0']);
    }
    Obj::Number(lit.to_string())
}

/// Whether the object is a number literal whose value is zero.
pub fn obj_resolves_to_zero(obj: &Obj) -> (r: bool)
    ensures
        r == resolves_to_zero(obj@),
{
    match obj {
        Obj::Number(s) => matches!(compare_normalized_number_str_to_zero(s.as_str()), NumberCompareResult::Equal),
        _ => false,
    }
}

/// Whether the object is a number literal whose value is one.
pub fn obj_resolves_to_one(obj: &Obj) -> (r: bool)
    ensures
        r == resolves_to_one(obj@),
{
    match obj {
        Obj::Number(s) => {
            let one = "1";
            proof {
                reveal_strlit("1");
                assert(one@ =~= seq!['1']);
            }
            matches!(compare_number_strings(s.as_str(), one), NumberCompareResult::Equal)
        },
        _ => false,
    }
}

/// The known facts whose negation is equivalent to an order fact, in the
/// form `not a <= b` for `a > b`, and so on.
pub fn negated_complement_fact(atomic_fact: &AtomicFact) -> (r: Option<AtomicFact>)
    ensures
        r matches Some(g) ==> negated_complement(atomic_fact@) == Some(g@),
        r is None <==> negated_complement(atomic_fact@) is None,
{
    match atomic_fact {
        AtomicFact::GreaterFact(l, r) => Some(AtomicFact::NotLessEqualFact(l.duplicate(), r.duplicate())),
        AtomicFact::LessFact(l, r) => Some(AtomicFact::NotGreaterEqualFact(l.duplicate(), r.duplicate())),
        AtomicFact::GreaterEqualFact(l, r) => Some(AtomicFact::NotLessFact(l.duplicate(), r.duplicate())),
        AtomicFact::LessEqualFact(l, r) => Some(AtomicFact::NotGreaterFact(l.duplicate(), r.duplicate())),
        _ => None,
    }
}

/// The two order facts equivalent to a negated order fact.
pub fn equivalent_order_facts(atomic_fact: &AtomicFact) -> (r: Option<(AtomicFact, AtomicFact)>)
    ensures
        r matches Some((g, h)) ==> equivalent_orders(atomic_fact@) == Some((g@, h@)),
        r is None <==> equivalent_orders(atomic_fact@) is None,
{
    match atomic_fact {
        AtomicFact::NotLessFact(l, r) => Some((
            AtomicFact::LessEqualFact(r.duplicate(), l.duplicate()),
            AtomicFact::GreaterEqualFact(l.duplicate(), r.duplicate()),
        )),
        AtomicFact::NotGreaterFact(l, r) => Some((
            AtomicFact::LessEqualFact(l.duplicate(), r.duplicate()),
            AtomicFact::GreaterEqualFact(r.duplicate(), l.duplicate()),
        )),
        AtomicFact::NotLessEqualFact(l, r) => Some((
            AtomicFact::LessFact(r.duplicate(), l.duplicate()),
            AtomicFact::GreaterFact(l.duplicate(), r.duplicate()),
        )),
        AtomicFact::NotGreaterEqualFact(l, r) => Some((
            AtomicFact::LessFact(l.duplicate(), r.duplicate()),
            AtomicFact::GreaterFact(r.duplicate(), l.duplicate()),
        )),
        _ => None,
    }
}

/// `0 <= abs(x)`.
pub fn verify_zero_le_abs_builtin_rule(atomic_fact: &AtomicFact) -> (r: bool)
    ensures
        r == zero_le_abs(atomic_fact@),
{
    match normalize_positive_order_atomic_fact(atomic_fact) {
        Some(AtomicFact::LessEqualFact(z, e)) => objs_equal(&z, &zero_obj()) && matches!(e, Obj::Abs(_)),
        _ => false,
    }
}

/// Whether `l <= r` holds by one of the shapes that need no fact: `x <= abs(x)`,
/// `-x <= abs(x)`.
pub fn try_verify_abs_basic_lower_bound(l: &Obj, r: &Obj) -> (res: bool)
    ensures
        res == (r@ matches ObjV::Abs(a) && (l@ == *a || is_negation_of(l@, *a))),
{
    match r {
        Obj::Abs(a) => objs_equal(l, a) || obj_is_negation_of(l, a),
        _ => false,
    }
}

/// The triangle inequality: `abs(x + y) <= abs(x) + abs(y)`, and the same for `x - y`.
pub fn try_verify_abs_triangle(l: &Obj, r: &Obj) -> (res: bool)
    ensures
        res == (l@ matches ObjV::Abs(a) && (match *a {
            ObjV::Add(x, y) => is_add_of_abs_pair(r@, *x, *y),
            ObjV::Sub(x, y) => is_add_of_abs_pair(r@, *x, *y),
            _ => false,
        })),
{
    match l {
        Obj::Abs(a) => match &**a {
            Obj::Add(x, y) => {
                assert((**a)@ == ObjV::Add(Box::new((**x)@), Box::new((**y)@)));
                obj_is_add_of_abs_pair(r, x, y)
            },
            Obj::Sub(x, y) => {
                assert((**a)@ == ObjV::Sub(Box::new((**x)@), Box::new((**y)@)));
                obj_is_add_of_abs_pair(r, x, y)
            },
            _ => false,
        },
        _ => false,
    }
}

/// The weak reverse triangle inequality: `abs(x) - abs(y) <= abs(x + y)`, and
/// `abs(x) - abs(y) <= abs(x - y)`.
pub fn try_verify_abs_reverse_triangle(l: &Obj, r: &Obj) -> (res: bool)
    ensures
        res == (l@ matches ObjV::Sub(p, q) && *p matches ObjV::Abs(x) && *q matches ObjV::Abs(y)
            && (is_abs_of_add_pair(r@, *x, *y) || is_abs_of_sub_pair(r@, *x, *y))),
{
    match l {
        Obj::Sub(p, q) => match (&**p, &**q) {
            (Obj::Abs(x), Obj::Abs(y)) => {
                assert((**p)@ == ObjV::Abs(Box::new((**x)@)));
                assert((**q)@ == ObjV::Abs(Box::new((**y)@)));
                obj_is_abs_of_add_pair(r, x, y) || obj_is_abs_of_sub_pair(r, x, y)
            },
            _ => false,
        },
        _ => false,
    }
}

impl Runtime {
    /// `n >= 0` or `0 <= n` from `n $in N`.
    pub fn try_verify_order_nonnegative_from_membership_in_n(&self, atomic_fact: &AtomicFact, verify_state: &VerifyState) -> (r: bool)
        ensures
            r == bound_from_membership(self, atomic_fact@, false, verify_state.subgoal_depth as nat),
        decreases verify_state.subgoal_depth, 1nat,
    {
        let n = match atomic_fact {
            AtomicFact::GreaterEqualFact(l, r) => {
                if !obj_resolves_to_zero(r) {
                    return false;
                }
                l
            },
            AtomicFact::LessEqualFact(l, r) => {
                if !obj_resolves_to_zero(l) {
                    return false;
                }
                r
            },
            _ => return false,
        };
        let in_n = AtomicFact::InFact(n.duplicate(), Obj::StandardSet(StandardSet::N));
        self.verify_subgoal(&in_n, verify_state)
    }

    /// `n >= 1` or `1 <= n` from `n $in N_pos`.
    pub fn try_verify_order_one_le_from_membership_in_n_pos(&self, atomic_fact: &AtomicFact, verify_state: &VerifyState) -> (r: bool)
        ensures
            r == bound_from_membership(self, atomic_fact@, true, verify_state.subgoal_depth as nat),
        decreases verify_state.subgoal_depth, 1nat,
    {
        let n = match atomic_fact {
            AtomicFact::GreaterEqualFact(l, r) => {
                if !obj_resolves_to_one(r) {
                    return false;
                }
                l
            },
            AtomicFact::LessEqualFact(l, r) => {
                if !obj_resolves_to_one(l) {
                    return false;
                }
                r
            },
            _ => return false,
        };
        let in_n_pos = AtomicFact::InFact(n.duplicate(), Obj::StandardSet(StandardSet::NPos));
        self.verify_subgoal(&in_n_pos, verify_state)
    }

    /// An order fact from the known negation of its complement.
    pub fn verify_order_from_known_negated_complement(&self, atomic_fact: &AtomicFact) -> (r: bool)
        ensures
            r == (negated_complement(atomic_fact@) matches Some(g) && is_known(self, g)),
    {
        match negated_complement_fact(atomic_fact) {
            Some(g) => self.fact_is_known(&g),
            None => false,
        }
    }

    /// A negated order fact from a known equivalent order fact.
    pub fn verify_negated_order_from_known_equivalent_order(&self, atomic_fact: &AtomicFact) -> (r: bool)
        ensures
            r == (equivalent_orders(atomic_fact@) matches Some((g, h)) && (is_known(self, g) || is_known(self, h))),
    {
        match equivalent_order_facts(atomic_fact) {
            Some((g, h)) => self.fact_is_known(&g) || self.fact_is_known(&h),
            None => false,
        }
    }

    /// An order subgoal: known, or one level deeper by the order rules.
    pub fn verify_order_subgoal(&self, goal: &AtomicFact, verify_state: &VerifyState) -> (r: bool)
        ensures
            r == order_subgoal(self, goal@, verify_state.subgoal_depth as nat),
        decreases verify_state.subgoal_depth, 0nat,
    {
        if self.fact_is_known(goal) {
            return true;
        }
        if verify_state.subgoal_depth == 0 {
            return false;
        }
        let next = verify_state.deeper();
        match self.verify_order_atomic_fact_numeric_builtin_only(goal, &next) {
            Ok(r) => r.is_true(),
            Err(_) => false,
        }
    }

    /// `abs(arg) <= bound` (or `<`) is known.
    pub fn verify_known_abs_compare(&self, arg: &Obj, bound: &Obj, strict: bool) -> (r: bool)
        ensures
            r == known_abs_compare(self, arg@, bound@, strict),
    {
        let fact = abs_order_subgoal(abs_obj(arg.duplicate()), bound.duplicate(), strict);
        self.fact_is_known(&fact)
    }

    /// `abs(x) <= b` from `x <= b` and `-x <= b`, and the strict form.
    pub fn try_verify_abs_upper_bound(&self, left: &Obj, right: &Obj, strict: bool, verify_state: &VerifyState) -> (r: bool)
        ensures
            r == abs_upper_bound(self, left@, right@, strict, verify_state.subgoal_depth as nat),
        decreases verify_state.subgoal_depth, 1nat,
    {
        let x = match peel_abs(left) {
            Some(x) => x,
            None => return false,
        };
        let arg_bound = abs_order_subgoal(x.duplicate(), right.duplicate(), strict);
        if !self.verify_subgoal(&arg_bound, verify_state) {
            return false;
        }
        let neg_arg_bound = abs_order_subgoal(neg_obj(x), right.duplicate(), strict);
        self.verify_subgoal(&neg_arg_bound, verify_state)
    }

    /// Bounds on `left` read off a known comparison between absolute values.
    #[verifier::rlimit(40)]
    pub fn try_verify_abs_lower_bound_from_abs_compare(&self, left: &Obj, right: &Obj, strict: bool, verify_state: &VerifyState) -> (r: Option<BuiltinRule>)
        ensures
            r == abs_bound_from_abs_compare(self, left@, right@, strict, verify_state.subgoal_depth as nat),
        decreases verify_state.subgoal_depth, 1nat,
    {
        let zero = zero_obj();
        if let Some(inner) = peel_negation(left) {
            if let Some(y) = peel_abs(inner) {
                if self.verify_known_abs_compare(right, &abs_obj(y.duplicate()), strict) {
                    return Some(BuiltinRule::AbsNegAbsBoundFromAbsCompare);
                }
            } else {
                if self.verify_known_abs_compare(right, &abs_obj(inner.duplicate()), strict) {
                    let ge = AtomicFact::GreaterEqualFact(inner.duplicate(), zero.duplicate());
                    if self.verify_subgoal(&ge, verify_state) {
                        return Some(BuiltinRule::AbsNegBoundFromAbsCompareAndSign);
                    }
                }
            }
        }
        if self.verify_known_abs_compare(left, right, strict) {
            return Some(BuiltinRule::AbsBoundFromAbsCompare);
        }
        if let Some(arg) = peel_negation(left) {
            if self.verify_known_abs_compare(arg, right, strict) {
                return Some(BuiltinRule::AbsNegArgBoundFromAbsCompare);
            }
        }
        if self.verify_known_abs_compare(right, &abs_obj(left.duplicate()), strict) {
            let le = AtomicFact::LessEqualFact(left.duplicate(), zero.duplicate());
            if self.verify_subgoal(&le, verify_state) {
                return Some(BuiltinRule::AbsLowerFromAbsCompareAndSign);
            }
        }
        if let Some(y) = peel_negation(right) {
            if self.verify_known_abs_compare(left, &abs_obj(y.duplicate()), strict) {
                let le = AtomicFact::LessEqualFact(y.duplicate(), zero.duplicate());
                if self.verify_subgoal(&le, verify_state) {
                    return Some(BuiltinRule::AbsNegUpperFromAbsCompareAndSign);
                }
            }
        }
        if self.verify_known_abs_compare(left, &abs_obj(right.duplicate()), strict) {
            let ge = AtomicFact::GreaterEqualFact(right.duplicate(), zero);
            if self.verify_subgoal(&ge, verify_state) {
                return Some(BuiltinRule::AbsUpperFromAbsCompareAndSign);
            }
        }
        None
    }

    /// The weak absolute-value rules for `left <= right`.
    pub fn verify_abs_order_weak_rules(&self, left: &Obj, right: &Obj, verify_state: &VerifyState) -> (r: Option<BuiltinRule>)
        ensures
            r == abs_weak_rule(self, left@, right@, verify_state.subgoal_depth as nat),
        decreases verify_state.subgoal_depth, 2nat,
    {
        if try_verify_abs_basic_lower_bound(left, right) {
            return Some(BuiltinRule::AbsLowerBound);
        }
        if try_verify_abs_triangle(left, right) {
            return Some(BuiltinRule::AbsTriangle);
        }
        if try_verify_abs_reverse_triangle(left, right) {
            return Some(BuiltinRule::AbsReverseTriangle);
        }
        if self.try_verify_abs_upper_bound(left, right, false, verify_state) {
            return Some(BuiltinRule::AbsUpperBound);
        }
        self.try_verify_abs_lower_bound_from_abs_compare(left, right, false, verify_state)
    }

    /// The strict absolute-value rules for `left < right`.
    pub fn verify_abs_order_strict_builtin_rule(&self, left: &Obj, right: &Obj, verify_state: &VerifyState) -> (r: Option<BuiltinRule>)
        ensures
            r == abs_strict_rule(self, left@, right@, verify_state.subgoal_depth as nat),
        decreases verify_state.subgoal_depth, 2nat,
    {
        if self.try_verify_abs_upper_bound(left, right, true, verify_state) {
            return Some(BuiltinRule::AbsUpperBoundStrict);
        }
        self.try_verify_abs_lower_bound_from_abs_compare(left, right, true, verify_state)
    }

    /// The absolute-value rules, after normalizing the order fact.
    pub fn verify_abs_order_builtin_rule(&self, atomic_fact: &AtomicFact, verify_state: &VerifyState) -> (r: Option<BuiltinRule>)
        ensures
            r == abs_rule(self, atomic_fact@, verify_state.subgoal_depth as nat),
        decreases verify_state.subgoal_depth, 3nat,
    {
        match normalize_positive_order_atomic_fact(atomic_fact) {
            Some(AtomicFact::LessEqualFact(l, r)) => self.verify_abs_order_weak_rules(&l, &r, verify_state),
            Some(AtomicFact::LessFact(l, r)) => self.verify_abs_order_strict_builtin_rule(&l, &r, verify_state),
            _ => None,
        }
    }

    /// `0 <= sqrt(x)` from `0 <= x`.
    pub fn verify_zero_le_sqrt_from_nonnegative_arg_builtin_rule(&self, atomic_fact: &AtomicFact, verify_state: &VerifyState) -> (r: bool)
        ensures
            r == zero_le_sqrt(self, atomic_fact@, verify_state.subgoal_depth as nat),
        decreases verify_state.subgoal_depth, 1nat,
    {
        match normalize_positive_order_atomic_fact(atomic_fact) {
            Some(AtomicFact::LessEqualFact(z, e)) => match e {
                Obj::Sqrt(x) => {
                    if !objs_equal(&z, &zero_obj()) {
                        return false;
                    }
                    let g = AtomicFact::LessEqualFact(zero_obj(), x.duplicate());
                    self.verify_subgoal(&g, verify_state)
                },
                _ => false,
            },
            _ => false,
        }
    }

    /// `0 < sqrt(x)` from `0 < x`.
    pub fn verify_zero_lt_sqrt_from_positive_arg_builtin_rule(&self, atomic_fact: &AtomicFact, verify_state: &VerifyState) -> (r: bool)
        ensures
            r == zero_lt_sqrt(self, atomic_fact@, verify_state.subgoal_depth as nat),
        decreases verify_state.subgoal_depth, 1nat,
    {
        match normalize_positive_order_atomic_fact(atomic_fact) {
            Some(AtomicFact::LessFact(z, e)) => match e {
                Obj::Sqrt(x) => {
                    if !objs_equal(&z, &zero_obj()) {
                        return false;
                    }
                    let g = AtomicFact::LessFact(zero_obj(), x.duplicate());
                    self.verify_subgoal(&g, verify_state)
                },
                _ => false,
            },
            _ => false,
        }
    }

    /// `0 <= u - v` from `v <= u`, and `0 < u - v` from `v < u`.
    pub fn verify_zero_order_on_sub_from_two_sided_order_builtin_rule(&self, atomic_fact: &AtomicFact, verify_state: &VerifyState) -> (r: Option<BuiltinRule>)
        ensures
            r == zero_sub_rule(self, atomic_fact@, verify_state.subgoal_depth as nat),
        decreases verify_state.subgoal_depth, 1nat,
    {
        match normalize_positive_order_atomic_fact(atomic_fact) {
            Some(AtomicFact::LessEqualFact(z, e)) => match e {
                Obj::Sub(u, v) => {
                    if objs_equal(&z, &zero_obj()) && self.verify_order_subgoal(&AtomicFact::LessEqualFact(v.duplicate(), u.duplicate()), verify_state) {
                        Some(BuiltinRule::ZeroLeSubFromOrder)
                    } else {
                        None
                    }
                },
                _ => None,
            },
            Some(AtomicFact::LessFact(z, e)) => match e {
                Obj::Sub(u, v) => {
                    if objs_equal(&z, &zero_obj()) && self.verify_order_subgoal(&AtomicFact::LessFact(v.duplicate(), u.duplicate()), verify_state) {
                        Some(BuiltinRule::ZeroLtSubFromOrder)
                    } else {
                        None
                    }
                },
                _ => None,
            },
            _ => None,
        }
    }

    /// `0 <= a + b` from `0 <= a` and `0 <= b`.
    pub fn verify_zero_le_add_from_known_atomic_facts_builtin_rule(&self, atomic_fact: &AtomicFact, verify_state: &VerifyState) -> (r: bool)
        ensures
            r == zero_le_add(self, atomic_fact@, verify_state.subgoal_depth as nat),
        decreases verify_state.subgoal_depth, 1nat,
    {
        match normalize_positive_order_atomic_fact(atomic_fact) {
            Some(AtomicFact::LessEqualFact(z, e)) => match e {
                Obj::Add(a, b) => {
                    objs_equal(&z, &zero_obj())
                        && self.verify_order_subgoal(&AtomicFact::LessEqualFact(zero_obj(), a.duplicate()), verify_state)
                        && self.verify_order_subgoal(&AtomicFact::LessEqualFact(zero_obj(), b.duplicate()), verify_state)
                },
                _ => false,
            },
            _ => false,
        }
    }

    /// `0 < a + b` from `0 < a` and `0 <= b`, or from `0 <= a` and `0 < b`.
    pub fn verify_zero_lt_add_from_known_atomic_facts_builtin_rule(&self, atomic_fact: &AtomicFact, verify_state: &VerifyState) -> (r: Option<BuiltinRule>)
        ensures
            r == zero_lt_add(self, atomic_fact@, verify_state.subgoal_depth as nat),
        decreases verify_state.subgoal_depth, 1nat,
    {
        match normalize_positive_order_atomic_fact(atomic_fact) {
            Some(AtomicFact::LessFact(z, e)) => match e {
                Obj::Add(a, b) => {
                    if !objs_equal(&z, &zero_obj()) {
                        return None;
                    }
                    if self.verify_order_subgoal(&AtomicFact::LessFact(zero_obj(), a.duplicate()), verify_state)
                        && self.verify_order_subgoal(&AtomicFact::LessEqualFact(zero_obj(), b.duplicate()), verify_state) {
                        return Some(BuiltinRule::ZeroLtAddStrictLeft);
                    }
                    if self.verify_order_subgoal(&AtomicFact::LessEqualFact(zero_obj(), a.duplicate()), verify_state)
                        && self.verify_order_subgoal(&AtomicFact::LessFact(zero_obj(), b.duplicate()), verify_state) {
                        return Some(BuiltinRule::ZeroLtAddStrictRight);
                    }
                    None
                },
                _ => None,
            },
            _ => None,
        }
    }

    /// `l <= r` or `l >= r`, as written, from the same object on both sides, a
    /// known equality, or the known strict fact.
    pub fn verify_weak_order_from_equality_or_strict_order(&self, atomic_fact: &AtomicFact) -> (r: Option<BuiltinRule>)
        ensures
            r == weak_order_rule(self, atomic_fact@),
    {
        match atomic_fact {
            AtomicFact::LessEqualFact(l, r) => {
                if objs_equal(l, r) {
                    Some(BuiltinRule::LessEqualFromSameObject)
                } else if self.objs_known_equal(l, r) {
                    Some(BuiltinRule::LessEqualFromKnownEquality)
                } else if self.fact_is_known(&AtomicFact::LessFact(l.duplicate(), r.duplicate())) {
                    Some(BuiltinRule::LessEqualFromKnownStrictOrder)
                } else {
                    None
                }
            },
            AtomicFact::GreaterEqualFact(l, r) => {
                if objs_equal(l, r) {
                    Some(BuiltinRule::GreaterEqualFromSameObject)
                } else if self.objs_known_equal(l, r) {
                    Some(BuiltinRule::GreaterEqualFromKnownEquality)
                } else if self.fact_is_known(&AtomicFact::GreaterFact(l.duplicate(), r.duplicate())) {
                    Some(BuiltinRule::GreaterEqualFromKnownStrictOrder)
                } else {
                    None
                }
            },
            _ => None,
        }
    }

    /// Compare number literals, or quotients of them with the denominators
    /// cleared: whether the normalized order fact holds, or `None` when
    /// neither applies.
    pub fn verify_number_comparison_builtin_rule(&self, atomic_fact: &AtomicFact) -> (r: Option<bool>)
        ensures
            r == number_comparison(atomic_fact@),
    {
        match normalize_positive_order_atomic_fact(atomic_fact) {
            Some(AtomicFact::LessFact(l, r)) => match (resolve_number_literal(&l), resolve_number_literal(&r)) {
                (Some(a), Some(b)) => Some(matches!(compare_number_strings(a.as_str(), b.as_str()), NumberCompareResult::Less)),
                _ => self.try_verify_numeric_order_via_div_elimination(&l, &r, false),
            },
            Some(AtomicFact::LessEqualFact(l, r)) => match (resolve_number_literal(&l), resolve_number_literal(&r)) {
                (Some(a), Some(b)) => Some(!matches!(compare_number_strings(a.as_str(), b.as_str()), NumberCompareResult::Greater)),
                _ => self.try_verify_numeric_order_via_div_elimination(&l, &r, true),
            },
            _ => None,
        }
    }

    /// An order fact by the numeric builtin rules, tried in turn.
    #[verifier::spinoff_prover]
    #[verifier::rlimit(60)]
    pub fn verify_order_atomic_fact_numeric_builtin_only(&self, atomic_fact: &AtomicFact, verify_state: &VerifyState) -> (r: Result<StmtResult, RuntimeError>)
        ensures
            r == Ok::<StmtResult, RuntimeError>(order_result(self, atomic_fact@, verify_state.subgoal_depth as nat)),
        decreases verify_state.subgoal_depth, 5nat,
    {
        let rule = if self.try_verify_order_nonnegative_from_membership_in_n(atomic_fact, verify_state) {
            Some(BuiltinRule::NonnegativeFromMembershipInN)
        } else if self.try_verify_order_one_le_from_membership_in_n_pos(atomic_fact, verify_state) {
            Some(BuiltinRule::OneLeFromMembershipInNPos)
        } else if self.try_verify_order_one_le_from_membership_in_n_and_nonzero(atomic_fact, verify_state) {
            Some(BuiltinRule::OneLeFromMembershipInNAndNonzero)
        } else if self.try_verify_order_one_le_from_membership_in_z_and_positive(atomic_fact, verify_state) {
            Some(BuiltinRule::OneLeFromMembershipInZAndPositive)
        } else if self.try_verify_numeric_lower_bound_from_known_lower_bound(atomic_fact, verify_state).is_some() {
            self.try_verify_numeric_lower_bound_from_known_lower_bound(atomic_fact, verify_state)
        } else if self.verify_order_from_known_negated_complement(atomic_fact) {
            Some(BuiltinRule::OrderFromKnownNegatedComplement)
        } else if self.verify_negated_order_from_known_equivalent_order(atomic_fact) {
            Some(BuiltinRule::NegatedOrderFromKnownEquivalentOrder)
        } else if self.verify_order_algebra_structural_builtin_rule(atomic_fact, verify_state).is_some() {
            self.verify_order_algebra_structural_builtin_rule(atomic_fact, verify_state)
        } else if verify_zero_le_abs_builtin_rule(atomic_fact) {
            Some(BuiltinRule::ZeroLeAbs)
        } else if self.verify_zero_le_sqrt_from_nonnegative_arg_builtin_rule(atomic_fact, verify_state) {
            Some(BuiltinRule::ZeroLeSqrt)
        } else if self.verify_zero_lt_sqrt_from_positive_arg_builtin_rule(atomic_fact, verify_state) {
            Some(BuiltinRule::ZeroLtSqrt)
        } else if self.verify_sqrt_monotonicity_builtin_rule(atomic_fact, verify_state) {
            Some(BuiltinRule::SqrtMonotone)
        } else if self.verify_log_order_builtin_rule(atomic_fact, verify_state).is_some() {
            self.verify_log_order_builtin_rule(atomic_fact, verify_state)
        } else {
            let abs = self.verify_abs_order_builtin_rule(atomic_fact, verify_state);
            if abs.is_some() {
                abs
            } else {
                let sub = self.verify_zero_order_on_sub_from_two_sided_order_builtin_rule(atomic_fact, verify_state);
                if sub.is_some() {
                    sub
                } else if self.verify_zero_le_add_from_known_atomic_facts_builtin_rule(atomic_fact, verify_state) {
                    Some(BuiltinRule::ZeroLeAdd)
                } else {
                    let add = self.verify_zero_lt_add_from_known_atomic_facts_builtin_rule(atomic_fact, verify_state);
                    if add.is_some() {
                        add
                    } else {
                        let power = self.verify_power_sign_builtin_rule(atomic_fact, verify_state);
                        let product = if power.is_some() {
                            power
                        } else {
                            self.verify_zero_order_on_product_builtin_rule(atomic_fact, verify_state)
                        };
                        if product.is_some() {
                            product
                        } else {
                            let weak = self.verify_weak_order_from_equality_or_strict_order(atomic_fact);
                            if weak.is_some() {
                                weak
                            } else if self.verify_number_comparison_builtin_rule(atomic_fact) == Some(true) {
                                Some(BuiltinRule::NumberComparison)
                            } else {
                                None
                            }
                        }
                    }
                }
            }
        };
        match rule {
            Some(r) => Ok(succeed(r)),
            None => Ok(StmtResult::StmtUnknown),
        }
    }
}

/// Whether the number that a literal denotes lies in a standard set.
pub fn number_in_standard_set(number_value: &str, set: &StandardSet) -> (r: bool)
    ensures
        r == literal_in_standard_set(number_value@, *set),
{
    let integer = normalized_decimal_string_is_integer(number_value);
    let sign = compare_normalized_number_str_to_zero(number_value);
    let positive = matches!(sign, NumberCompareResult::Greater);
    let negative = matches!(sign, NumberCompareResult::Less);
    let zero = matches!(sign, NumberCompareResult::Equal);
    match set {
        StandardSet::NPos => integer && positive,
        StandardSet::N => integer && !negative,
        StandardSet::Z => integer,
        StandardSet::Q => true,
        StandardSet::R => true,
        StandardSet::QPos => positive,
        StandardSet::RPos => positive,
        StandardSet::QNeg => negative,
        StandardSet::ZNeg => integer && negative,
        StandardSet::RNeg => negative,
        StandardSet::QNz => !zero,
        StandardSet::ZNz => integer && !zero,
        StandardSet::RNz => !zero,
    }
}

/// `n $in set` for a literal `n`.
pub fn builtin_in_fact_result_for_evaluated_number_in_standard_set(number_value: &str, set: &StandardSet) -> (r: StmtResult)
    ensures
        r == literal_in_result(number_value@, *set),
{
    if number_in_standard_set(number_value, set) {
        succeed(BuiltinRule::StandardSetMembership)
    } else {
        StmtResult::StmtUnknown
    }
}

/// `not n $in set` for a literal `n`.
pub fn builtin_not_in_fact_result_for_evaluated_number_in_standard_set(number_value: &str, set: &StandardSet) -> (r: StmtResult)
    ensures
        r == literal_not_in_result(number_value@, *set),
{
    if !number_in_standard_set(number_value, set) {
        succeed(BuiltinRule::NotInStandardSet)
    } else {
        StmtResult::StmtUnknown
    }
}

impl Runtime {
    /// `(a, b, ...) $in cart(A, B, ...)`: each component in its factor.
    pub fn verify_in_fact_by_left_is_tuple_right_is_cart(&self, tuple: &Vec<Obj>, cart: &Vec<Obj>, verify_state: &VerifyState) -> (r: StmtResult)
        ensures
            r == (if view_list(tuple@).len() >= 2 && view_list(tuple@).len() == view_list(cart@).len()
                && all_components_in(self, view_list(tuple@), view_list(cart@), verify_state.subgoal_depth as nat) {
                builtin_success(BuiltinRule::TupleInCart)
            } else {
                StmtResult::StmtUnknown
            }),
        decreases verify_state.subgoal_depth, 1nat,
    {
        proof {
            lemma_view_list(tuple@);
            lemma_view_list(cart@);
        }
        let ghost tv = view_list(tuple@);
        let ghost cv = view_list(cart@);
        if tuple.len() < 2 || tuple.len() != cart.len() {
            return StmtResult::StmtUnknown;
        }
        let mut i: usize = 0;
        while i < tuple.len()
            invariant
                i <= tuple.len(),
                tuple.len() == cart.len(),
                tv == view_list(tuple@),
                cv == view_list(cart@),
                tv.len() == tuple.len(),
                cv.len() == cart.len(),
                forall|j: int| 0 <= j < tuple.len() ==> #[trigger] tv[j] == tuple@[j]@,
                forall|j: int| 0 <= j < cart.len() ==> #[trigger] cv[j] == cart@[j]@,
                forall|j: int| 0 <= j < i ==> subgoal_holds(self, AtomicFactV::InFact(#[trigger] tv[j], cv[j]), verify_state.subgoal_depth as nat),
            decreases tuple.len() - i,
        {
            let g = AtomicFact::InFact(tuple[i].duplicate(), cart[i].duplicate());
            if !self.verify_subgoal(&g, verify_state) {
                assert(g@ == AtomicFactV::InFact(tv[i as int], cv[i as int]));
                return StmtResult::StmtUnknown;
            }
            i = i + 1;
        }
        succeed(BuiltinRule::TupleInCart)
    }

    /// `a $in N` and `b $in N`, as subgoals.
    fn verify_operands_in_n(&self, a: &Obj, b: &Obj, verify_state: &VerifyState) -> (r: bool)
        ensures
            r == operands_in_n(self, a@, b@, verify_state.subgoal_depth as nat),
        decreases verify_state.subgoal_depth, 1nat,
    {
        self.verify_subgoal(&AtomicFact::InFact(a.duplicate(), Obj::StandardSet(StandardSet::N)), verify_state)
            && self.verify_subgoal(&AtomicFact::InFact(b.duplicate(), Obj::StandardSet(StandardSet::N)), verify_state)
    }

    /// `a + b $in N` from `a $in N` and `b $in N`.
    pub fn verify_in_fact_add_in_n_from_summands_in_n(&self, a: &Obj, b: &Obj, verify_state: &VerifyState) -> (r: StmtResult)
        ensures
            r == (if operands_in_n(self, a@, b@, verify_state.subgoal_depth as nat) {
                builtin_success(BuiltinRule::AddInNFromSummands)
            } else {
                StmtResult::StmtUnknown
            }),
        decreases verify_state.subgoal_depth, 2nat,
    {
        if self.verify_operands_in_n(a, b, verify_state) {
            succeed(BuiltinRule::AddInNFromSummands)
        } else {
            StmtResult::StmtUnknown
        }
    }

    /// `a * b $in N` from `a $in N` and `b $in N`.
    pub fn verify_in_fact_mul_in_n_from_factors_in_n(&self, a: &Obj, b: &Obj, verify_state: &VerifyState) -> (r: StmtResult)
        ensures
            r == (if operands_in_n(self, a@, b@, verify_state.subgoal_depth as nat) {
                builtin_success(BuiltinRule::MulInNFromFactors)
            } else {
                StmtResult::StmtUnknown
            }),
        decreases verify_state.subgoal_depth, 2nat,
    {
        if self.verify_operands_in_n(a, b, verify_state) {
            succeed(BuiltinRule::MulInNFromFactors)
        } else {
            StmtResult::StmtUnknown
        }
    }

    /// `e $in {a, b, ...}`: `e` is one of the listed objects or known equal to one.
    pub fn verify_in_fact_by_equal_to_one_element_in_list_set(&self, element: &Obj, list: &Vec<Obj>) -> (r: StmtResult)
        ensures
            r == (if equals_some_element(self, element@, view_list(list@)) {
                builtin_success(BuiltinRule::ListSetMembership)
            } else {
                StmtResult::StmtUnknown
            }),
    {
        proof {
            lemma_view_list(list@);
        }
        let ghost v = view_list(list@);
        let mut i: usize = 0;
        while i < list.len()
            invariant
                i <= list.len(),
                v == view_list(list@),
                v.len() == list.len(),
                forall|j: int| 0 <= j < list.len() ==> #[trigger] v[j] == list@[j]@,
                forall|j: int| 0 <= j < i ==> !(element@ == #[trigger] v[j] || known_equal(self, element@, v[j])),
            decreases list.len() - i,
        {
            if objs_equal(element, &list[i]) || self.objs_known_equal(element, &list[i]) {
                assert(element@ == v[i as int] || known_equal(self, element@, v[i as int]));
                return succeed(BuiltinRule::ListSetMembership);
            }
            i = i + 1;
        }
        StmtResult::StmtUnknown
    }

    /// `not e $in {a, b, ...}`: `e != a`, `e != b`, ... as subgoals.
    pub fn verify_not_in_fact_by_not_equal_to_every_element_in_list_set(&self, element: &Obj, list: &Vec<Obj>, verify_state: &VerifyState) -> (r: StmtResult)
        ensures
            r == (if differs_from_all(self, element@, view_list(list@), verify_state.subgoal_depth as nat) {
                builtin_success(BuiltinRule::NotInListSet)
            } else {
                StmtResult::StmtUnknown
            }),
        decreases verify_state.subgoal_depth, 1nat,
    {
        proof {
            lemma_view_list(list@);
        }
        let ghost v = view_list(list@);
        let mut i: usize = 0;
        while i < list.len()
            invariant
                i <= list.len(),
                v == view_list(list@),
                v.len() == list.len(),
                forall|j: int| 0 <= j < list.len() ==> #[trigger] v[j] == list@[j]@,
                forall|j: int| 0 <= j < i ==> subgoal_holds(self, AtomicFactV::NotEqualFact(element@, #[trigger] v[j]), verify_state.subgoal_depth as nat),
            decreases list.len() - i,
        {
            let g = AtomicFact::NotEqualFact(element.duplicate(), list[i].duplicate());
            if !self.verify_subgoal(&g, verify_state) {
                assert(g@ == AtomicFactV::NotEqualFact(element@, v[i as int]));
                return StmtResult::StmtUnknown;
            }
            i = i + 1;
        }
        succeed(BuiltinRule::NotInListSet)
    }

    /// The builtin rules for `element $in set`.
    pub fn verify_in_fact_with_builtin_rules(&self, element: &Obj, set: &Obj, verify_state: &VerifyState) -> (r: Result<StmtResult, RuntimeError>)
        ensures
            r == Ok::<StmtResult, RuntimeError>(in_result(self, element@, set@, verify_state.subgoal_depth as nat)),
        decreases verify_state.subgoal_depth, 4nat,
    {
        match set {
            Obj::Cart(cv) => match element {
                Obj::Tuple(tv) => Ok(self.verify_in_fact_by_left_is_tuple_right_is_cart(tv, cv, verify_state)),
                _ => Ok(StmtResult::StmtUnknown),
            },
            Obj::StandardSet(s) => match element {
                Obj::Number(n) => Ok(builtin_in_fact_result_for_evaluated_number_in_standard_set(n.as_str(), s)),
                Obj::Add(a, b) => {
                    if matches!(s, StandardSet::N) {
                        Ok(self.verify_in_fact_add_in_n_from_summands_in_n(a, b, verify_state))
                    } else {
                        Ok(rule_outcome(self.verify_in_standard_set_builtin_rule(element, s, verify_state)))
                    }
                },
                Obj::Mul(a, b) => {
                    if matches!(s, StandardSet::N) {
                        Ok(self.verify_in_fact_mul_in_n_from_factors_in_n(a, b, verify_state))
                    } else {
                        Ok(rule_outcome(self.verify_in_standard_set_builtin_rule(element, s, verify_state)))
                    }
                },
                _ => Ok(rule_outcome(self.verify_in_standard_set_builtin_rule(element, s, verify_state))),
            },
            Obj::ListSet(v) => Ok(self.verify_in_fact_by_equal_to_one_element_in_list_set(element, v)),
            Obj::ClosedRange(_, _) | Obj::Range(_, _) | Obj::Interval(_, _, _, _) => Ok(rule_outcome(self.verify_in_fact_range_by_order_bounds(element, set, verify_state))),
            _ => Ok(StmtResult::StmtUnknown),
        }
    }

    /// The builtin rules for `not element $in set`.
    pub fn verify_not_in_fact_with_builtin_rules(&self, element: &Obj, set: &Obj, verify_state: &VerifyState) -> (r: Result<StmtResult, RuntimeError>)
        ensures
            r == Ok::<StmtResult, RuntimeError>(not_in_result(self, element@, set@, verify_state.subgoal_depth as nat)),
        decreases verify_state.subgoal_depth, 3nat,
    {
        match set {
            Obj::StandardSet(s) => match element {
                Obj::Number(n) => Ok(builtin_not_in_fact_result_for_evaluated_number_in_standard_set(n.as_str(), s)),
                _ => Ok(StmtResult::StmtUnknown),
            },
            Obj::ListSet(v) => Ok(self.verify_not_in_fact_by_not_equal_to_every_element_in_list_set(element, v, verify_state)),
            _ => Ok(StmtResult::StmtUnknown),
        }
    }

    /// `{} != s` from `$is_nonempty_set(s)`.
    pub fn try_verify_not_equal_empty_set_from_nonempty(&self, left: &Obj, right: &Obj, verify_state: &VerifyState) -> (r: bool)
        ensures
            r == not_equal_empty_set_from_nonempty(self, left@, right@, verify_state.subgoal_depth as nat),
        decreases verify_state.subgoal_depth, 1nat,
    {
        let set = match (left, right) {
            (Obj::ListSet(x), _) if x.len() == 0 => {
                proof { lemma_view_list(x@); }
                right
            },
            _ => match right {
                Obj::ListSet(y) if y.len() == 0 => {
                    proof { lemma_view_list(y@); }
                    left
                },
                _ => {
                    proof {
                        if let Obj::ListSet(x) = left { lemma_view_list(x@); }
                        if let Obj::ListSet(y) = right { lemma_view_list(y@); }
                    }
                    return false;
                },
            },
        };
        proof {
            if let Obj::ListSet(x) = left { lemma_view_list(x@); }
        }
        self.verify_subgoal(&AtomicFact::IsNonemptySetFact(set.duplicate()), verify_state)
    }

    /// `l != r` from a known strict order between them.
    pub fn try_verify_not_equal_from_known_strict_order(&self, left: &Obj, right: &Obj) -> (r: bool)
        ensures
            r == known_strict_order_between(self, left@, right@),
    {
        self.fact_is_known(&AtomicFact::LessFact(left.duplicate(), right.duplicate()))
            || self.fact_is_known(&AtomicFact::GreaterFact(left.duplicate(), right.duplicate()))
            || self.fact_is_known(&AtomicFact::LessFact(right.duplicate(), left.duplicate()))
            || self.fact_is_known(&AtomicFact::GreaterFact(right.duplicate(), left.duplicate()))
    }

    /// `a - b != 0` from a known `a != b` or `b != a`.
    pub fn try_verify_sub_not_equal_zero_from_operand_not_equal(&self, left: &Obj, right: &Obj) -> (r: bool)
        ensures
            r == (sub_against_zero(left@, right@) matches Some((a, b)) && (is_known(self, AtomicFactV::NotEqualFact(a, b))
                || is_known(self, AtomicFactV::NotEqualFact(b, a)))),
    {
        let zero = zero_obj();
        let (a, b) = match (left, right) {
            (Obj::Sub(a, b), _) if objs_equal(right, &zero) => (a, b),
            _ => match right {
                Obj::Sub(a, b) if objs_equal(left, &zero) => (a, b),
                _ => return false,
            },
        };
        self.fact_is_known(&AtomicFact::NotEqualFact(a.duplicate(), b.duplicate()))
            || self.fact_is_known(&AtomicFact::NotEqualFact(b.duplicate(), a.duplicate()))
    }

    /// `a + b != 0` from a known `a != -b` or `b != -a`.
    pub fn try_verify_add_not_equal_zero_from_operand_not_equal_negation(&self, left: &Obj, right: &Obj) -> (r: bool)
        ensures
            r == (add_against_zero(left@, right@) matches Some((a, b)) && (is_known(self, AtomicFactV::NotEqualFact(a, neg_v(b)))
                || is_known(self, AtomicFactV::NotEqualFact(b, neg_v(a))))),
    {
        let zero = zero_obj();
        let (a, b) = match (left, right) {
            (Obj::Add(a, b), _) if objs_equal(right, &zero) => (a, b),
            _ => match right {
                Obj::Add(a, b) if objs_equal(left, &zero) => (a, b),
                _ => return false,
            },
        };
        self.fact_is_known(&AtomicFact::NotEqualFact(a.duplicate(), neg_obj(b)))
            || self.fact_is_known(&AtomicFact::NotEqualFact(b.duplicate(), neg_obj(a)))
    }

    /// The builtin rules for `left != right`.
    pub fn verify_not_equal_fact_with_builtin_rules(&self, left: &Obj, right: &Obj, verify_state: &VerifyState) -> (r: Result<StmtResult, RuntimeError>)
        ensures
            r == Ok::<StmtResult, RuntimeError>(not_equal_result(self, left@, right@, verify_state.subgoal_depth as nat)),
        decreases verify_state.subgoal_depth, 4nat,
    {
        if let (Some(a), Some(b)) = (resolve_number_literal(left), resolve_number_literal(right)) {
            if !matches!(compare_number_strings(a.as_str(), b.as_str()), NumberCompareResult::Equal) {
                return Ok(succeed(BuiltinRule::NotEqualByCalculation));
            }
        }
        if let (Obj::ListSet(x), Obj::ListSet(y)) = (left, right) {
            proof {
                lemma_view_list(x@);
                lemma_view_list(y@);
            }
            if x.len() != y.len() {
                return Ok(succeed(BuiltinRule::NotEqualListSetsOfDifferentLength));
            }
        }
        if self.try_verify_not_equal_empty_set_from_nonempty(left, right, verify_state) {
            return Ok(succeed(BuiltinRule::NotEqualEmptySetFromNonempty));
        }
        if self.try_verify_not_equal_from_known_strict_order(left, right) {
            return Ok(succeed(BuiltinRule::NotEqualFromKnownStrictOrder));
        }
        if self.try_verify_sub_not_equal_zero_from_operand_not_equal(left, right) {
            return Ok(succeed(BuiltinRule::SubNotEqualZeroFromOperandNotEqual));
        }
        if self.try_verify_add_not_equal_zero_from_operand_not_equal_negation(left, right) {
            return Ok(succeed(BuiltinRule::AddNotEqualZeroFromOperandNotEqualNegation));
        }
        let known = self.verify_not_equal_from_known_difference_or_sum(left, right);
        if let Some(rule) = known {
            return Ok(succeed(rule));
        }
        match self.verify_not_equal_zero_builtin_rule(left, right, verify_state) {
            Some(rule) => Ok(succeed(rule)),
            None => Ok(StmtResult::StmtUnknown),
        }
    }
}

/// For two sums with a common term, the two remaining terms.
pub fn add_common_remaining(left: &Obj, right: &Obj) -> (r: Option<(Obj, Obj)>)
    ensures
        r matches Some((a, b)) ==> add_common_remaining_v(left@, right@) == Some((a@, b@)),
        r is None <==> add_common_remaining_v(left@, right@) is None,
{
    match (left, right) {
        (Obj::Add(l1, l2), Obj::Add(r1, r2)) => {
            if objs_equal(l1, r1) {
                Some((l2.duplicate(), r2.duplicate()))
            } else if objs_equal(l1, r2) {
                Some((l2.duplicate(), r1.duplicate()))
            } else if objs_equal(l2, r1) {
                Some((l1.duplicate(), r2.duplicate()))
            } else if objs_equal(l2, r2) {
                Some((l1.duplicate(), r1.duplicate()))
            } else {
                None
            }
        },
        _ => None,
    }
}

/// For `a <= a + b` or `a <= b + a`, the other addend `b`.
pub fn other_addend_of(left: &Obj, right: &Obj) -> (r: Option<Obj>)
    ensures
        r matches Some(b) ==> other_addend(left@, right@) == Some(b@),
        r is None <==> other_addend(left@, right@) is None,
{
    match right {
        Obj::Add(u, v) => {
            if objs_equal(u, left) {
                Some(v.duplicate())
            } else if objs_equal(v, left) {
                Some(u.duplicate())
            } else {
                None
            }
        },
        _ => None,
    }
}

impl Runtime {
    /// `u + a <= u + b` from `a <= b` (and the strict form).
    pub fn try_add_common_term(&self, left: &Obj, right: &Obj, strict: bool, verify_state: &VerifyState) -> (r: bool)
        ensures
            r == alg_add_common(self, left@, right@, strict, verify_state.subgoal_depth as nat),
        decreases verify_state.subgoal_depth, 1nat,
    {
        proof {
            reveal(alg_add_common);
        }
        match add_common_remaining(left, right) {
            Some((a, b)) => self.verify_order_subgoal(&abs_order_subgoal(a, b, strict), verify_state),
            None => false,
        }
    }

    /// `a - d < b - c` from `a < b` and `c <= d`, or from `a <= b` and `c < d`.
    pub fn try_sub_componentwise_strict(&self, left: &Obj, right: &Obj, verify_state: &VerifyState) -> (r: bool)
        ensures
            r == alg_sub_componentwise_strict(self, left@, right@, verify_state.subgoal_depth as nat),
        decreases verify_state.subgoal_depth, 1nat,
    {
        proof {
            reveal(alg_sub_componentwise_strict);
        }
        match (left, right) {
            (Obj::Sub(a, dd), Obj::Sub(b, c)) => {
                let r1 = self.verify_order_subgoal(&AtomicFact::LessFact(a.duplicate(), b.duplicate()), verify_state);
                let r2 = self.verify_order_subgoal(&AtomicFact::LessEqualFact(c.duplicate(), dd.duplicate()), verify_state);
                if r1 && r2 {
                    return true;
                }
                let r3 = self.verify_order_subgoal(&AtomicFact::LessEqualFact(a.duplicate(), b.duplicate()), verify_state);
                let r4 = self.verify_order_subgoal(&AtomicFact::LessFact(c.duplicate(), dd.duplicate()), verify_state);
                r3 && r4
            },
            _ => false,
        }
    }

    /// `a - d <= b - c` from `a <= b` and `c <= d`.
    pub fn try_sub_componentwise_weak(&self, left: &Obj, right: &Obj, verify_state: &VerifyState) -> (r: bool)
        ensures
            r == alg_sub_componentwise_weak(self, left@, right@, verify_state.subgoal_depth as nat),
        decreases verify_state.subgoal_depth, 1nat,
    {
        proof {
            reveal(alg_sub_componentwise_weak);
        }
        match (left, right) {
            (Obj::Sub(a, dd), Obj::Sub(b, c)) => {
                self.verify_order_subgoal(&AtomicFact::LessEqualFact(a.duplicate(), b.duplicate()), verify_state)
                    && self.verify_order_subgoal(&AtomicFact::LessEqualFact(c.duplicate(), dd.duplicate()), verify_state)
            },
            _ => false,
        }
    }

    /// `a - c <= b` from `a <= b` and `0 <= c` (and the strict form).
    pub fn try_subtract_nonnegative(&self, left: &Obj, right: &Obj, strict: bool, verify_state: &VerifyState) -> (r: bool)
        ensures
            r == alg_subtract_nonnegative(self, left@, right@, strict, verify_state.subgoal_depth as nat),
        decreases verify_state.subgoal_depth, 1nat,
    {
        proof {
            reveal(alg_subtract_nonnegative);
        }
        match left {
            Obj::Sub(a, c) => {
                let order = self.verify_order_subgoal(&abs_order_subgoal(a.duplicate(), right.duplicate(), strict), verify_state);
                let nonnegative = self.verify_order_subgoal(&AtomicFact::LessEqualFact(zero_obj(), c.duplicate()), verify_state);
                order && nonnegative
            },
            _ => false,
        }
    }

    /// `a - c < b` from `a <= b` and `0 < c`.
    pub fn try_subtract_positive(&self, left: &Obj, right: &Obj, verify_state: &VerifyState) -> (r: bool)
        ensures
            r == alg_subtract_positive(self, left@, right@, verify_state.subgoal_depth as nat),
        decreases verify_state.subgoal_depth, 1nat,
    {
        proof {
            reveal(alg_subtract_positive);
        }
        match left {
            Obj::Sub(a, c) => {
                let weak = self.verify_order_subgoal(&AtomicFact::LessEqualFact(a.duplicate(), right.duplicate()), verify_state);
                let positive = self.verify_order_subgoal(&AtomicFact::LessFact(zero_obj(), c.duplicate()), verify_state);
                weak && positive
            },
            _ => false,
        }
    }

    /// `a - c <= b` from `a <= b + c` (and the strict form).
    pub fn try_move_left_subtractor(&self, left: &Obj, right: &Obj, strict: bool, verify_state: &VerifyState) -> (r: bool)
        ensures
            r == alg_move_left_subtractor(self, left@, right@, strict, verify_state.subgoal_depth as nat),
        decreases verify_state.subgoal_depth, 1nat,
    {
        proof {
            reveal(alg_move_left_subtractor);
        }
        match left {
            Obj::Sub(a, c) => {
                let shifted_right = Obj::Add(Box::new(right.duplicate()), Box::new(c.duplicate()));
                self.verify_order_subgoal(&abs_order_subgoal(a.duplicate(), shifted_right, strict), verify_state)
            },
            _ => false,
        }
    }

    /// `a <= a + b` from `0 <= b` (and the strict form).
    pub fn try_self_plus(&self, left: &Obj, right: &Obj, strict: bool, verify_state: &VerifyState) -> (r: bool)
        ensures
            r == alg_self_plus(self, left@, right@, strict, verify_state.subgoal_depth as nat),
        decreases verify_state.subgoal_depth, 1nat,
    {
        proof {
            reveal(alg_self_plus);
        }
        match other_addend_of(left, right) {
            Some(b) => self.verify_order_subgoal(&abs_order_subgoal(zero_obj(), b, strict), verify_state),
            None => false,
        }
    }

    /// `a <= u + v` from `a <= u` and `0 <= v`, or from `a <= v` and `0 <= u`.
    pub fn try_add_nonnegative(&self, left: &Obj, right: &Obj, strict: bool, verify_state: &VerifyState) -> (r: bool)
        ensures
            r == alg_add_nonnegative(self, left@, right@, strict, verify_state.subgoal_depth as nat),
        decreases verify_state.subgoal_depth, 1nat,
    {
        proof {
            reveal(alg_add_nonnegative);
        }
        match right {
            Obj::Add(u, v) => {
                let r1 = self.verify_order_subgoal(&abs_order_subgoal(left.duplicate(), u.duplicate(), strict), verify_state);
                let r2 = self.verify_order_subgoal(&AtomicFact::LessEqualFact(zero_obj(), v.duplicate()), verify_state);
                if r1 && r2 {
                    return true;
                }
                let r3 = self.verify_order_subgoal(&abs_order_subgoal(left.duplicate(), v.duplicate(), strict), verify_state);
                let r4 = self.verify_order_subgoal(&AtomicFact::LessEqualFact(zero_obj(), u.duplicate()), verify_state);
                r3 && r4
            },
            _ => false,
        }
    }

    /// `a <= x - c` from `a + c <= x` (and the strict form).
    pub fn try_move_right_subtractor(&self, left: &Obj, right: &Obj, strict: bool, verify_state: &VerifyState) -> (r: bool)
        ensures
            r == alg_move_right_subtractor(self, left@, right@, strict, verify_state.subgoal_depth as nat),
        decreases verify_state.subgoal_depth, 1nat,
    {
        proof {
            reveal(alg_move_right_subtractor);
        }
        match right {
            Obj::Sub(x, c) => {
                let shifted_left = Obj::Add(Box::new(left.duplicate()), Box::new(c.duplicate()));
                self.verify_order_subgoal(&abs_order_subgoal(shifted_left, x.duplicate(), strict), verify_state)
            },
            _ => false,
        }
    }

}

/// A fact other than an equality holds, known or by the builtin rules.
pub open spec fn holds_known_then_builtin(rt: &Runtime, f: AtomicFactV, d: nat) -> bool {
    known_then_builtin_result(rt, f, d).spec_is_true()
}

/// `0 < a` and `0 < b`.
pub open spec fn both_strictly_positive(rt: &Runtime, a: ObjV, b: ObjV, d: nat) -> bool {
    holds_known_then_builtin(rt, AtomicFactV::LessFact(zero_v(), a), d)
        && holds_known_then_builtin(rt, AtomicFactV::LessFact(zero_v(), b), d)
}

/// `a < 0` and `b < 0`.
pub open spec fn both_strictly_negative(rt: &Runtime, a: ObjV, b: ObjV, d: nat) -> bool {
    holds_known_then_builtin(rt, AtomicFactV::LessFact(a, zero_v()), d)
        && holds_known_then_builtin(rt, AtomicFactV::LessFact(b, zero_v()), d)
}

/// `a < 0 < b` or `b < 0 < a`: the two have strictly opposite signs.
pub open spec fn strictly_opposite_signs(rt: &Runtime, a: ObjV, b: ObjV, d: nat) -> bool {
    (holds_known_then_builtin(rt, AtomicFactV::LessFact(a, zero_v()), d)
        && holds_known_then_builtin(rt, AtomicFactV::LessFact(zero_v(), b), d))
        || (holds_known_then_builtin(rt, AtomicFactV::LessFact(zero_v(), a), d)
        && holds_known_then_builtin(rt, AtomicFactV::LessFact(b, zero_v()), d))
}

impl Runtime {
    /// Whether a fact other than an equality is known or proved by the builtin rules.
    pub fn non_equational_atomic_fact_holds_by_known_then_builtin_rules_only(&self, atomic_fact: &AtomicFact, verify_state: &VerifyState) -> (r: Result<bool, RuntimeError>)
        ensures
            r == Ok::<bool, RuntimeError>(holds_known_then_builtin(self, atomic_fact@, verify_state.subgoal_depth as nat)),
    {
        Ok(self.verify_non_equational_known_then_builtin_rules_only(atomic_fact, verify_state).is_true())
    }

    /// Whether both operands are strictly positive.
    pub fn both_operands_strictly_positive_by_non_equational_verify(&self, left_operand: &Obj, right_operand: &Obj, verify_state: &VerifyState) -> (r: Result<bool, RuntimeError>)
        ensures
            r == Ok::<bool, RuntimeError>(both_strictly_positive(self, left_operand@, right_operand@, verify_state.subgoal_depth as nat)),
    {
        let zero_less_than_left = AtomicFact::LessFact(zero_obj(), left_operand.duplicate());
        match self.non_equational_atomic_fact_holds_by_known_then_builtin_rules_only(&zero_less_than_left, verify_state) {
            Ok(true) => {},
            Ok(false) => return Ok(false),
            Err(e) => return Err(e),
        }
        let zero_less_than_right = AtomicFact::LessFact(zero_obj(), right_operand.duplicate());
        self.non_equational_atomic_fact_holds_by_known_then_builtin_rules_only(&zero_less_than_right, verify_state)
    }

    /// Whether both operands are strictly negative.
    pub fn both_operands_strictly_negative_by_non_equational_verify(&self, left_operand: &Obj, right_operand: &Obj, verify_state: &VerifyState) -> (r: Result<bool, RuntimeError>)
        ensures
            r == Ok::<bool, RuntimeError>(both_strictly_negative(self, left_operand@, right_operand@, verify_state.subgoal_depth as nat)),
    {
        let left_less_than_zero = AtomicFact::LessFact(left_operand.duplicate(), zero_obj());
        match self.non_equational_atomic_fact_holds_by_known_then_builtin_rules_only(&left_less_than_zero, verify_state) {
            Ok(true) => {},
            Ok(false) => return Ok(false),
            Err(e) => return Err(e),
        }
        let right_less_than_zero = AtomicFact::LessFact(right_operand.duplicate(), zero_obj());
        self.non_equational_atomic_fact_holds_by_known_then_builtin_rules_only(&right_less_than_zero, verify_state)
    }

    /// Whether the factors have strictly opposite signs, so that their
    /// product is negative: `a < 0 < b` or `b < 0 < a`.
    pub fn mul_product_negative_when_factors_have_strict_opposite_sign_by_non_equational_verify(&self, left_factor: &Obj, right_factor: &Obj, verify_state: &VerifyState) -> (r: Result<bool, RuntimeError>)
        ensures
            r == Ok::<bool, RuntimeError>(strictly_opposite_signs(self, left_factor@, right_factor@, verify_state.subgoal_depth as nat)),
    {
        let left_less_than_zero = AtomicFact::LessFact(left_factor.duplicate(), zero_obj());
        let zero_less_than_right = AtomicFact::LessFact(zero_obj(), right_factor.duplicate());
        let first = match self.non_equational_atomic_fact_holds_by_known_then_builtin_rules_only(&left_less_than_zero, verify_state) {
            Ok(b) => b,
            Err(e) => return Err(e),
        };
        if first {
            let second = match self.non_equational_atomic_fact_holds_by_known_then_builtin_rules_only(&zero_less_than_right, verify_state) {
                Ok(b) => b,
                Err(e) => return Err(e),
            };
            if second {
                return Ok(true);
            }
        }
        let zero_less_than_left = AtomicFact::LessFact(zero_obj(), left_factor.duplicate());
        let right_less_than_zero = AtomicFact::LessFact(right_factor.duplicate(), zero_obj());
        let third = match self.non_equational_atomic_fact_holds_by_known_then_builtin_rules_only(&zero_less_than_left, verify_state) {
            Ok(b) => b,
            Err(e) => return Err(e),
        };
        if !third {
            return Ok(false);
        }
        self.non_equational_atomic_fact_holds_by_known_then_builtin_rules_only(&right_less_than_zero, verify_state)
    }

    /// Whether the minuend and the subtrahend have strictly opposite signs,
    /// so that their difference is nonzero.
    pub fn sub_difference_nonzero_when_operands_have_strict_opposite_sign_by_non_equational_verify(&self, minuend: &Obj, subtrahend: &Obj, verify_state: &VerifyState) -> (r: Result<bool, RuntimeError>)
        ensures
            r == Ok::<bool, RuntimeError>(
                (holds_known_then_builtin(self, AtomicFactV::LessFact(zero_v(), minuend@), verify_state.subgoal_depth as nat)
                    && holds_known_then_builtin(self, AtomicFactV::LessFact(subtrahend@, zero_v()), verify_state.subgoal_depth as nat))
                || (holds_known_then_builtin(self, AtomicFactV::LessFact(minuend@, zero_v()), verify_state.subgoal_depth as nat)
                    && holds_known_then_builtin(self, AtomicFactV::LessFact(zero_v(), subtrahend@), verify_state.subgoal_depth as nat))),
    {
        let zero_less_than_minuend = AtomicFact::LessFact(zero_obj(), minuend.duplicate());
        let subtrahend_less_than_zero = AtomicFact::LessFact(subtrahend.duplicate(), zero_obj());
        let first = match self.non_equational_atomic_fact_holds_by_known_then_builtin_rules_only(&zero_less_than_minuend, verify_state) {
            Ok(b) => b,
            Err(e) => return Err(e),
        };
        if first {
            let second = match self.non_equational_atomic_fact_holds_by_known_then_builtin_rules_only(&subtrahend_less_than_zero, verify_state) {
                Ok(b) => b,
                Err(e) => return Err(e),
            };
            if second {
                return Ok(true);
            }
        }
        let minuend_less_than_zero = AtomicFact::LessFact(minuend.duplicate(), zero_obj());
        let zero_less_than_subtrahend = AtomicFact::LessFact(zero_obj(), subtrahend.duplicate());
        let third = match self.non_equational_atomic_fact_holds_by_known_then_builtin_rules_only(&minuend_less_than_zero, verify_state) {
            Ok(b) => b,
            Err(e) => return Err(e),
        };
        if !third {
            return Ok(false);
        }
        self.non_equational_atomic_fact_holds_by_known_then_builtin_rules_only(&zero_less_than_subtrahend, verify_state)
    }
}

/// Every object is a set.
pub proof fn law_every_object_is_a_set(rt: &Runtime, x: ObjV, d: nat)
    ensures
        builtin_result(rt, AtomicFactV::IsSetFact(x), d) == builtin_success(BuiltinRule::EveryObjectIsASet),
{
}

/// Every object is a subset and a superset of itself.
pub proof fn law_subset_reflexive(rt: &Runtime, x: ObjV, d: nat)
    ensures
        builtin_result(rt, AtomicFactV::SubsetFact(x, x), d).spec_is_true(),
        builtin_result(rt, AtomicFactV::SupersetFact(x, x), d).spec_is_true(),
{
}

/// A subset fact follows from its known dual superset fact, and the other
/// way round; the same holds of the negated relations.
pub proof fn law_subset_superset_duality(rt: &Runtime, a: ObjV, b: ObjV, d: nat)
    ensures
        is_known(rt, AtomicFactV::SupersetFact(b, a)) ==> builtin_result(rt, AtomicFactV::SubsetFact(a, b), d).spec_is_true(),
        is_known(rt, AtomicFactV::SubsetFact(b, a)) ==> builtin_result(rt, AtomicFactV::SupersetFact(a, b), d).spec_is_true(),
        is_known(rt, AtomicFactV::NotSupersetFact(b, a)) ==> builtin_result(rt, AtomicFactV::NotSubsetFact(a, b), d).spec_is_true(),
        is_known(rt, AtomicFactV::NotSubsetFact(b, a)) ==> builtin_result(rt, AtomicFactV::NotSupersetFact(a, b), d).spec_is_true(),
{
}

/// Two number literals in strict (or weak) order prove the order fact
/// between them.
pub proof fn law_literal_order_holds(rt: &Runtime, a: Seq<char>, b: Seq<char>, d: nat)
    ensures
        decimal_compare(a, b) == NumberCompareResult::Less ==> order_result(
            rt,
            AtomicFactV::LessFact(ObjV::Number(a), ObjV::Number(b)),
            d,
        ).spec_is_true(),
        decimal_compare(a, b) != NumberCompareResult::Greater ==> order_result(
            rt,
            AtomicFactV::LessEqualFact(ObjV::Number(a), ObjV::Number(b)),
            d,
        ).spec_is_true(),
{
}

/// Two number literals of different values are unequal by calculation,
/// whatever is known.
pub proof fn law_literal_inequality_by_value(rt: &Runtime, a: Seq<char>, b: Seq<char>, d: nat)
    ensures
        decimal_compare(a, b) != NumberCompareResult::Equal ==> builtin_result(
            rt,
            AtomicFactV::NotEqualFact(ObjV::Number(a), ObjV::Number(b)),
            d,
        ) == builtin_success(BuiltinRule::NotEqualByCalculation),
{
}

/// A literal in a standard set lies in every standard set that includes it.
pub proof fn law_literal_membership_monotone(s: Seq<char>, small: StandardSet, big: StandardSet)
    requires
        standard_set_subset(small, big),
        literal_in_standard_set(s, small),
    ensures
        literal_in_standard_set(s, big),
{
    let p = parse_parts(s);
    if literal_sign(s) == NumberSign::Zero {
        lemma_magnitude_zero(p.1, p.2, frac_len(s));
        assert(all_zero(p.2));
    }
    assert(crate::standard_sets::is_number_class(literal_kind(s), literal_sign(s)));
}

/// Every listed element of a list set, the first one included, is a member
/// of it by the list-set rule.
pub proof fn law_list_set_members(rt: &Runtime, v: Seq<ObjV>, i: int, d: nat)
    requires
        0 <= i < v.len(),
    ensures
        equals_some_element(rt, v[i], v),
        in_result(rt, v[i], ObjV::ListSet(v), d) == builtin_success(BuiltinRule::ListSetMembership),
        builtin_result(rt, AtomicFactV::InFact(v[i], ObjV::ListSet(v)), d) == builtin_success(
            BuiltinRule::ListSetMembership,
        ),
{
    assert(v[i] == v[i]);
}

/// An object known to equal a listed element of a list set is a member of it.
pub proof fn law_list_set_member_by_known_equality(rt: &Runtime, e: ObjV, v: Seq<ObjV>, i: int, d: nat)
    requires
        0 <= i < v.len(),
        known_equal(rt, e, v[i]),
    ensures
        in_result(rt, e, ObjV::ListSet(v), d) == builtin_success(BuiltinRule::ListSetMembership),
{
    assert(known_equal(rt, e, v[i]));
}

/// Membership in a list set is proved only of a listed element or of an
/// object known to equal one.
pub proof fn law_list_set_membership_sound(rt: &Runtime, e: ObjV, v: Seq<ObjV>, d: nat)
    ensures
        in_result(rt, e, ObjV::ListSet(v), d).spec_is_true() ==> exists|i: int|
            0 <= i < v.len() && (e == #[trigger] v[i] || known_equal(rt, e, v[i])),
{
}

/// A known strict order gives the weak order between the same two objects,
/// in the same direction: `l > r` gives `l >= r`, and `l < r` gives `l <= r`.
pub proof fn law_weak_order_from_strict(rt: &Runtime, l: ObjV, r: ObjV)
    ensures
        is_known(rt, AtomicFactV::GreaterFact(l, r)) ==> weak_order_rule(rt, AtomicFactV::GreaterEqualFact(l, r)) is Some,
        is_known(rt, AtomicFactV::LessFact(l, r)) ==> weak_order_rule(rt, AtomicFactV::LessEqualFact(l, r)) is Some,
{
}

/// The weak-order rule proves `l >= r` (or `l <= r`) only from the same
/// object on both sides, a known equality between them, or the known strict
/// fact in the same direction; a known `r > l` alone never gives `l >= r`.
pub proof fn law_weak_order_rule_sound(rt: &Runtime, l: ObjV, r: ObjV)
    ensures
        weak_order_rule(rt, AtomicFactV::GreaterEqualFact(l, r)) is Some ==> l == r || known_equal(rt, l, r)
            || is_known(rt, AtomicFactV::GreaterFact(l, r)),
        weak_order_rule(rt, AtomicFactV::LessEqualFact(l, r)) is Some ==> l == r || known_equal(rt, l, r)
            || is_known(rt, AtomicFactV::LessFact(l, r)),
{
}

/// A known `l > r` proves `l >= r` by the order rules, and a known `l < r`
/// proves `l <= r`.
pub proof fn law_weak_order_holds_from_strict(rt: &Runtime, l: ObjV, r: ObjV, d: nat)
    ensures
        is_known(rt, AtomicFactV::GreaterFact(l, r)) ==> order_result(rt, AtomicFactV::GreaterEqualFact(l, r), d).spec_is_true(),
        is_known(rt, AtomicFactV::LessFact(l, r)) ==> order_result(rt, AtomicFactV::LessEqualFact(l, r), d).spec_is_true(),
{
    law_weak_order_from_strict(rt, l, r);
}

/// Two list sets whose lists differ in length are unequal, whichever side is
/// the shorter.
pub proof fn law_list_sets_of_different_length_unequal(rt: &Runtime, x: Seq<ObjV>, y: Seq<ObjV>, d: nat)
    requires
        x.len() != y.len(),
    ensures
        not_equal_result(rt, ObjV::ListSet(x), ObjV::ListSet(y), d) == builtin_success(
            BuiltinRule::NotEqualListSetsOfDifferentLength,
        ),
        not_equal_result(rt, ObjV::ListSet(y), ObjV::ListSet(x), d) == builtin_success(
            BuiltinRule::NotEqualListSetsOfDifferentLength,
        ),
{
}

/// The same object on both sides, or a known equality between them in either
/// direction, proves both `l >= r` and `l <= r`.
pub proof fn law_weak_order_from_equality(rt: &Runtime, l: ObjV, r: ObjV)
    ensures
        l == r || is_known(rt, AtomicFactV::EqualFact(l, r)) || is_known(rt, AtomicFactV::EqualFact(r, l)) ==> {
            &&& weak_order_rule(rt, AtomicFactV::GreaterEqualFact(l, r)) is Some
            &&& weak_order_rule(rt, AtomicFactV::LessEqualFact(l, r)) is Some
        },
{
}

/// A known strict order between two objects, in any of its four forms,
/// proves them unequal (either way round).
pub proof fn law_not_equal_from_known_strict_order(rt: &Runtime, l: ObjV, r: ObjV, d: nat)
    requires
        is_known(rt, AtomicFactV::LessFact(l, r)) || is_known(rt, AtomicFactV::GreaterFact(l, r))
            || is_known(rt, AtomicFactV::LessFact(r, l)) || is_known(rt, AtomicFactV::GreaterFact(r, l)),
    ensures
        not_equal_result(rt, l, r, d).spec_is_true(),
        not_equal_result(rt, r, l, d).spec_is_true(),
{
}

/// `a - b != 0` and `0 != a - b` follow from a known `a != b` or `b != a`.
pub proof fn law_difference_nonzero_from_known_inequality(rt: &Runtime, a: ObjV, b: ObjV, d: nat)
    requires
        is_known(rt, AtomicFactV::NotEqualFact(a, b)) || is_known(rt, AtomicFactV::NotEqualFact(b, a)),
    ensures
        not_equal_result(rt, ObjV::Sub(Box::new(a), Box::new(b)), zero_v(), d).spec_is_true(),
        not_equal_result(rt, zero_v(), ObjV::Sub(Box::new(a), Box::new(b)), d).spec_is_true(),
{
}

/// A set that is nonempty (as a subgoal) differs from `{}`, on either side.
#[verifier::spinoff_prover]
#[verifier::rlimit(60)]
pub proof fn law_nonempty_set_differs_from_empty_set(rt: &Runtime, s: ObjV, d: nat)
    requires
        subgoal_holds(rt, AtomicFactV::IsNonemptySetFact(s), d),
    ensures
        not_equal_result(rt, empty_set_v(), s, d).spec_is_true(),
        not_equal_result(rt, s, empty_set_v(), d).spec_is_true(),
{
    let e = empty_set_v();
    assert(e matches ObjV::ListSet(x) && x.len() == 0);
    assert(side_against_empty_set(e, s) == Some(s));
    assert(side_against_empty_set(s, e) == Some(s)) by {
        if let ObjV::ListSet(x) = s {
            if x.len() == 0 {
                assert(x =~= Seq::<ObjV>::empty());
                assert(s == e);
            }
        }
    }
    assert(not_equal_empty_set_from_nonempty(rt, e, s, d));
    assert(not_equal_empty_set_from_nonempty(rt, s, e, d));
}

/// `e` is proved not to lie in a list set exactly when `e` differs, as a
/// subgoal, from every listed element, the first one included.
pub proof fn law_not_in_list_set(rt: &Runtime, e: ObjV, v: Seq<ObjV>, d: nat)
    ensures
        not_in_result(rt, e, ObjV::ListSet(v), d).spec_is_true() <==> forall|i: int|
            0 <= i < v.len() ==> subgoal_holds(rt, AtomicFactV::NotEqualFact(e, #[trigger] v[i]), d),
{
}

/// A tuple lies in a Cartesian product of as many factors (at least two)
/// exactly when each component lies, as a subgoal, in the corresponding
/// factor, the first one included.
pub proof fn law_tuple_in_cart(rt: &Runtime, tv: Seq<ObjV>, cv: Seq<ObjV>, d: nat)
    requires
        tv.len() >= 2,
        tv.len() == cv.len(),
    ensures
        in_result(rt, ObjV::Tuple(tv), ObjV::Cart(cv), d).spec_is_true() <==> forall|i: int|
            0 <= i < tv.len() ==> subgoal_holds(rt, AtomicFactV::InFact(#[trigger] tv[i], cv[i]), d),
{
}

/// A negated order and the order facts it is taken for say the same thing:
/// each of them normalizes to the same `<` or `<=` fact as the fact it stands
/// in for (`a > b` and `not a <= b` both to `b < a`, `not a < b`, `b <= a`
/// and `a >= b` all to `b <= a`, and so on).
pub proof fn law_order_restatements_agree(f: AtomicFactV)
    ensures
        negated_complement(f) matches Some(g) ==> normalized_order(g) == normalized_order(f) && normalized_order(f) is Some,
        equivalent_orders(f) matches Some((g, h)) ==> normalized_order(g) == normalized_order(f) && normalized_order(h)
            == normalized_order(f) && normalized_order(f) is Some,
{
}

/// An order fact holds by the order rules where the negation of its
/// complement, or an order fact equivalent to it, is known.
pub proof fn law_order_from_known_restatement(rt: &Runtime, f: AtomicFactV, d: nat)
    ensures
        negated_complement(f) matches Some(g) && is_known(rt, g) ==> order_result(rt, f, d).spec_is_true(),
        equivalent_orders(f) matches Some((g, h)) && (is_known(rt, g) || is_known(rt, h)) ==> order_result(rt, f, d).spec_is_true(),
{
}

/// Two objects whose difference, either way round, is known to be nonzero
/// are unequal (either way round).
pub proof fn law_not_equal_from_known_nonzero_difference(rt: &Runtime, a: ObjV, b: ObjV, d: nat)
    requires
        is_known(rt, AtomicFactV::NotEqualFact(ObjV::Sub(Box::new(a), Box::new(b)), zero_v()))
            || is_known(rt, AtomicFactV::NotEqualFact(ObjV::Sub(Box::new(b), Box::new(a)), zero_v())),
    ensures
        not_equal_result(rt, a, b, d).spec_is_true(),
        not_equal_result(rt, b, a, d).spec_is_true(),
{
}

/// A sum or a product lies in `N` by the builtin rules exactly when both of
/// its operands do, as subgoals.
pub proof fn law_sum_and_product_in_n(rt: &Runtime, a: ObjV, b: ObjV, d: nat)
    ensures
        in_result(rt, ObjV::Add(Box::new(a), Box::new(b)), ObjV::StandardSet(StandardSet::N), d).spec_is_true() <==> (
        subgoal_holds(rt, AtomicFactV::InFact(a, ObjV::StandardSet(StandardSet::N)), d) && subgoal_holds(
            rt,
            AtomicFactV::InFact(b, ObjV::StandardSet(StandardSet::N)),
            d,
        )),
        in_result(rt, ObjV::Mul(Box::new(a), Box::new(b)), ObjV::StandardSet(StandardSet::N), d).spec_is_true() <==> (
        subgoal_holds(rt, AtomicFactV::InFact(a, ObjV::StandardSet(StandardSet::N)), d) && subgoal_holds(
            rt,
            AtomicFactV::InFact(b, ObjV::StandardSet(StandardSet::N)),
            d,
        )),
{
}

} // verus!
