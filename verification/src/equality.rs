//! The builtin rules for equalities between objects: the same object, equal
//! number literals, the algebra of union, intersection and set difference,
//! and two weak orders in opposite directions.
use vstd::prelude::*;
use crate::obj::{Obj, ObjV, objs_equal, lemma_view_list};
use crate::fact::{AtomicFact, AtomicFactV};
use crate::runtime::{Runtime, StmtResult, BuiltinRule, RuntimeError, VerifyState, is_known};
use crate::decimal::{NumberCompareResult, decimal_compare, compare_number_strings};
use crate::evaluate::{resolved_literal, resolve_number_literal};
use crate::builtin::{empty_set_v, subgoal_holds, rule_result, succeed, zero_v, known_equal};
use crate::equality_extra::{
    equality_count_and_sum_rule, equality_division_and_empty_rule, division_from_known_product,
    product_from_known_division,
};

verus! {

/// `union(a, b) = union(b, a)`.
pub open spec fn union_commutative(l: ObjV, r: ObjV) -> bool {
    match (l, r) {
        (ObjV::Union(a, b), ObjV::Union(c, d)) => *a == *d && *b == *c,
        _ => false,
    }
}

/// `union(union(a, b), c) = union(a, union(b, c))`.
pub open spec fn union_associative(l: ObjV, r: ObjV) -> bool {
    match (l, r) {
        (ObjV::Union(ll, c), ObjV::Union(a2, rr)) => match (*ll, *rr) {
            (ObjV::Union(a, b), ObjV::Union(b2, c2)) => a == *a2 && b == b2 && *c == c2,
            _ => false,
        },
        _ => false,
    }
}

/// `union(a, a) = a`.
pub open spec fn union_idempotent(u: ObjV, o: ObjV) -> bool {
    match u {
        ObjV::Union(a, b) => *a == *b && *a == o,
        _ => false,
    }
}

/// `union(a, {}) = a` and `union({}, a) = a`.
pub open spec fn union_empty_identity(u: ObjV, o: ObjV) -> bool {
    match u {
        ObjV::Union(a, b) => (*a == empty_set_v() && *b == o) || (*b == empty_set_v() && *a == o),
        _ => false,
    }
}

/// `intersect(a, b) = intersect(b, a)`.
pub open spec fn intersect_commutative(l: ObjV, r: ObjV) -> bool {
    match (l, r) {
        (ObjV::Intersect(a, b), ObjV::Intersect(c, d)) => *a == *d && *b == *c,
        _ => false,
    }
}

/// `intersect(intersect(a, b), c) = intersect(a, intersect(b, c))`.
pub open spec fn intersect_associative(l: ObjV, r: ObjV) -> bool {
    match (l, r) {
        (ObjV::Intersect(ll, c), ObjV::Intersect(a2, rr)) => match (*ll, *rr) {
            (ObjV::Intersect(a, b), ObjV::Intersect(b2, c2)) => a == *a2 && b == b2 && *c == c2,
            _ => false,
        },
        _ => false,
    }
}

/// `intersect(a, union(b, c)) = union(intersect(a, b), intersect(a, c))`.
pub open spec fn intersect_union_distributive(l: ObjV, r: ObjV) -> bool {
    match (l, r) {
        (ObjV::Intersect(a, lu), ObjV::Union(ri1, ri2)) => match (*lu, *ri1, *ri2) {
            (ObjV::Union(b, c), ObjV::Intersect(a1, b1), ObjV::Intersect(a2, c1)) =>
                *a == *a1 && *a == *a2 && *b == *b1 && *c == *c1,
            _ => false,
        },
        _ => false,
    }
}

/// `set_minus(a, union(b, c)) = intersect(set_minus(a, b), set_minus(a, c))`.
pub open spec fn set_minus_union_de_morgan(l: ObjV, r: ObjV) -> bool {
    match (l, r) {
        (ObjV::SetMinus(a, lu), ObjV::Intersect(r1, r2)) => match (*lu, *r1, *r2) {
            (ObjV::Union(b, c), ObjV::SetMinus(a1, b1), ObjV::SetMinus(a2, c1)) =>
                *a == *a1 && *a == *a2 && *b == *b1 && *c == *c1,
            _ => false,
        },
        _ => false,
    }
}

/// `set_minus(a, intersect(b, c)) = union(set_minus(a, b), set_minus(a, c))`.
pub open spec fn set_minus_intersect_de_morgan(l: ObjV, r: ObjV) -> bool {
    match (l, r) {
        (ObjV::SetMinus(a, li), ObjV::Union(r1, r2)) => match (*li, *r1, *r2) {
            (ObjV::Intersect(b, c), ObjV::SetMinus(a1, b1), ObjV::SetMinus(a2, c1)) =>
                *a == *a1 && *a == *a2 && *b == *b1 && *c == *c1,
            _ => false,
        },
        _ => false,
    }
}

/// `g >= l` or `l <= g`, as a subgoal.
pub open spec fn weak_order_holds(rt: &Runtime, g: ObjV, l: ObjV, d: nat) -> bool {
    subgoal_holds(rt, AtomicFactV::GreaterEqualFact(g, l), d)
        || subgoal_holds(rt, AtomicFactV::LessEqualFact(l, g), d)
}

/// The rule that proves `l = r`, in the order the rules are tried.
pub closed spec fn equality_rule(rt: &Runtime, l: ObjV, r: ObjV, d: nat) -> Option<BuiltinRule> {
    if l == r {
        Some(BuiltinRule::EqualityByLiteral)
    } else if resolved_literal(l) matches Some(a) && resolved_literal(r) matches Some(b) && decimal_compare(a, b)
        == NumberCompareResult::Equal {
        Some(BuiltinRule::EqualityByCalculation)
    } else if union_commutative(l, r) {
        Some(BuiltinRule::UnionCommutative)
    } else if union_associative(l, r) || union_associative(r, l) {
        Some(BuiltinRule::UnionAssociative)
    } else if union_idempotent(l, r) || union_idempotent(r, l) {
        Some(BuiltinRule::UnionIdempotent)
    } else if union_empty_identity(l, r) || union_empty_identity(r, l) {
        Some(BuiltinRule::UnionEmptyIdentity)
    } else if intersect_commutative(l, r) {
        Some(BuiltinRule::IntersectCommutative)
    } else if intersect_associative(l, r) || intersect_associative(r, l) {
        Some(BuiltinRule::IntersectAssociative)
    } else if intersect_union_distributive(l, r) || intersect_union_distributive(r, l) {
        Some(BuiltinRule::IntersectUnionDistributive)
    } else if set_minus_union_de_morgan(l, r) || set_minus_union_de_morgan(r, l) {
        Some(BuiltinRule::SetMinusUnionDeMorgan)
    } else if set_minus_intersect_de_morgan(l, r) || set_minus_intersect_de_morgan(r, l) {
        Some(BuiltinRule::SetMinusIntersectDeMorgan)
    } else if equality_count_and_sum_rule(rt, l, r) is Some {
        equality_count_and_sum_rule(rt, l, r)
    } else if weak_order_holds(rt, l, r, d) && weak_order_holds(rt, r, l, d) {
        Some(BuiltinRule::EqualityFromTwoSidedWeakOrder)
    } else {
        equality_division_and_empty_rule(rt, l, r, d)
    }
}

/// Both objects stand for numbers of equal value.
pub fn objs_equal_by_evaluation(left: &Obj, right: &Obj) -> (r: bool)
    ensures
        r == (resolved_literal(left@) matches Some(a) && resolved_literal(right@) matches Some(b) && decimal_compare(a, b)
            == NumberCompareResult::Equal),
{
    match (resolve_number_literal(left), resolve_number_literal(right)) {
        (Some(a), Some(b)) => matches!(compare_number_strings(a.as_str(), b.as_str()), NumberCompareResult::Equal),
        _ => false,
    }
}

/// Unfolds [`equality_rule`] once: the equality rules in the order they are tried.
pub proof fn lemma_equality_rule(rt: &Runtime, l: ObjV, r: ObjV, d: nat)
    ensures
        equality_rule(rt, l, r, d) == {
        if l == r {
            Some(BuiltinRule::EqualityByLiteral)
        } else if resolved_literal(l) matches Some(a) && resolved_literal(r) matches Some(b) && decimal_compare(a, b)
            == NumberCompareResult::Equal {
            Some(BuiltinRule::EqualityByCalculation)
        } else if union_commutative(l, r) {
            Some(BuiltinRule::UnionCommutative)
        } else if union_associative(l, r) || union_associative(r, l) {
            Some(BuiltinRule::UnionAssociative)
        } else if union_idempotent(l, r) || union_idempotent(r, l) {
            Some(BuiltinRule::UnionIdempotent)
        } else if union_empty_identity(l, r) || union_empty_identity(r, l) {
            Some(BuiltinRule::UnionEmptyIdentity)
        } else if intersect_commutative(l, r) {
            Some(BuiltinRule::IntersectCommutative)
        } else if intersect_associative(l, r) || intersect_associative(r, l) {
            Some(BuiltinRule::IntersectAssociative)
        } else if intersect_union_distributive(l, r) || intersect_union_distributive(r, l) {
            Some(BuiltinRule::IntersectUnionDistributive)
        } else if set_minus_union_de_morgan(l, r) || set_minus_union_de_morgan(r, l) {
            Some(BuiltinRule::SetMinusUnionDeMorgan)
        } else if set_minus_intersect_de_morgan(l, r) || set_minus_intersect_de_morgan(r, l) {
            Some(BuiltinRule::SetMinusIntersectDeMorgan)
        } else if equality_count_and_sum_rule(rt, l, r) is Some {
            equality_count_and_sum_rule(rt, l, r)
        } else if weak_order_holds(rt, l, r, d) && weak_order_holds(rt, r, l, d) {
            Some(BuiltinRule::EqualityFromTwoSidedWeakOrder)
        } else {
            equality_division_and_empty_rule(rt, l, r, d)
        }
        },
{
}

/// Whether the object is the empty list set `{}`.
pub fn is_empty_list_set(o: &Obj) -> (r: bool)
    ensures
        r == (o@ == empty_set_v()),
{
    match o {
        Obj::ListSet(v) => {
            proof {
                lemma_view_list(v@);
                if v.len() == 0 {
                    assert(crate::obj::view_list(v@) =~= Seq::<ObjV>::empty());
                }
            }
            v.len() == 0
        },
        _ => false,
    }
}

/// `union(a, b) = union(b, a)`.
pub fn union_commutative_shape(left: &Obj, right: &Obj) -> (r: bool)
    ensures
        r == union_commutative(left@, right@),
{
    match (left, right) {
        (Obj::Union(a, b), Obj::Union(c, d)) => objs_equal(a, d) && objs_equal(b, c),
        _ => false,
    }
}

/// `union(union(a, b), c) = union(a, union(b, c))`.
pub fn union_associative_shape(left: &Obj, right: &Obj) -> (r: bool)
    ensures
        r == union_associative(left@, right@),
{
    match (left, right) {
        (Obj::Union(ll, c), Obj::Union(a2, rr)) => match (&**ll, &**rr) {
            (Obj::Union(a, b), Obj::Union(b2, c2)) => {
                assert((**ll)@ == ObjV::Union(Box::new((**a)@), Box::new((**b)@)));
                assert((**rr)@ == ObjV::Union(Box::new((**b2)@), Box::new((**c2)@)));
                objs_equal(a, a2) && objs_equal(b, b2) && objs_equal(c, c2)
            },
            _ => false,
        },
        _ => false,
    }
}

/// `union(a, a) = a`.
pub fn union_idempotent_shape(union_side: &Obj, other_side: &Obj) -> (r: bool)
    ensures
        r == union_idempotent(union_side@, other_side@),
{
    match union_side {
        Obj::Union(a, b) => objs_equal(a, b) && objs_equal(a, other_side),
        _ => false,
    }
}

/// `union(a, {}) = a` and `union({}, a) = a`.
pub fn union_empty_identity_shape(union_side: &Obj, other_side: &Obj) -> (r: bool)
    ensures
        r == union_empty_identity(union_side@, other_side@),
{
    match union_side {
        Obj::Union(a, b) => (is_empty_list_set(a) && objs_equal(b, other_side)) || (
        is_empty_list_set(b) && objs_equal(a, other_side)),
        _ => false,
    }
}

/// `intersect(a, b) = intersect(b, a)`.
pub fn intersect_commutative_shape(left: &Obj, right: &Obj) -> (r: bool)
    ensures
        r == intersect_commutative(left@, right@),
{
    match (left, right) {
        (Obj::Intersect(a, b), Obj::Intersect(c, d)) => objs_equal(a, d) && objs_equal(b, c),
        _ => false,
    }
}

/// `intersect(intersect(a, b), c) = intersect(a, intersect(b, c))`.
pub fn intersect_associative_shape(left: &Obj, right: &Obj) -> (r: bool)
    ensures
        r == intersect_associative(left@, right@),
{
    match (left, right) {
        (Obj::Intersect(ll, c), Obj::Intersect(a2, rr)) => match (&**ll, &**rr) {
            (Obj::Intersect(a, b), Obj::Intersect(b2, c2)) => {
                assert((**ll)@ == ObjV::Intersect(Box::new((**a)@), Box::new((**b)@)));
                assert((**rr)@ == ObjV::Intersect(Box::new((**b2)@), Box::new((**c2)@)));
                objs_equal(a, a2) && objs_equal(b, b2) && objs_equal(c, c2)
            },
            _ => false,
        },
        _ => false,
    }
}

/// `intersect(a, union(b, c)) = union(intersect(a, b), intersect(a, c))`.
pub fn intersect_union_distributive_shape(left: &Obj, right: &Obj) -> (r: bool)
    ensures
        r == intersect_union_distributive(left@, right@),
{
    match (left, right) {
        (Obj::Intersect(a, lu), Obj::Union(ri1, ri2)) => match (&**lu, &**ri1, &**ri2) {
            (Obj::Union(b, c), Obj::Intersect(a1, b1), Obj::Intersect(a2, c1)) => {
                assert((**lu)@ == ObjV::Union(Box::new((**b)@), Box::new((**c)@)));
                assert((**ri1)@ == ObjV::Intersect(Box::new((**a1)@), Box::new((**b1)@)));
                assert((**ri2)@ == ObjV::Intersect(Box::new((**a2)@), Box::new((**c1)@)));
                objs_equal(a, a1) && objs_equal(a, a2) && objs_equal(b, b1) && objs_equal(c, c1)
            },
            _ => false,
        },
        _ => false,
    }
}

/// `set_minus(a, union(b, c)) = intersect(set_minus(a, b), set_minus(a, c))`.
pub fn set_minus_union_de_morgan_shape(left: &Obj, right: &Obj) -> (r: bool)
    ensures
        r == set_minus_union_de_morgan(left@, right@),
{
    match (left, right) {
        (Obj::SetMinus(a, lu), Obj::Intersect(r1, r2)) => match (&**lu, &**r1, &**r2) {
            (Obj::Union(b, c), Obj::SetMinus(a1, b1), Obj::SetMinus(a2, c1)) => {
                assert((**lu)@ == ObjV::Union(Box::new((**b)@), Box::new((**c)@)));
                assert((**r1)@ == ObjV::SetMinus(Box::new((**a1)@), Box::new((**b1)@)));
                assert((**r2)@ == ObjV::SetMinus(Box::new((**a2)@), Box::new((**c1)@)));
                objs_equal(a, a1) && objs_equal(a, a2) && objs_equal(b, b1) && objs_equal(c, c1)
            },
            _ => false,
        },
        _ => false,
    }
}

/// `set_minus(a, intersect(b, c)) = union(set_minus(a, b), set_minus(a, c))`.
pub fn set_minus_intersect_de_morgan_shape(left: &Obj, right: &Obj) -> (r: bool)
    ensures
        r == set_minus_intersect_de_morgan(left@, right@),
{
    match (left, right) {
        (Obj::SetMinus(a, li), Obj::Union(r1, r2)) => match (&**li, &**r1, &**r2) {
            (Obj::Intersect(b, c), Obj::SetMinus(a1, b1), Obj::SetMinus(a2, c1)) => {
                assert((**li)@ == ObjV::Intersect(Box::new((**b)@), Box::new((**c)@)));
                assert((**r1)@ == ObjV::SetMinus(Box::new((**a1)@), Box::new((**b1)@)));
                assert((**r2)@ == ObjV::SetMinus(Box::new((**a2)@), Box::new((**c1)@)));
                objs_equal(a, a1) && objs_equal(a, a2) && objs_equal(b, b1) && objs_equal(c, c1)
            },
            _ => false,
        },
        _ => false,
    }
}

/// The union rules: commutativity, associativity, idempotence and the empty set as identity.
pub fn try_verify_union_set_equalities(left: &Obj, right: &Obj) -> (r: Option<BuiltinRule>)
    ensures
        r == (if union_commutative(left@, right@) {
            Some(BuiltinRule::UnionCommutative)
        } else if union_associative(left@, right@) || union_associative(right@, left@) {
            Some(BuiltinRule::UnionAssociative)
        } else if union_idempotent(left@, right@) || union_idempotent(right@, left@) {
            Some(BuiltinRule::UnionIdempotent)
        } else if union_empty_identity(left@, right@) || union_empty_identity(right@, left@) {
            Some(BuiltinRule::UnionEmptyIdentity)
        } else {
            None
        }),
{
    if union_commutative_shape(left, right) {
        Some(BuiltinRule::UnionCommutative)
    } else if union_associative_shape(left, right) || union_associative_shape(right, left) {
        Some(BuiltinRule::UnionAssociative)
    } else if union_idempotent_shape(left, right) || union_idempotent_shape(right, left) {
        Some(BuiltinRule::UnionIdempotent)
    } else if union_empty_identity_shape(left, right) || union_empty_identity_shape(right, left) {
        Some(BuiltinRule::UnionEmptyIdentity)
    } else {
        None
    }
}

/// The intersection rules: commutativity, associativity and distribution over union.
pub fn try_verify_intersection_set_equalities(left: &Obj, right: &Obj) -> (r: Option<BuiltinRule>)
    ensures
        r == (if intersect_commutative(left@, right@) {
            Some(BuiltinRule::IntersectCommutative)
        } else if intersect_associative(left@, right@) || intersect_associative(right@, left@) {
            Some(BuiltinRule::IntersectAssociative)
        } else if intersect_union_distributive(left@, right@) || intersect_union_distributive(
            right@,
            left@,
        ) {
            Some(BuiltinRule::IntersectUnionDistributive)
        } else {
            None
        }),
{
    if intersect_commutative_shape(left, right) {
        Some(BuiltinRule::IntersectCommutative)
    } else if intersect_associative_shape(left, right) || intersect_associative_shape(right, left) {
        Some(BuiltinRule::IntersectAssociative)
    } else if intersect_union_distributive_shape(left, right) || intersect_union_distributive_shape(
        right,
        left,
    ) {
        Some(BuiltinRule::IntersectUnionDistributive)
    } else {
        None
    }
}

/// De Morgan's laws for set difference.
pub fn try_verify_set_minus_equalities(left: &Obj, right: &Obj) -> (r: Option<BuiltinRule>)
    ensures
        r == (if set_minus_union_de_morgan(left@, right@) || set_minus_union_de_morgan(right@, left@) {
            Some(BuiltinRule::SetMinusUnionDeMorgan)
        } else if set_minus_intersect_de_morgan(left@, right@) || set_minus_intersect_de_morgan(
            right@,
            left@,
        ) {
            Some(BuiltinRule::SetMinusIntersectDeMorgan)
        } else {
            None
        }),
{
    if set_minus_union_de_morgan_shape(left, right) || set_minus_union_de_morgan_shape(right, left) {
        Some(BuiltinRule::SetMinusUnionDeMorgan)
    } else if set_minus_intersect_de_morgan_shape(left, right) || set_minus_intersect_de_morgan_shape(
        right,
        left,
    ) {
        Some(BuiltinRule::SetMinusIntersectDeMorgan)
    } else {
        None
    }
}

impl Runtime {
    /// `g >= l` or `l <= g`, as a subgoal.
    pub fn verify_weak_order_subgoal(&self, greater_or_equal: &Obj, less_or_equal: &Obj, verify_state: &VerifyState) -> (r: bool)
        ensures
            r == weak_order_holds(self, greater_or_equal@, less_or_equal@, verify_state.subgoal_depth as nat),
    {
        let ge = AtomicFact::GreaterEqualFact(greater_or_equal.duplicate(), less_or_equal.duplicate());
        if self.verify_subgoal(&ge, verify_state) {
            return true;
        }
        let le = AtomicFact::LessEqualFact(less_or_equal.duplicate(), greater_or_equal.duplicate());
        self.verify_subgoal(&le, verify_state)
    }

    /// `a = b` from `a >= b` and `b >= a`.
    pub fn try_verify_equality_from_two_sided_weak_order(&self, left: &Obj, right: &Obj, verify_state: &VerifyState) -> (r: bool)
        ensures
            r == (weak_order_holds(self, left@, right@, verify_state.subgoal_depth as nat)
                && weak_order_holds(self, right@, left@, verify_state.subgoal_depth as nat)),
    {
        self.verify_weak_order_subgoal(left, right, verify_state) && self.verify_weak_order_subgoal(
            right,
            left,
            verify_state,
        )
    }

    /// The builtin rules for `left = right`, tried in turn.
    pub fn verify_equality_by_builtin_rules(&self, left: &Obj, right: &Obj, verify_state: &VerifyState) -> (r: Result<StmtResult, RuntimeError>)
        ensures
            r == Ok::<StmtResult, RuntimeError>(rule_result(equality_rule(self, left@, right@, verify_state.subgoal_depth as nat))),
    {
        let rule = if objs_equal(left, right) {
            Some(BuiltinRule::EqualityByLiteral)
        } else if objs_equal_by_evaluation(left, right) {
            Some(BuiltinRule::EqualityByCalculation)
        } else {
            let u = try_verify_union_set_equalities(left, right);
            if u.is_some() {
                u
            } else {
                let i = try_verify_intersection_set_equalities(left, right);
                if i.is_some() {
                    i
                } else {
                    let m = try_verify_set_minus_equalities(left, right);
                    let c = self.try_verify_equality_count_and_sum(left, right);
                    if m.is_some() {
                        m
                    } else if c.is_some() {
                        c
                    } else if self.try_verify_equality_from_two_sided_weak_order(left, right, verify_state) {
                        Some(BuiltinRule::EqualityFromTwoSidedWeakOrder)
                    } else {
                        self.try_verify_equality_division_and_empty(left, right, verify_state)
                    }
                }
            }
        };
        match rule {
            Some(r) => Ok(succeed(r)),
            None => Ok(StmtResult::StmtUnknown),
        }
    }
}

/// `union(a, b) = union(b, a)` holds by a builtin rule.
pub proof fn law_union_commutative(rt: &Runtime, a: ObjV, b: ObjV, d: nat)
    ensures
        equality_rule(rt, ObjV::Union(Box::new(a), Box::new(b)), ObjV::Union(Box::new(b), Box::new(a)), d) is Some,
{
}

/// `intersect(a, b) = intersect(b, a)` holds by a builtin rule.
pub proof fn law_intersect_commutative(rt: &Runtime, a: ObjV, b: ObjV, d: nat)
    ensures
        equality_rule(rt, ObjV::Intersect(Box::new(a), Box::new(b)), ObjV::Intersect(Box::new(b), Box::new(a)), d) is Some,
{
}

/// The size of a Cartesian product is the product of the sizes of its factors.
pub proof fn law_cart_count_product(rt: &Runtime, a: ObjV, b: ObjV, d: nat)
    ensures
        equality_rule(
            rt,
            ObjV::Count(Box::new(ObjV::Cart(seq![a, b]))),
            ObjV::Mul(Box::new(ObjV::Count(Box::new(a))), Box::new(ObjV::Count(Box::new(b)))),
            d,
        ) is Some,
{
    let args = seq![a, b];
    assert(args.drop_last() =~= seq![a]);
    assert(args.last() == b);
    assert(seq![a].len() == 1 && seq![a][0] == a);
    assert(crate::equality_extra::count_product(seq![a]) == ObjV::Count(Box::new(a)));
    assert(crate::equality_extra::count_product(args) == ObjV::Mul(Box::new(ObjV::Count(Box::new(a))), Box::new(ObjV::Count(Box::new(b)))));
}

/// Two number literals of equal value are equal by a builtin rule (by
/// calculation where the two strings differ).
pub proof fn law_literal_equality_by_value(rt: &Runtime, a: Seq<char>, b: Seq<char>, d: nat)
    ensures
        decimal_compare(a, b) == NumberCompareResult::Equal ==> equality_rule(rt, ObjV::Number(a), ObjV::Number(b), d) is Some,
{
}

/// `a = c - b` holds by a builtin rule where `a + b = c` is known.
pub proof fn law_subtraction_from_known_addition(rt: &Runtime, a: ObjV, b: ObjV, c: ObjV, d: nat)
    ensures
        is_known(rt, AtomicFactV::EqualFact(ObjV::Add(Box::new(a), Box::new(b)), c)) ==> equality_rule(
            rt,
            a,
            ObjV::Sub(Box::new(c), Box::new(b)),
            d,
        ) is Some,
{
}

/// The set identities hold by builtin rules: union and intersection are
/// commutative and associative (either way round), union is idempotent with
/// the empty set as identity, intersection distributes over union, and set
/// difference follows De Morgan's laws.
pub proof fn law_set_identities(rt: &Runtime, a: ObjV, b: ObjV, c: ObjV, d: nat)
    ensures
        equality_rule(rt, union_v(a, b), union_v(b, a), d) is Some,
        equality_rule(rt, union_v(union_v(a, b), c), union_v(a, union_v(b, c)), d) is Some,
        equality_rule(rt, union_v(a, union_v(b, c)), union_v(union_v(a, b), c), d) is Some,
        equality_rule(rt, union_v(a, a), a, d) is Some,
        equality_rule(rt, union_v(a, empty_set_v()), a, d) is Some,
        equality_rule(rt, union_v(empty_set_v(), a), a, d) is Some,
        equality_rule(rt, intersect_v(a, b), intersect_v(b, a), d) is Some,
        equality_rule(rt, intersect_v(intersect_v(a, b), c), intersect_v(a, intersect_v(b, c)), d) is Some,
        equality_rule(rt, intersect_v(a, union_v(b, c)), union_v(intersect_v(a, b), intersect_v(a, c)), d) is Some,
        equality_rule(rt, set_minus_v(a, union_v(b, c)), intersect_v(set_minus_v(a, b), set_minus_v(a, c)), d) is Some,
        equality_rule(rt, set_minus_v(a, intersect_v(b, c)), union_v(set_minus_v(a, b), set_minus_v(a, c)), d) is Some,
{
}

pub open spec fn union_v(a: ObjV, b: ObjV) -> ObjV {
    ObjV::Union(Box::new(a), Box::new(b))
}

pub open spec fn intersect_v(a: ObjV, b: ObjV) -> ObjV {
    ObjV::Intersect(Box::new(a), Box::new(b))
}

pub open spec fn set_minus_v(a: ObjV, b: ObjV) -> ObjV {
    ObjV::SetMinus(Box::new(a), Box::new(b))
}

/// Every object equals itself by a builtin rule.
pub proof fn law_equality_reflexive(rt: &Runtime, a: ObjV, d: nat)
    ensures
        equality_rule(rt, a, a, d) == Some(BuiltinRule::EqualityByLiteral),
{
}

/// `a / b = c` (written either way round) holds by a builtin rule where
/// `a = b * c` or `a = c * b` is known and `b != 0` holds as a subgoal.
pub proof fn law_quotient_from_known_product(rt: &Runtime, a: ObjV, b: ObjV, c: ObjV, d: nat)
    requires
        known_equal(rt, a, ObjV::Mul(Box::new(b), Box::new(c))) || known_equal(rt, a, ObjV::Mul(Box::new(c), Box::new(b))),
        subgoal_holds(rt, AtomicFactV::NotEqualFact(b, zero_v()), d),
    ensures
        equality_rule(rt, ObjV::Div(Box::new(a), Box::new(b)), c, d) is Some,
        !(c is Div) ==> equality_rule(rt, c, ObjV::Div(Box::new(a), Box::new(b)), d) is Some,
{
    let q = ObjV::Div(Box::new(a), Box::new(b));
    assert(division_from_known_product(rt, q, c, d));
    assert(equality_division_and_empty_rule(rt, q, c, d) is Some);
    lemma_equality_rule(rt, q, c, d);
    if !(c is Div) {
        assert(division_from_known_product(rt, c, q, d));
        assert(equality_division_and_empty_rule(rt, c, q, d) is Some);
        lemma_equality_rule(rt, c, q, d);
    }
}

/// `a = c * b` and `a = b * c` hold by a builtin rule where `a / b = c` is
/// known and `b != 0` holds as a subgoal.
pub proof fn law_product_from_known_quotient(rt: &Runtime, a: ObjV, b: ObjV, c: ObjV, d: nat)
    requires
        known_equal(rt, ObjV::Div(Box::new(a), Box::new(b)), c),
        subgoal_holds(rt, AtomicFactV::NotEqualFact(b, zero_v()), d),
    ensures
        equality_rule(rt, a, ObjV::Mul(Box::new(c), Box::new(b)), d) is Some,
        equality_rule(rt, a, ObjV::Mul(Box::new(b), Box::new(c)), d) is Some,
{
    let m1 = ObjV::Mul(Box::new(c), Box::new(b));
    let m2 = ObjV::Mul(Box::new(b), Box::new(c));
    assert(product_from_known_division(rt, a, m1, d));
    assert(equality_division_and_empty_rule(rt, a, m1, d) is Some);
    lemma_equality_rule(rt, a, m1, d);
    assert(product_from_known_division(rt, a, m2, d));
    assert(equality_division_and_empty_rule(rt, a, m2, d) is Some);
    lemma_equality_rule(rt, a, m2, d);
}

/// `a = c - b` and `c - b = a` hold by a builtin rule where `a + b = c` or
/// `b + a = c` is known (in either direction).
pub proof fn law_difference_from_known_sum(rt: &Runtime, a: ObjV, b: ObjV, c: ObjV, d: nat)
    requires
        known_equal(rt, ObjV::Add(Box::new(a), Box::new(b)), c) || known_equal(rt, ObjV::Add(Box::new(b), Box::new(a)), c),
    ensures
        equality_rule(rt, a, ObjV::Sub(Box::new(c), Box::new(b)), d) is Some,
        equality_rule(rt, ObjV::Sub(Box::new(c), Box::new(b)), a, d) is Some,
{
    let s = ObjV::Sub(Box::new(c), Box::new(b));
    assert(equality_count_and_sum_rule(rt, a, s) is Some);
    assert(equality_count_and_sum_rule(rt, s, a) is Some);
    lemma_equality_rule(rt, a, s, d);
    lemma_equality_rule(rt, s, a, d);
}

/// Two objects each at least the other (as `>=` or `<=` subgoals) are equal
/// by a builtin rule.
pub proof fn law_equality_from_two_sided_weak_order(rt: &Runtime, a: ObjV, b: ObjV, d: nat)
    requires
        weak_order_holds(rt, a, b, d),
        weak_order_holds(rt, b, a, d),
    ensures
        equality_rule(rt, a, b, d) is Some,
        equality_rule(rt, b, a, d) is Some,
{
    lemma_equality_rule(rt, a, b, d);
    lemma_equality_rule(rt, b, a, d);
}

} // verus!
