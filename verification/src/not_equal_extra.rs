//! Further rules for `l != r`: an operand inequality read back from a known
//! nonzero difference or sum, and the nonzero rules for natural numbers,
//! powers, quotients, sums of squares and binary arithmetic whose operands
//! have known signs.
use vstd::prelude::*;
use crate::obj::{Obj, ObjV, StandardSet, objs_equal};
use crate::fact::{AtomicFact, AtomicFactV};
use crate::runtime::{Runtime, BuiltinRule, VerifyState};
use crate::decimal::{NumberCompareResult, decimal_sign, decimal_compare, compare_normalized_number_str_to_zero, compare_number_strings};
use crate::abs_order::{neg_one_v, obj_is_literal_neg_one};
use crate::builtin::{subgoal_holds, zero_v, zero_obj};
use crate::order_algebra::{one_v, literal_one_obj};
use crate::order_extra::{integer_literal, obj_is_integer_literal};

verus! {

/// A number literal whose value is zero.
pub open spec fn zero_literal(o: ObjV) -> bool {
    o matches ObjV::Number(s) && decimal_sign(s) == NumberCompareResult::Equal
}

/// `x` where the object is `(-1) * x` or `x * (-1)`.
pub open spec fn negated_arg(o: ObjV) -> Option<ObjV> {
    match o {
        ObjV::Mul(a, b) => if *a == neg_one_v() {
            Some(*b)
        } else if *b == neg_one_v() {
            Some(*a)
        } else {
            None
        },
        _ => None,
    }
}

/// The side of `l != r` that is compared with a zero literal.
pub open spec fn side_against_zero(l: ObjV, r: ObjV) -> Option<ObjV> {
    if zero_literal(r) {
        Some(l)
    } else if zero_literal(l) {
        Some(r)
    } else {
        None
    }
}

/// `x` where the object is `x^2` or `x * x`.
pub open spec fn square_base(o: ObjV) -> Option<ObjV> {
    match o {
        ObjV::Pow(x, n) => if *n matches ObjV::Number(s) && decimal_compare(s, seq!['2']) == NumberCompareResult::Equal {
            Some(*x)
        } else {
            None
        },
        ObjV::Mul(x, y) => if *x == *y {
            Some(*x)
        } else {
            None
        },
        _ => None,
    }
}

/// `x != 0` is known.
pub open spec fn known_nonzero(rt: &Runtime, x: ObjV) -> bool {
    crate::runtime::is_known(rt, AtomicFactV::NotEqualFact(x, zero_v()))
}

/// The rules that read `l != r` off a known fact: `a != b` from a known
/// `a - b != 0` or `b - a != 0`, and `a != -b` from a known `a + b != 0`
/// or `b + a != 0` (on either side).
pub open spec fn not_equal_known_rule(rt: &Runtime, l: ObjV, r: ObjV) -> Option<BuiltinRule> {
    if known_nonzero(rt, ObjV::Sub(Box::new(l), Box::new(r))) || known_nonzero(rt, ObjV::Sub(Box::new(r), Box::new(l))) {
        Some(BuiltinRule::OperandNotEqualFromSubNotEqualZero)
    } else if (negated_arg(r) matches Some(x) && (known_nonzero(rt, ObjV::Add(Box::new(l), Box::new(x)))
        || known_nonzero(rt, ObjV::Add(Box::new(x), Box::new(l))))) || (negated_arg(l) matches Some(y) && (
    known_nonzero(rt, ObjV::Add(Box::new(r), Box::new(y))) || known_nonzero(rt, ObjV::Add(Box::new(y), Box::new(r))))) {
        Some(BuiltinRule::OperandNotEqualNegationFromAddNotEqualZero)
    } else {
        None
    }
}

/// `0 < a`, as a subgoal.
pub open spec fn positive_subgoal(rt: &Runtime, a: ObjV, d: nat) -> bool
    decreases d, 1nat,
{
    subgoal_holds(rt, AtomicFactV::LessFact(zero_v(), a), d)
}

/// `a < 0`, as a subgoal.
pub open spec fn negative_subgoal(rt: &Runtime, a: ObjV, d: nat) -> bool
    decreases d, 1nat,
{
    subgoal_holds(rt, AtomicFactV::LessFact(a, zero_v()), d)
}

/// `a != 0`, as a subgoal.
pub open spec fn nonzero_subgoal(rt: &Runtime, a: ObjV, d: nat) -> bool
    decreases d, 1nat,
{
    subgoal_holds(rt, AtomicFactV::NotEqualFact(a, zero_v()), d)
}

/// The rules for `e != 0` (or `0 != e`), tried in turn:
/// - `n != 0` from `n` in `N` as a subgoal and a known `n >= 1` or `1 <= n`;
/// - `a^n != 0` for an integer literal `n` from `a != 0`;
/// - `a / b != 0` from `a != 0` and `b != 0`;
/// - `a^2 + b^2 != 0` (or with `a * a`, `b * b`) from `a != 0` or `b != 0`;
/// - `a + b != 0` from both operands positive or both negative;
///   `a * b != 0` from both factors known nonzero, both positive or both
///   negative; `a - b != 0` from operands of strictly opposite signs; any
///   other `e != 0` from `0 < e` or `e < 0`.
/// Every premise but the known ones is a subgoal.
#[verifier::opaque]
pub open spec fn not_equal_zero_rule(rt: &Runtime, l: ObjV, r: ObjV, d: nat) -> Option<BuiltinRule>
    decreases d, 2nat,
{
    match side_against_zero(l, r) {
        None => None,
        Some(e) => if subgoal_holds(rt, AtomicFactV::InFact(e, ObjV::StandardSet(StandardSet::N)), d)
            && (crate::runtime::is_known(rt, AtomicFactV::GreaterEqualFact(e, one_v()))
            || crate::runtime::is_known(rt, AtomicFactV::LessEqualFact(one_v(), e))) {
            Some(BuiltinRule::NotEqualZeroFromNAndOneLe)
        } else if e matches ObjV::Pow(a, n) && integer_literal(*n) && nonzero_subgoal(rt, *a, d) {
            Some(BuiltinRule::NotEqualPowFromNonzeroBase)
        } else if e matches ObjV::Div(a, b) && nonzero_subgoal(rt, *a, d) && nonzero_subgoal(rt, *b, d) {
            Some(BuiltinRule::DivNotEqualZeroFromNonzeroParts)
        } else if e matches ObjV::Add(p, q) && square_base(*p) is Some && square_base(*q) is Some
            && (nonzero_subgoal(rt, square_base(*p)->Some_0, d) || nonzero_subgoal(rt, square_base(*q)->Some_0, d)) {
            Some(BuiltinRule::SquareSumNotEqualZero)
        } else {
            match e {
                ObjV::Add(a, b) => if (positive_subgoal(rt, *a, d) && positive_subgoal(rt, *b, d))
                    || (negative_subgoal(rt, *a, d) && negative_subgoal(rt, *b, d)) {
                    Some(BuiltinRule::NotEqualZeroFromOperandSigns)
                } else {
                    None
                },
                ObjV::Mul(a, b) => if (known_nonzero(rt, *a) && known_nonzero(rt, *b))
                    || (positive_subgoal(rt, *a, d) && positive_subgoal(rt, *b, d))
                    || (negative_subgoal(rt, *a, d) && negative_subgoal(rt, *b, d)) {
                    Some(BuiltinRule::NotEqualZeroFromOperandSigns)
                } else {
                    None
                },
                ObjV::Sub(a, b) => if (positive_subgoal(rt, *a, d) && negative_subgoal(rt, *b, d))
                    || (negative_subgoal(rt, *a, d) && positive_subgoal(rt, *b, d)) {
                    Some(BuiltinRule::NotEqualZeroFromOperandSigns)
                } else {
                    None
                },
                _ => if positive_subgoal(rt, e, d) || negative_subgoal(rt, e, d) {
                    Some(BuiltinRule::NotEqualZeroFromOperandSigns)
                } else {
                    None
                },
            }
        },
    }
}

/// Whether the object is a number literal whose value is zero.
pub fn obj_is_zero_literal(o: &Obj) -> (r: bool)
    ensures
        r == zero_literal(o@),
{
    match o {
        Obj::Number(s) => matches!(compare_normalized_number_str_to_zero(s.as_str()), NumberCompareResult::Equal),
        _ => false,
    }
}

/// `x` where the object is `(-1) * x` or `x * (-1)`.
pub fn negated_arg_of(o: &Obj) -> (r: Option<Obj>)
    ensures
        r matches Some(x) ==> negated_arg(o@) == Some(x@),
        r is None <==> negated_arg(o@) is None,
{
    match o {
        Obj::Mul(a, b) => if obj_is_literal_neg_one(a) {
            Some(b.duplicate())
        } else if obj_is_literal_neg_one(b) {
            Some(a.duplicate())
        } else {
            None
        },
        _ => None,
    }
}

/// `x` where the object is `x^2` or `x * x`.
pub fn square_base_of(o: &Obj) -> (r: Option<Obj>)
    ensures
        r matches Some(x) ==> square_base(o@) == Some(x@),
        r is None <==> square_base(o@) is None,
{
    match o {
        Obj::Pow(x, n) => match &**n {
            Obj::Number(s) => {
                assert((**n)@ == ObjV::Number(s@));
                let two = "2";
                proof {
                    reveal_strlit("2");
                    assert(two@ =~= seq!['2']);
                }
                if matches!(compare_number_strings(s.as_str(), two), NumberCompareResult::Equal) {
                    Some(x.duplicate())
                } else {
                    None
                }
            },
            _ => {
                assert(!((**n)@ is Number));
                None
            },
        },
        Obj::Mul(x, y) => if objs_equal(x, y) {
            Some(x.duplicate())
        } else {
            None
        },
        _ => None,
    }
}

impl Runtime {
    /// Whether `x != 0` is known.
    pub fn obj_known_nonzero(&self, x: &Obj) -> (r: bool)
        ensures
            r == known_nonzero(self, x@),
    {
        self.fact_is_known(&AtomicFact::NotEqualFact(x.duplicate(), zero_obj()))
    }

    /// `a != b` or `a != -b` read off a known nonzero difference or sum.
    pub fn verify_not_equal_from_known_difference_or_sum(&self, left: &Obj, right: &Obj) -> (r: Option<BuiltinRule>)
        ensures
            r == not_equal_known_rule(self, left@, right@),
    {
        if self.obj_known_nonzero(&Obj::Sub(Box::new(left.duplicate()), Box::new(right.duplicate())))
            || self.obj_known_nonzero(&Obj::Sub(Box::new(right.duplicate()), Box::new(left.duplicate()))) {
            return Some(BuiltinRule::OperandNotEqualFromSubNotEqualZero);
        }
        let from_right = match negated_arg_of(right) {
            Some(x) => self.obj_known_nonzero(&Obj::Add(Box::new(left.duplicate()), Box::new(x.duplicate())))
                || self.obj_known_nonzero(&Obj::Add(Box::new(x.duplicate()), Box::new(left.duplicate()))),
            None => false,
        };
        let from_left = match negated_arg_of(left) {
            Some(y) => self.obj_known_nonzero(&Obj::Add(Box::new(right.duplicate()), Box::new(y.duplicate())))
                || self.obj_known_nonzero(&Obj::Add(Box::new(y.duplicate()), Box::new(right.duplicate()))),
            None => false,
        };
        if from_right || from_left {
            Some(BuiltinRule::OperandNotEqualNegationFromAddNotEqualZero)
        } else {
            None
        }
    }

    /// `0 < a`, as a subgoal.
    pub fn verify_positive_subgoal(&self, a: &Obj, verify_state: &VerifyState) -> (r: bool)
        ensures
            r == positive_subgoal(self, a@, verify_state.subgoal_depth as nat),
        decreases verify_state.subgoal_depth, 1nat,
    {
        self.verify_subgoal(&AtomicFact::LessFact(zero_obj(), a.duplicate()), verify_state)
    }

    /// `a < 0`, as a subgoal.
    pub fn verify_negative_subgoal(&self, a: &Obj, verify_state: &VerifyState) -> (r: bool)
        ensures
            r == negative_subgoal(self, a@, verify_state.subgoal_depth as nat),
        decreases verify_state.subgoal_depth, 1nat,
    {
        self.verify_subgoal(&AtomicFact::LessFact(a.duplicate(), zero_obj()), verify_state)
    }

    /// `a != 0`, as a subgoal.
    pub fn verify_nonzero_subgoal(&self, a: &Obj, verify_state: &VerifyState) -> (r: bool)
        ensures
            r == nonzero_subgoal(self, a@, verify_state.subgoal_depth as nat),
        decreases verify_state.subgoal_depth, 1nat,
    {
        self.verify_subgoal(&AtomicFact::NotEqualFact(a.duplicate(), zero_obj()), verify_state)
    }

    /// `a + b`, `a * b`, `a - b` or another object is nonzero by the signs of its operands.
    pub fn try_verify_not_equal_fact_when_zero_and_binary_arithmetic_reduces_by_operand_facts(&self, e: &Obj, verify_state: &VerifyState) -> (r: bool)
        ensures
            r == (match e@ {
                ObjV::Add(a, b) => (positive_subgoal(self, *a, verify_state.subgoal_depth as nat) && positive_subgoal(self, *b, verify_state.subgoal_depth as nat))
                    || (negative_subgoal(self, *a, verify_state.subgoal_depth as nat) && negative_subgoal(self, *b, verify_state.subgoal_depth as nat)),
                ObjV::Mul(a, b) => (known_nonzero(self, *a) && known_nonzero(self, *b))
                    || (positive_subgoal(self, *a, verify_state.subgoal_depth as nat) && positive_subgoal(self, *b, verify_state.subgoal_depth as nat))
                    || (negative_subgoal(self, *a, verify_state.subgoal_depth as nat) && negative_subgoal(self, *b, verify_state.subgoal_depth as nat)),
                ObjV::Sub(a, b) => (positive_subgoal(self, *a, verify_state.subgoal_depth as nat) && negative_subgoal(self, *b, verify_state.subgoal_depth as nat))
                    || (negative_subgoal(self, *a, verify_state.subgoal_depth as nat) && positive_subgoal(self, *b, verify_state.subgoal_depth as nat)),
                _ => positive_subgoal(self, e@, verify_state.subgoal_depth as nat) || negative_subgoal(self, e@, verify_state.subgoal_depth as nat),
            }),
        decreases verify_state.subgoal_depth, 2nat,
    {
        match e {
            Obj::Add(a, b) => (self.verify_positive_subgoal(a, verify_state) && self.verify_positive_subgoal(b, verify_state))
                || (self.verify_negative_subgoal(a, verify_state) && self.verify_negative_subgoal(b, verify_state)),
            Obj::Mul(a, b) => (self.obj_known_nonzero(a) && self.obj_known_nonzero(b))
                || (self.verify_positive_subgoal(a, verify_state) && self.verify_positive_subgoal(b, verify_state))
                || (self.verify_negative_subgoal(a, verify_state) && self.verify_negative_subgoal(b, verify_state)),
            Obj::Sub(a, b) => (self.verify_positive_subgoal(a, verify_state) && self.verify_negative_subgoal(b, verify_state))
                || (self.verify_negative_subgoal(a, verify_state) && self.verify_positive_subgoal(b, verify_state)),
            _ => self.verify_positive_subgoal(e, verify_state) || self.verify_negative_subgoal(e, verify_state),
        }
    }

    /// `n != 0` from `n $in N` and a known `n >= 1` or `1 <= n`.
    pub fn try_verify_not_equal_zero_from_n_and_one_le(&self, e: &Obj, verify_state: &VerifyState) -> (r: bool)
        ensures
            r == (subgoal_holds(self, AtomicFactV::InFact(e@, ObjV::StandardSet(StandardSet::N)), verify_state.subgoal_depth as nat)
                && (crate::runtime::is_known(self, AtomicFactV::GreaterEqualFact(e@, one_v()))
                || crate::runtime::is_known(self, AtomicFactV::LessEqualFact(one_v(), e@)))),
        decreases verify_state.subgoal_depth, 1nat,
    {
        self.verify_subgoal(&AtomicFact::InFact(e.duplicate(), Obj::StandardSet(StandardSet::N)), verify_state)
            && (self.fact_is_known(&AtomicFact::GreaterEqualFact(e.duplicate(), literal_one_obj()))
            || self.fact_is_known(&AtomicFact::LessEqualFact(literal_one_obj(), e.duplicate())))
    }

    /// `a^2 + b^2 != 0` from `a != 0` or `b != 0`.
    pub fn try_verify_square_sum_not_equal_zero_from_nonzero_component(&self, e: &Obj, verify_state: &VerifyState) -> (r: bool)
        ensures
            r == (e@ matches ObjV::Add(p, q) && square_base(*p) is Some && square_base(*q) is Some
                && (nonzero_subgoal(self, square_base(*p)->Some_0, verify_state.subgoal_depth as nat)
                || nonzero_subgoal(self, square_base(*q)->Some_0, verify_state.subgoal_depth as nat))),
        decreases verify_state.subgoal_depth, 2nat,
    {
        match e {
            Obj::Add(p, q) => match (square_base_of(p), square_base_of(q)) {
                (Some(x), Some(y)) => self.verify_nonzero_subgoal(&x, verify_state) || self.verify_nonzero_subgoal(&y, verify_state),
                _ => false,
            },
            _ => false,
        }
    }

    /// The rules for `e != 0`, as in `not_equal_zero_rule`.
    pub fn verify_not_equal_zero_builtin_rule(&self, left: &Obj, right: &Obj, verify_state: &VerifyState) -> (r: Option<BuiltinRule>)
        ensures
            r == not_equal_zero_rule(self, left@, right@, verify_state.subgoal_depth as nat),
        decreases verify_state.subgoal_depth, 3nat,
    {
        proof {
            reveal(not_equal_zero_rule);
        }
        let e = if obj_is_zero_literal(right) {
            left
        } else if obj_is_zero_literal(left) {
            right
        } else {
            return None;
        };
        if self.try_verify_not_equal_zero_from_n_and_one_le(e, verify_state) {
            return Some(BuiltinRule::NotEqualZeroFromNAndOneLe);
        }
        let pow = match e {
            Obj::Pow(a, n) => obj_is_integer_literal(n) && self.verify_nonzero_subgoal(a, verify_state),
            _ => false,
        };
        if pow {
            return Some(BuiltinRule::NotEqualPowFromNonzeroBase);
        }
        let div = match e {
            Obj::Div(a, b) => self.verify_nonzero_subgoal(a, verify_state) && self.verify_nonzero_subgoal(b, verify_state),
            _ => false,
        };
        if div {
            return Some(BuiltinRule::DivNotEqualZeroFromNonzeroParts);
        }
        if self.try_verify_square_sum_not_equal_zero_from_nonzero_component(e, verify_state) {
            return Some(BuiltinRule::SquareSumNotEqualZero);
        }
        if self.try_verify_not_equal_fact_when_zero_and_binary_arithmetic_reduces_by_operand_facts(e, verify_state) {
            Some(BuiltinRule::NotEqualZeroFromOperandSigns)
        } else {
            None
        }
    }
}

} // verus!
