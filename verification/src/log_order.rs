//! Order rules for logarithms: a base above one keeps the order of the
//! arguments, a base below one reverses it, and the sign of `log(a, x)`
//! follows from where `a` and `x` lie against one.
use vstd::prelude::*;
use crate::obj::{Obj, ObjV, objs_equal};
use crate::fact::{AtomicFact, AtomicFactV};
use crate::runtime::{Runtime, BuiltinRule, VerifyState};
use crate::order_normalize::{normalized_order, normalize_positive_order_atomic_fact};
use crate::builtin::{subgoal_holds, known_equal, zero_v, zero_obj};
use crate::order_algebra::{one_v, literal_one_obj};

verus! {

/// `log(a, x) < log(b, y)` for the same base (`a` and `b` alike or known
/// equal): from `1 < a` and `x < y`, or from `a < 1` and `y < x`.
/// `0 < log(a, x)` from `1 < a` and `1 < x`; `log(a, x) < 0` from `1 < a`,
/// `x < 1` and `0 < x`. Every premise is a subgoal.
#[verifier::opaque]
pub open spec fn log_order_rule(rt: &Runtime, f: AtomicFactV, d: nat) -> Option<BuiltinRule>
    decreases d, 1nat,
{
    match normalized_order(f) {
        Some(AtomicFactV::LessFact(l, r)) => match (l, r) {
            (ObjV::Log(a, x), ObjV::Log(b, y)) => if !(*a == *b || known_equal(rt, *a, *b)) {
                None
            } else if subgoal_holds(rt, AtomicFactV::LessFact(one_v(), *a), d)
                && subgoal_holds(rt, AtomicFactV::LessFact(*x, *y), d) {
                Some(BuiltinRule::LogOrderBaseAboveOne)
            } else if subgoal_holds(rt, AtomicFactV::LessFact(*a, one_v()), d)
                && subgoal_holds(rt, AtomicFactV::LessFact(*y, *x), d) {
                Some(BuiltinRule::LogOrderBaseBelowOne)
            } else {
                None
            },
            (ObjV::Number(_), ObjV::Log(a, x)) => if l == zero_v()
                && subgoal_holds(rt, AtomicFactV::LessFact(one_v(), *a), d)
                && subgoal_holds(rt, AtomicFactV::LessFact(one_v(), *x), d) {
                Some(BuiltinRule::LogPositive)
            } else {
                None
            },
            (ObjV::Log(a, x), ObjV::Number(_)) => if r == zero_v()
                && subgoal_holds(rt, AtomicFactV::LessFact(one_v(), *a), d)
                && subgoal_holds(rt, AtomicFactV::LessFact(*x, one_v()), d)
                && subgoal_holds(rt, AtomicFactV::LessFact(zero_v(), *x), d) {
                Some(BuiltinRule::LogNegative)
            } else {
                None
            },
            _ => None,
        },
        _ => None,
    }
}

impl Runtime {
    /// `log(a, x) < log(b, y)` for the same base, by where the base lies against one.
    pub fn verify_log_compare(&self, a: &Obj, x: &Obj, b: &Obj, y: &Obj, verify_state: &VerifyState) -> (r: Option<BuiltinRule>)
        ensures
            r == (if !(a@ == b@ || known_equal(self, a@, b@)) {
                None
            } else if subgoal_holds(self, AtomicFactV::LessFact(one_v(), a@), verify_state.subgoal_depth as nat)
                && subgoal_holds(self, AtomicFactV::LessFact(x@, y@), verify_state.subgoal_depth as nat) {
                Some(BuiltinRule::LogOrderBaseAboveOne)
            } else if subgoal_holds(self, AtomicFactV::LessFact(a@, one_v()), verify_state.subgoal_depth as nat)
                && subgoal_holds(self, AtomicFactV::LessFact(y@, x@), verify_state.subgoal_depth as nat) {
                Some(BuiltinRule::LogOrderBaseBelowOne)
            } else {
                None
            }),
        decreases verify_state.subgoal_depth, 1nat,
    {
        if !(objs_equal(a, b) || self.objs_known_equal(a, b)) {
            return None;
        }
        if self.verify_subgoal(&AtomicFact::LessFact(literal_one_obj(), a.duplicate()), verify_state)
            && self.verify_subgoal(&AtomicFact::LessFact(x.duplicate(), y.duplicate()), verify_state) {
            Some(BuiltinRule::LogOrderBaseAboveOne)
        } else if self.verify_subgoal(&AtomicFact::LessFact(a.duplicate(), literal_one_obj()), verify_state)
            && self.verify_subgoal(&AtomicFact::LessFact(y.duplicate(), x.duplicate()), verify_state) {
            Some(BuiltinRule::LogOrderBaseBelowOne)
        } else {
            None
        }
    }

    /// The logarithm order and sign rules.
    pub fn verify_log_order_builtin_rule(&self, atomic_fact: &AtomicFact, verify_state: &VerifyState) -> (r: Option<BuiltinRule>)
        ensures
            r == log_order_rule(self, atomic_fact@, verify_state.subgoal_depth as nat),
        decreases verify_state.subgoal_depth, 2nat,
    {
        proof {
            reveal(log_order_rule);
        }
        let (l, r) = match normalize_positive_order_atomic_fact(atomic_fact) {
            Some(AtomicFact::LessFact(l, r)) => (l, r),
            _ => return None,
        };
        match (&l, &r) {
            (Obj::Log(a, x), Obj::Log(b, y)) => self.verify_log_compare(a, x, b, y, verify_state),
            (Obj::Number(_), Obj::Log(a, x)) => {
                if objs_equal(&l, &zero_obj())
                    && self.verify_subgoal(&AtomicFact::LessFact(literal_one_obj(), a.duplicate()), verify_state)
                    && self.verify_subgoal(&AtomicFact::LessFact(literal_one_obj(), x.duplicate()), verify_state) {
                    Some(BuiltinRule::LogPositive)
                } else {
                    None
                }
            },
            (Obj::Log(a, x), Obj::Number(_)) => {
                if objs_equal(&r, &zero_obj())
                    && self.verify_subgoal(&AtomicFact::LessFact(literal_one_obj(), a.duplicate()), verify_state)
                    && self.verify_subgoal(&AtomicFact::LessFact(x.duplicate(), literal_one_obj()), verify_state)
                    && self.verify_subgoal(&AtomicFact::LessFact(zero_obj(), x.duplicate()), verify_state) {
                    Some(BuiltinRule::LogNegative)
                } else {
                    None
                }
            },
            _ => None,
        }
    }
}

} // verus!
