//! Membership in the integer ranges `range(a, b)` (from `a` up to but not
//! including `b`) and `closed_range(a, b)` (both ends included), from order
//! bounds; for an integer element a bound given by an integer literal may
//! also be met one step away (`x < b` as `x <= b - 1`).
use vstd::prelude::*;
use crate::obj::{Obj, ObjV, StandardSet};
use crate::fact::{AtomicFact, AtomicFactV};
use crate::runtime::{Runtime, BuiltinRule, VerifyState};
use crate::builtin::subgoal_holds;
use crate::int_literal::{int_string, i128_to_string};
use crate::order_algebra::{int_literal_v, integer_value_of_number_obj, lemma_int_literal_in_range};
use crate::in_extra::in_set;

verus! {

/// The literal for the integer `v`.
pub open spec fn int_literal_obj(v: int) -> ObjV {
    ObjV::Number(int_string(v))
}

/// `lo <= x`, or, for `x` in `Z` and an integer literal `lo`, `lo - 1 < x`.
pub open spec fn lower_bound_met(rt: &Runtime, x: ObjV, lo: ObjV, d: nat) -> bool
    decreases d, 2nat,
{
    subgoal_holds(rt, AtomicFactV::LessEqualFact(lo, x), d) || (in_set(rt, x, StandardSet::Z, d)
        && (int_literal_v(lo) matches Some(v) && v - 1 >= i128::MIN
        && subgoal_holds(rt, AtomicFactV::LessFact(int_literal_obj(v - 1), x), d)))
}

/// `x < hi`, or, for `x` in `Z` and an integer literal `hi`, `x <= hi - 1`.
pub open spec fn open_upper_bound_met(rt: &Runtime, x: ObjV, hi: ObjV, d: nat) -> bool
    decreases d, 2nat,
{
    subgoal_holds(rt, AtomicFactV::LessFact(x, hi), d) || (in_set(rt, x, StandardSet::Z, d)
        && (int_literal_v(hi) matches Some(v) && v - 1 >= i128::MIN
        && subgoal_holds(rt, AtomicFactV::LessEqualFact(x, int_literal_obj(v - 1)), d)))
}

/// `x <= hi`, or, for `x` in `Z` and an integer literal `hi`, `x < hi + 1`.
pub open spec fn closed_upper_bound_met(rt: &Runtime, x: ObjV, hi: ObjV, d: nat) -> bool
    decreases d, 2nat,
{
    subgoal_holds(rt, AtomicFactV::LessEqualFact(x, hi), d) || (in_set(rt, x, StandardSet::Z, d)
        && (int_literal_v(hi) matches Some(v) && v + 1 <= i128::MAX
        && subgoal_holds(rt, AtomicFactV::LessFact(x, int_literal_obj(v + 1)), d)))
}

/// `x` in `range(lo, hi)` or `closed_range(lo, hi)` from its bounds, or in a
/// real interval from `x $in R` and its bounds (`<=` at a closed end, `<`
/// at an open one).
#[verifier::opaque]
pub open spec fn range_membership_rule(rt: &Runtime, x: ObjV, s: ObjV, d: nat) -> Option<BuiltinRule>
    decreases d, 3nat,
{
    match s {
        ObjV::ClosedRange(lo, hi) => if lower_bound_met(rt, x, *lo, d) && closed_upper_bound_met(rt, x, *hi, d) {
            Some(BuiltinRule::InClosedRangeFromBounds)
        } else {
            None
        },
        ObjV::Range(lo, hi) => if lower_bound_met(rt, x, *lo, d) && open_upper_bound_met(rt, x, *hi, d) {
            Some(BuiltinRule::InRangeFromBounds)
        } else {
            None
        },
        ObjV::Interval(lo, hi, left_closed, right_closed) => if in_set(rt, x, StandardSet::R, d)
            && subgoal_holds(rt, interval_bound(*lo, x, left_closed), d)
            && subgoal_holds(rt, interval_bound(x, *hi, right_closed), d) {
            Some(BuiltinRule::InIntervalFromBounds)
        } else {
            None
        },
        _ => None,
    }
}

/// `a <= b` for a closed end, `a < b` for an open one.
pub open spec fn interval_bound(a: ObjV, b: ObjV, closed: bool) -> AtomicFactV {
    if closed {
        AtomicFactV::LessEqualFact(a, b)
    } else {
        AtomicFactV::LessFact(a, b)
    }
}

/// `a <= b` for a closed end, `a < b` for an open one.
pub fn interval_bound_fact(a: &Obj, b: &Obj, closed: bool) -> (r: AtomicFact)
    ensures
        r@ == interval_bound(a@, b@, closed),
{
    if closed {
        AtomicFact::LessEqualFact(a.duplicate(), b.duplicate())
    } else {
        AtomicFact::LessFact(a.duplicate(), b.duplicate())
    }
}

/// The literal for the integer `v`.
pub fn integer_literal_obj(v: i128) -> (r: Obj)
    ensures
        r@ == int_literal_obj(v as int),
{
    Obj::Number(i128_to_string(v))
}

impl Runtime {
    /// `lo <= x`, or `lo - 1 < x` for an integer `x` and integer literal `lo`.
    pub fn order_lower_bound_from_literals(&self, x: &Obj, lo: &Obj, verify_state: &VerifyState) -> (r: bool)
        ensures
            r == lower_bound_met(self, x@, lo@, verify_state.subgoal_depth as nat),
        decreases verify_state.subgoal_depth, 2nat,
    {
        if self.verify_subgoal(&AtomicFact::LessEqualFact(lo.duplicate(), x.duplicate()), verify_state) {
            return true;
        }
        if !self.verify_in_set_subgoal(x, StandardSet::Z, verify_state) {
            return false;
        }
        proof {
            lemma_int_literal_in_range(lo@);
        }
        match integer_value_of_number_obj(lo) {
            Some(v) => {
                if v == i128::MIN {
                    return false;
                }
                let p = integer_literal_obj(v - 1);
                self.verify_subgoal(&AtomicFact::LessFact(p, x.duplicate()), verify_state)
            },
            None => false,
        }
    }

    /// `x < hi`, or `x <= hi - 1` for an integer `x` and integer literal `hi`.
    pub fn order_upper_bound_open_from_literals(&self, x: &Obj, hi: &Obj, verify_state: &VerifyState) -> (r: bool)
        ensures
            r == open_upper_bound_met(self, x@, hi@, verify_state.subgoal_depth as nat),
        decreases verify_state.subgoal_depth, 2nat,
    {
        if self.verify_subgoal(&AtomicFact::LessFact(x.duplicate(), hi.duplicate()), verify_state) {
            return true;
        }
        if !self.verify_in_set_subgoal(x, StandardSet::Z, verify_state) {
            return false;
        }
        proof {
            lemma_int_literal_in_range(hi@);
        }
        match integer_value_of_number_obj(hi) {
            Some(v) => {
                if v == i128::MIN {
                    return false;
                }
                let m = integer_literal_obj(v - 1);
                self.verify_subgoal(&AtomicFact::LessEqualFact(x.duplicate(), m), verify_state)
            },
            None => false,
        }
    }

    /// `x <= hi`, or `x < hi + 1` for an integer `x` and integer literal `hi`.
    pub fn order_upper_bound_closed_from_literals(&self, x: &Obj, hi: &Obj, verify_state: &VerifyState) -> (r: bool)
        ensures
            r == closed_upper_bound_met(self, x@, hi@, verify_state.subgoal_depth as nat),
        decreases verify_state.subgoal_depth, 2nat,
    {
        if self.verify_subgoal(&AtomicFact::LessEqualFact(x.duplicate(), hi.duplicate()), verify_state) {
            return true;
        }
        if !self.verify_in_set_subgoal(x, StandardSet::Z, verify_state) {
            return false;
        }
        proof {
            lemma_int_literal_in_range(hi@);
        }
        match integer_value_of_number_obj(hi) {
            Some(v) => {
                if v == i128::MAX {
                    return false;
                }
                let p = integer_literal_obj(v + 1);
                self.verify_subgoal(&AtomicFact::LessFact(x.duplicate(), p), verify_state)
            },
            None => false,
        }
    }

    /// Membership in `range(lo, hi)` or `closed_range(lo, hi)` from the bounds.
    pub fn verify_in_fact_range_by_order_bounds(&self, x: &Obj, s: &Obj, verify_state: &VerifyState) -> (r: Option<BuiltinRule>)
        ensures
            r == range_membership_rule(self, x@, s@, verify_state.subgoal_depth as nat),
        decreases verify_state.subgoal_depth, 3nat,
    {
        proof {
            reveal(range_membership_rule);
        }
        match s {
            Obj::ClosedRange(lo, hi) => {
                if self.order_lower_bound_from_literals(x, lo, verify_state)
                    && self.order_upper_bound_closed_from_literals(x, hi, verify_state) {
                    Some(BuiltinRule::InClosedRangeFromBounds)
                } else {
                    None
                }
            },
            Obj::Range(lo, hi) => {
                if self.order_lower_bound_from_literals(x, lo, verify_state)
                    && self.order_upper_bound_open_from_literals(x, hi, verify_state) {
                    Some(BuiltinRule::InRangeFromBounds)
                } else {
                    None
                }
            },
            Obj::Interval(lo, hi, left_closed, right_closed) => {
                if self.verify_in_set_subgoal(x, StandardSet::R, verify_state)
                    && self.verify_subgoal(&interval_bound_fact(lo, x, *left_closed), verify_state)
                    && self.verify_subgoal(&interval_bound_fact(x, hi, *right_closed), verify_state) {
                    Some(BuiltinRule::InIntervalFromBounds)
                } else {
                    None
                }
            },
            _ => None,
        }
    }
}

/// An object with its bounds met (as subgoals) lies in the range: `lo <= x`
/// and `x < hi` for `range(lo, hi)`, `lo <= x` and `x <= hi` for
/// `closed_range(lo, hi)`, and for a real interval `x $in R` with `<=` at each
/// closed end and `<` at each open one.
pub proof fn law_membership_from_bounds(rt: &Runtime, x: ObjV, lo: ObjV, hi: ObjV, lc: bool, rc: bool, d: nat)
    ensures
        subgoal_holds(rt, AtomicFactV::LessEqualFact(lo, x), d) && subgoal_holds(rt, AtomicFactV::LessFact(x, hi), d)
            ==> range_membership_rule(rt, x, ObjV::Range(Box::new(lo), Box::new(hi)), d) == Some(
            BuiltinRule::InRangeFromBounds,
        ),
        subgoal_holds(rt, AtomicFactV::LessEqualFact(lo, x), d) && subgoal_holds(rt, AtomicFactV::LessEqualFact(x, hi), d)
            ==> range_membership_rule(rt, x, ObjV::ClosedRange(Box::new(lo), Box::new(hi)), d) == Some(
            BuiltinRule::InClosedRangeFromBounds,
        ),
        in_set(rt, x, StandardSet::R, d) && subgoal_holds(
            rt,
            if lc { AtomicFactV::LessEqualFact(lo, x) } else { AtomicFactV::LessFact(lo, x) },
            d,
        ) && subgoal_holds(rt, if rc { AtomicFactV::LessEqualFact(x, hi) } else { AtomicFactV::LessFact(x, hi) }, d)
            ==> range_membership_rule(rt, x, ObjV::Interval(Box::new(lo), Box::new(hi), lc, rc), d) == Some(
            BuiltinRule::InIntervalFromBounds,
        ),
{
    reveal(range_membership_rule);
}

} // verus!
