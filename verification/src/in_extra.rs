//! Further membership rules for the standard sets: the size of a finite set
//! is a number, `N` and `N_pos` from integer bounds, `Q_pos` and `R_pos` from
//! a positive element of the base set, and arithmetic expressions in `R`.
use vstd::prelude::*;
use crate::obj::{Obj, ObjV, StandardSet};
use crate::fact::{AtomicFact, AtomicFactV};
use crate::runtime::{Runtime, BuiltinRule, VerifyState, is_known};
use crate::builtin::{subgoal_holds, zero_v, zero_obj};
use crate::not_equal_extra::{positive_subgoal, negative_subgoal};

verus! {

/// The operations whose value is a real number: `+ - * /`, `mod`, powers,
/// `max`, `min`, `abs`, `sqrt` and `log`.
pub open spec fn real_arithmetic(e: ObjV) -> bool {
    e is Add || e is Sub || e is Mul || e is Div || e is Mod || e is Pow || e is Max || e is Min || e is Abs
        || e is Sqrt || e is Log
}

/// The standard sets that hold `max(a, b)` and `min(a, b)` of two members
/// (for the others, the value need not follow from the operands' set alone).
pub open spec fn max_min_closed(set: StandardSet) -> bool {
    set == StandardSet::RPos || set == StandardSet::QPos || set == StandardSet::RNeg || set == StandardSet::QNeg
        || set == StandardSet::ZNeg || set == StandardSet::N || set == StandardSet::NPos
}

/// The shapes that have membership rules of their own for `N`.
pub open spec fn own_rule_in_n(e: ObjV) -> bool {
    e is Number || e is Add || e is Sub || e is Mul || e is Pow || e is Count || e is Sum || e is Product
}

/// The shapes that have membership rules of their own for `N_pos`.
pub open spec fn own_rule_in_n_pos(e: ObjV) -> bool {
    e is Number || e is Add || e is Mul || e is Pow || e is Sum || e is Product
}

/// `0 <= e`, `e >= 0`, `0 < e` or `e > 0` is known.
pub open spec fn known_nonnegative(rt: &Runtime, e: ObjV) -> bool {
    is_known(rt, AtomicFactV::GreaterEqualFact(e, zero_v())) || is_known(rt, AtomicFactV::LessEqualFact(zero_v(), e))
        || is_known(rt, AtomicFactV::GreaterFact(e, zero_v())) || is_known(rt, AtomicFactV::LessFact(zero_v(), e))
}

/// `o` in the standard set, as a subgoal.
pub open spec fn in_set(rt: &Runtime, o: ObjV, set: StandardSet, d: nat) -> bool
    decreases d, 1nat,
{
    subgoal_holds(rt, AtomicFactV::InFact(o, ObjV::StandardSet(set)), d)
}

/// `Z` is closed under `+ - *`, `mod`, `max`, `min` and `abs`; `a^n` is in
/// `Z` for `a` in `Z` (or in `N_pos`) and `n` in `N`.
pub open spec fn z_closure(rt: &Runtime, e: ObjV, d: nat) -> bool
    decreases d, 2nat,
{
    let z = StandardSet::Z;
    match e {
        ObjV::Add(a, b) | ObjV::Sub(a, b) | ObjV::Mul(a, b) | ObjV::Mod(a, b) | ObjV::Max(a, b) | ObjV::Min(a, b) =>
            in_set(rt, *a, z, d) && in_set(rt, *b, z, d),
        ObjV::Pow(a, n) => (in_set(rt, *a, z, d) && in_set(rt, *n, StandardSet::N, d)) || (in_set(
            rt,
            *a,
            StandardSet::NPos,
            d,
        ) && in_set(rt, *n, StandardSet::N, d)),
        ObjV::Abs(a) => in_set(rt, *a, z, d),
        _ => false,
    }
}

/// `Q` is closed under `+ - * /`, `max`, `min` and `abs`; `a^n` is in `Q`
/// for `a` in `Q` and `n` in `Z`.
pub open spec fn q_closure(rt: &Runtime, e: ObjV, d: nat) -> bool
    decreases d, 2nat,
{
    let q = StandardSet::Q;
    match e {
        ObjV::Add(a, b) | ObjV::Sub(a, b) | ObjV::Mul(a, b) | ObjV::Div(a, b) | ObjV::Max(a, b) | ObjV::Min(a, b) =>
            in_set(rt, *a, q, d) && in_set(rt, *b, q, d),
        ObjV::Pow(a, n) => in_set(rt, *a, q, d) && in_set(rt, *n, StandardSet::Z, d),
        ObjV::Abs(a) => in_set(rt, *a, q, d),
        _ => false,
    }
}

/// Closure rules for the natural numbers:
/// - `a - b` in `N` from `a`, `b` in `Z` and `b <= a` (or a known `0 <= a - b`);
/// - `a^k` in `N` (`N_pos`) from `a` in `N` (`N_pos`) and `k` in `N`;
/// - `a + b` in `N_pos` from both in `N_pos`, or one in `N_pos` and the other in `N`;
/// - `a * b` in `N_pos` from both in `N_pos`.
pub open spec fn natural_shape_rule(rt: &Runtime, e: ObjV, set: StandardSet, d: nat) -> Option<BuiltinRule>
    decreases d, 2nat,
{
    let n = StandardSet::N;
    let np = StandardSet::NPos;
    match e {
        ObjV::Sub(a, b) => if set == n && in_set(rt, *a, StandardSet::Z, d) && in_set(rt, *b, StandardSet::Z, d)
            && (subgoal_holds(rt, AtomicFactV::LessEqualFact(*b, *a), d) || known_nonnegative(rt, e)) {
            Some(BuiltinRule::SubInNFromBound)
        } else {
            None
        },
        ObjV::Pow(a, k) => if (set == n || set == np) && in_set(rt, *a, set, d) && in_set(rt, *k, n, d) {
            Some(BuiltinRule::PowInNaturalsFromNaturalExponent)
        } else {
            None
        },
        ObjV::Add(a, b) => if set == np && ((in_set(rt, *a, np, d) && in_set(rt, *b, np, d)) || (in_set(rt, *a, np, d)
            && in_set(rt, *b, n, d)) || (in_set(rt, *a, n, d) && in_set(rt, *b, np, d))) {
            Some(BuiltinRule::AddInNPos)
        } else {
            None
        },
        ObjV::Mul(a, b) => if set == np && in_set(rt, *a, np, d) && in_set(rt, *b, np, d) {
            Some(BuiltinRule::MulInNPos)
        } else {
            None
        },
        _ => None,
    }
}

/// `e` in the standard set, for the shapes handled here; every premise but
/// the known ones is a subgoal.
/// - `max(a, b)` or `min(a, b)` in `N`, `N_pos`, `Q_pos`, `R_pos`, `Z_neg`,
///   `Q_neg` or `R_neg` from both operands in it (and nothing else then);
/// - `count(s)` in `N`, `Z`, `Q` or `R` from `$is_finite_set(s)`;
/// - `e` in `N` from a known `e $in N_pos`, or from `e $in Z` and a known
///   `0 <= e` (or `e >= 0`, `0 < e`, `e > 0`);
/// - `e` in `N_pos` from `0 < e` and `e $in Z` or `e $in N`;
/// - `e` in `Q_pos` (`R_pos`) from `0 < e` and `e $in Q` (`e $in R`);
/// - `a * b` in `R_neg` from `a * b` in `R` and factors of strictly
///   opposite signs (and in `Q_neg`, `Z_neg` also from `a * b` in `Q`, `Z`);
/// - an arithmetic expression in `Z` or `Q` from its operands (`z_closure`,
///   `q_closure`), and any arithmetic expression in `R`.
#[verifier::opaque]
pub open spec fn in_standard_set_rule(rt: &Runtime, e: ObjV, set: StandardSet, d: nat) -> Option<BuiltinRule>
    decreases d, 3nat,
{
    if (e is Max || e is Min) && max_min_closed(set) {
        let (a, b) = match e {
            ObjV::Max(a, b) => (*a, *b),
            ObjV::Min(a, b) => (*a, *b),
            _ => (e, e),
        };
        if in_set(rt, a, set, d) && in_set(rt, b, set, d) {
            Some(BuiltinRule::MaxMinOfMembers)
        } else {
            None
        }
    } else if e is Count && (set == StandardSet::N || set == StandardSet::Z || set == StandardSet::Q || set == StandardSet::R) {
        if subgoal_holds(rt, AtomicFactV::IsFiniteSetFact(*e->Count_0), d) {
            Some(BuiltinRule::CountOfFiniteSetInNumbers)
        } else {
            None
        }
    } else if set == StandardSet::N {
        if e is Sub || e is Pow {
            natural_shape_rule(rt, e, set, d)
        } else if own_rule_in_n(e) {
            None
        } else if is_known(rt, AtomicFactV::InFact(e, ObjV::StandardSet(StandardSet::NPos))) {
            Some(BuiltinRule::NFromNPos)
        } else if subgoal_holds(rt, AtomicFactV::InFact(e, ObjV::StandardSet(StandardSet::Z)), d) && known_nonnegative(rt, e) {
            Some(BuiltinRule::NFromNonnegativeInteger)
        } else {
            None
        }
    } else if set == StandardSet::NPos {
        if e is Add || e is Mul || e is Pow {
            natural_shape_rule(rt, e, set, d)
        } else if !own_rule_in_n_pos(e) && subgoal_holds(rt, AtomicFactV::LessFact(zero_v(), e), d) && (subgoal_holds(
            rt,
            AtomicFactV::InFact(e, ObjV::StandardSet(StandardSet::Z)),
            d,
        ) || subgoal_holds(rt, AtomicFactV::InFact(e, ObjV::StandardSet(StandardSet::N)), d)) {
            Some(BuiltinRule::NPosFromPositiveInteger)
        } else {
            None
        }
    } else if set == StandardSet::QPos || set == StandardSet::RPos {
        let base = if set == StandardSet::QPos {
            StandardSet::Q
        } else {
            StandardSet::R
        };
        if !(e is Number) && subgoal_holds(rt, AtomicFactV::LessFact(zero_v(), e), d) && subgoal_holds(
            rt,
            AtomicFactV::InFact(e, ObjV::StandardSet(base)),
            d,
        ) {
            Some(BuiltinRule::PositiveFromBaseSet)
        } else {
            None
        }
    } else if set == StandardSet::Z {
        if z_closure(rt, e, d) {
            Some(BuiltinRule::ArithmeticInZ)
        } else {
            None
        }
    } else if set == StandardSet::Q {
        if q_closure(rt, e, d) {
            Some(BuiltinRule::ArithmeticInQ)
        } else {
            None
        }
    } else if set == StandardSet::RNeg || set == StandardSet::QNeg || set == StandardSet::ZNeg {
        if e matches ObjV::Mul(a, b) && in_set(rt, e, StandardSet::R, d) && ((negative_subgoal(rt, *a, d)
            && positive_subgoal(rt, *b, d)) || (negative_subgoal(rt, *b, d) && positive_subgoal(rt, *a, d))) && (
        set == StandardSet::RNeg || in_set(
            rt,
            e,
            if set == StandardSet::QNeg {
                StandardSet::Q
            } else {
                StandardSet::Z
            },
            d,
        )) {
            Some(BuiltinRule::MulOppositeSignsInNegativeSet)
        } else {
            None
        }
    } else if set == StandardSet::R && real_arithmetic(e) {
        Some(BuiltinRule::ArithmeticInR)
    } else {
        None
    }
}

/// Whether the object is an arithmetic expression with a real value.
pub fn obj_is_real_arithmetic(e: &Obj) -> (r: bool)
    ensures
        r == real_arithmetic(e@),
{
    match e {
        Obj::Add(_, _) | Obj::Sub(_, _) | Obj::Mul(_, _) | Obj::Div(_, _) | Obj::Mod(_, _) | Obj::Pow(_, _)
        | Obj::Max(_, _) | Obj::Min(_, _) | Obj::Abs(_) | Obj::Sqrt(_) | Obj::Log(_, _) => true,
        _ => false,
    }
}

/// Whether the shape has membership rules of its own for `N`.
pub fn has_own_rule_in_n(e: &Obj) -> (r: bool)
    ensures
        r == own_rule_in_n(e@),
{
    match e {
        Obj::Number(_) | Obj::Add(_, _) | Obj::Sub(_, _) | Obj::Mul(_, _) | Obj::Pow(_, _) | Obj::Count(_)
        | Obj::Sum(_, _, _) | Obj::Product(_, _, _) => true,
        _ => false,
    }
}

/// Whether the shape has membership rules of its own for `N_pos`.
pub fn has_own_rule_in_n_pos(e: &Obj) -> (r: bool)
    ensures
        r == own_rule_in_n_pos(e@),
{
    match e {
        Obj::Number(_) | Obj::Add(_, _) | Obj::Mul(_, _) | Obj::Pow(_, _) | Obj::Sum(_, _, _)
        | Obj::Product(_, _, _) => true,
        _ => false,
    }
}

impl Runtime {
    /// Whether `0 <= e`, `e >= 0`, `0 < e` or `e > 0` is known.
    pub fn obj_known_nonnegative(&self, e: &Obj) -> (r: bool)
        ensures
            r == known_nonnegative(self, e@),
    {
        self.fact_is_known(&AtomicFact::GreaterEqualFact(e.duplicate(), zero_obj()))
            || self.fact_is_known(&AtomicFact::LessEqualFact(zero_obj(), e.duplicate()))
            || self.fact_is_known(&AtomicFact::GreaterFact(e.duplicate(), zero_obj()))
            || self.fact_is_known(&AtomicFact::LessFact(zero_obj(), e.duplicate()))
    }

    /// `o` in the standard set, as a subgoal.
    pub fn verify_in_set_subgoal(&self, o: &Obj, set: StandardSet, verify_state: &VerifyState) -> (r: bool)
        ensures
            r == in_set(self, o@, set, verify_state.subgoal_depth as nat),
        decreases verify_state.subgoal_depth, 1nat,
    {
        self.verify_subgoal(&AtomicFact::InFact(o.duplicate(), Obj::StandardSet(set)), verify_state)
    }

    /// An arithmetic expression in `Z` from its operands.
    pub fn verify_in_fact_arithmetic_expression_in_z(&self, e: &Obj, verify_state: &VerifyState) -> (r: bool)
        ensures
            r == z_closure(self, e@, verify_state.subgoal_depth as nat),
        decreases verify_state.subgoal_depth, 2nat,
    {
        let z = StandardSet::Z;
        match e {
            Obj::Add(a, b) | Obj::Sub(a, b) | Obj::Mul(a, b) | Obj::Mod(a, b) | Obj::Max(a, b) | Obj::Min(a, b) =>
                self.verify_in_set_subgoal(a, z, verify_state) && self.verify_in_set_subgoal(b, z, verify_state),
            Obj::Pow(a, n) => (self.verify_in_set_subgoal(a, z, verify_state) && self.verify_in_set_subgoal(n, StandardSet::N, verify_state))
                || (self.verify_in_set_subgoal(a, StandardSet::NPos, verify_state) && self.verify_in_set_subgoal(n, StandardSet::N, verify_state)),
            Obj::Abs(a) => self.verify_in_set_subgoal(a, z, verify_state),
            _ => false,
        }
    }

    /// An arithmetic expression in `Q` from its operands.
    pub fn verify_in_fact_arithmetic_expression_in_q(&self, e: &Obj, verify_state: &VerifyState) -> (r: bool)
        ensures
            r == q_closure(self, e@, verify_state.subgoal_depth as nat),
        decreases verify_state.subgoal_depth, 2nat,
    {
        let q = StandardSet::Q;
        match e {
            Obj::Add(a, b) | Obj::Sub(a, b) | Obj::Mul(a, b) | Obj::Div(a, b) | Obj::Max(a, b) | Obj::Min(a, b) =>
                self.verify_in_set_subgoal(a, q, verify_state) && self.verify_in_set_subgoal(b, q, verify_state),
            Obj::Pow(a, n) => self.verify_in_set_subgoal(a, q, verify_state) && self.verify_in_set_subgoal(n, StandardSet::Z, verify_state),
            Obj::Abs(a) => self.verify_in_set_subgoal(a, q, verify_state),
            _ => false,
        }
    }

    /// The closure rules of `natural_shape_rule`.
    pub fn verify_in_fact_natural_shape(&self, e: &Obj, set: StandardSet, verify_state: &VerifyState) -> (r: Option<BuiltinRule>)
        ensures
            r == natural_shape_rule(self, e@, set, verify_state.subgoal_depth as nat),
        decreases verify_state.subgoal_depth, 2nat,
    {
        let to_n = matches!(set, StandardSet::N);
        let to_np = matches!(set, StandardSet::NPos);
        let n = StandardSet::N;
        let np = StandardSet::NPos;
        match e {
            Obj::Sub(a, b) => {
                if to_n && self.verify_in_set_subgoal(a, StandardSet::Z, verify_state)
                    && self.verify_in_set_subgoal(b, StandardSet::Z, verify_state)
                    && (self.verify_subgoal(&AtomicFact::LessEqualFact(b.duplicate(), a.duplicate()), verify_state)
                    || self.obj_known_nonnegative(e)) {
                    Some(BuiltinRule::SubInNFromBound)
                } else {
                    None
                }
            },
            Obj::Pow(a, k) => {
                if (to_n || to_np) && self.verify_in_set_subgoal(a, set, verify_state) && self.verify_in_set_subgoal(k, n, verify_state) {
                    Some(BuiltinRule::PowInNaturalsFromNaturalExponent)
                } else {
                    None
                }
            },
            Obj::Add(a, b) => {
                if to_np && ((self.verify_in_set_subgoal(a, np, verify_state) && self.verify_in_set_subgoal(b, np, verify_state))
                    || (self.verify_in_set_subgoal(a, np, verify_state) && self.verify_in_set_subgoal(b, n, verify_state))
                    || (self.verify_in_set_subgoal(a, n, verify_state) && self.verify_in_set_subgoal(b, np, verify_state))) {
                    Some(BuiltinRule::AddInNPos)
                } else {
                    None
                }
            },
            Obj::Mul(a, b) => {
                if to_np && self.verify_in_set_subgoal(a, np, verify_state) && self.verify_in_set_subgoal(b, np, verify_state) {
                    Some(BuiltinRule::MulInNPos)
                } else {
                    None
                }
            },
            _ => None,
        }
    }

    /// The membership rules of `in_standard_set_rule`.
    pub fn verify_in_standard_set_builtin_rule(&self, e: &Obj, set: &StandardSet, verify_state: &VerifyState) -> (r: Option<BuiltinRule>)
        ensures
            r == in_standard_set_rule(self, e@, *set, verify_state.subgoal_depth as nat),
        decreases verify_state.subgoal_depth, 3nat,
    {
        proof {
            reveal(in_standard_set_rule);
        }
        let closed = matches!(set, StandardSet::RPos) || matches!(set, StandardSet::QPos) || matches!(set, StandardSet::RNeg)
            || matches!(set, StandardSet::QNeg) || matches!(set, StandardSet::ZNeg) || matches!(set, StandardSet::N)
            || matches!(set, StandardSet::NPos);
        match e {
            Obj::Max(a, b) | Obj::Min(a, b) => {
                if closed {
                    if self.verify_in_set_subgoal(a, *set, verify_state) && self.verify_in_set_subgoal(b, *set, verify_state) {
                        return Some(BuiltinRule::MaxMinOfMembers);
                    }
                    return None;
                }
            },
            _ => {},
        }
        let numbers = matches!(set, StandardSet::N) || matches!(set, StandardSet::Z) || matches!(set, StandardSet::Q)
            || matches!(set, StandardSet::R);
        if let Obj::Count(s) = e {
            if numbers {
                if self.verify_subgoal(&AtomicFact::IsFiniteSetFact(s.duplicate()), verify_state) {
                    return Some(BuiltinRule::CountOfFiniteSetInNumbers);
                }
                return None;
            }
        }
        match set {
            StandardSet::N => {
                let shaped = match e {
                    Obj::Sub(_, _) | Obj::Pow(_, _) => true,
                    _ => false,
                };
                if shaped {
                    self.verify_in_fact_natural_shape(e, StandardSet::N, verify_state)
                } else if has_own_rule_in_n(e) {
                    None
                } else if self.fact_is_known(&AtomicFact::InFact(e.duplicate(), Obj::StandardSet(StandardSet::NPos))) {
                    Some(BuiltinRule::NFromNPos)
                } else if self.verify_subgoal(&AtomicFact::InFact(e.duplicate(), Obj::StandardSet(StandardSet::Z)), verify_state)
                    && self.obj_known_nonnegative(e) {
                    Some(BuiltinRule::NFromNonnegativeInteger)
                } else {
                    None
                }
            },
            StandardSet::NPos => {
                let shaped = match e {
                    Obj::Add(_, _) | Obj::Mul(_, _) | Obj::Pow(_, _) => true,
                    _ => false,
                };
                if shaped {
                    self.verify_in_fact_natural_shape(e, StandardSet::NPos, verify_state)
                } else if !has_own_rule_in_n_pos(e)
                    && self.verify_subgoal(&AtomicFact::LessFact(zero_obj(), e.duplicate()), verify_state)
                    && (self.verify_subgoal(&AtomicFact::InFact(e.duplicate(), Obj::StandardSet(StandardSet::Z)), verify_state)
                    || self.verify_subgoal(&AtomicFact::InFact(e.duplicate(), Obj::StandardSet(StandardSet::N)), verify_state)) {
                    Some(BuiltinRule::NPosFromPositiveInteger)
                } else {
                    None
                }
            },
            StandardSet::QPos | StandardSet::RPos => {
                let base = if matches!(set, StandardSet::QPos) {
                    StandardSet::Q
                } else {
                    StandardSet::R
                };
                let literal = match e {
                    Obj::Number(_) => true,
                    _ => false,
                };
                if !literal && self.verify_subgoal(&AtomicFact::LessFact(zero_obj(), e.duplicate()), verify_state)
                    && self.verify_subgoal(&AtomicFact::InFact(e.duplicate(), Obj::StandardSet(base)), verify_state) {
                    Some(BuiltinRule::PositiveFromBaseSet)
                } else {
                    None
                }
            },
            StandardSet::Z => {
                if self.verify_in_fact_arithmetic_expression_in_z(e, verify_state) {
                    Some(BuiltinRule::ArithmeticInZ)
                } else {
                    None
                }
            },
            StandardSet::Q => {
                if self.verify_in_fact_arithmetic_expression_in_q(e, verify_state) {
                    Some(BuiltinRule::ArithmeticInQ)
                } else {
                    None
                }
            },
            StandardSet::RNeg | StandardSet::QNeg | StandardSet::ZNeg => {
                match e {
                    Obj::Mul(a, b) => {
                        let base = if matches!(set, StandardSet::QNeg) {
                            StandardSet::Q
                        } else {
                            StandardSet::Z
                        };
                        if self.verify_in_set_subgoal(e, StandardSet::R, verify_state)
                            && ((self.verify_negative_subgoal(a, verify_state) && self.verify_positive_subgoal(b, verify_state))
                            || (self.verify_negative_subgoal(b, verify_state) && self.verify_positive_subgoal(a, verify_state)))
                            && (matches!(set, StandardSet::RNeg) || self.verify_in_set_subgoal(e, base, verify_state)) {
                            Some(BuiltinRule::MulOppositeSignsInNegativeSet)
                        } else {
                            None
                        }
                    },
                    _ => None,
                }
            },
            StandardSet::R => {
                if obj_is_real_arithmetic(e) {
                    Some(BuiltinRule::ArithmeticInR)
                } else {
                    None
                }
            },
            _ => None,
        }
    }
}

} // verus!
