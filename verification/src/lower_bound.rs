//! Integer lower bounds read off the known facts: from a known `b < x` or
//! `b <= x` with an integer literal `b`, a weaker bound on `x` follows, and
//! for an integer `x` also the successor bound `b + 1 <= x`.
use vstd::prelude::*;
use crate::obj::{Obj, ObjV, StandardSet, objs_equal};
use crate::fact::{AtomicFact, AtomicFactV};
use crate::runtime::{Runtime, Environment, BuiltinRule, VerifyState};
use crate::order_normalize::{normalized_order, normalize_positive_order_atomic_fact};
use crate::order_algebra::{int_literal_v, integer_value_of_number_obj, lemma_int_literal_in_range};
use crate::builtin::subgoal_holds;

verus! {

/// The bound that a known fact puts below `x`: `(b, true)` for `b < x` and
/// `(b, false)` for `b <= x` (in any of their written forms), where `b` is an
/// integer literal.
#[verifier::opaque]
pub open spec fn known_lower_bound(k: AtomicFactV, x: ObjV) -> Option<(int, bool)> {
    match normalized_order(k) {
        Some(AtomicFactV::LessFact(l, r)) => if r == x && int_literal_v(l) is Some {
            Some((int_literal_v(l)->Some_0, true))
        } else {
            None
        },
        Some(AtomicFactV::LessEqualFact(l, r)) => if r == x && int_literal_v(l) is Some {
            Some((int_literal_v(l)->Some_0, false))
        } else {
            None
        },
        _ => None,
    }
}

/// How a known bound `(b, strict)` serves a target bound `t`: with `mode`
/// 0, `t <= x` follows directly (`t <= b`); with 1, `t <= x` follows for an
/// integer `x` (`b < x` and `b + 1 == t`); with 2, `t < x` follows.
#[verifier::opaque]
pub open spec fn bound_serves(kb: Option<(int, bool)>, t: int, mode: nat) -> bool {
    kb matches Some((b, strict)) && if mode == 0 {
        t <= b
    } else if mode == 1 {
        strict && b + 1 == t
    } else if strict {
        t <= b
    } else {
        t < b
    }
}

/// Some known fact of the environment puts a bound below `x` that serves `t`.
#[verifier::opaque]
pub open spec fn env_has_lower_bound(env: Environment, x: ObjV, t: int, mode: nat) -> bool {
    exists|j: int| 0 <= j < env.known_atomic_facts@.len()
        && bound_serves(known_lower_bound(#[trigger] env.known_atomic_facts@[j]@, x), t, mode)
}

/// Some known fact puts a bound below `x` that serves `t`.
#[verifier::opaque]
pub open spec fn has_lower_bound(rt: &Runtime, x: ObjV, t: int, mode: nat) -> bool {
    exists|i: int| 0 <= i < rt.environment_stack@.len()
        && env_has_lower_bound(#[trigger] rt.environment_stack@[i], x, t, mode)
}

/// `t <= x` or `t < x`, for an integer literal `t`, from a known lower bound
/// on `x`: a bound at least as strong, or for `t <= x` the strict bound
/// `t - 1 < x` where `x` is in `Z` as a subgoal.
#[verifier::opaque]
pub open spec fn lower_bound_rule(rt: &Runtime, f: AtomicFactV, d: nat) -> Option<BuiltinRule>
    decreases d, 1nat,
{
    match normalized_order(f) {
        Some(AtomicFactV::LessEqualFact(l, x)) => match int_literal_v(l) {
            Some(t) => if has_lower_bound(rt, x, t, 0) {
                Some(BuiltinRule::LowerBoundFromKnownLowerBound)
            } else if has_lower_bound(rt, x, t, 1) && subgoal_holds(
                rt,
                AtomicFactV::InFact(x, ObjV::StandardSet(StandardSet::Z)),
                d,
            ) {
                Some(BuiltinRule::IntegerLowerBoundFromStrictPredecessor)
            } else {
                None
            },
            None => None,
        },
        Some(AtomicFactV::LessFact(l, x)) => match int_literal_v(l) {
            Some(t) => if has_lower_bound(rt, x, t, 2) {
                Some(BuiltinRule::LowerBoundFromKnownLowerBound)
            } else {
                None
            },
            None => None,
        },
        _ => None,
    }
}

/// The bound that a known fact puts below `x`, as in `known_lower_bound`.
pub fn known_lower_bound_value(known: &AtomicFact, x: &Obj) -> (r: Option<(i128, bool)>)
    ensures
        r matches Some((b, strict)) ==> known_lower_bound(known@, x@) == Some((b as int, strict)),
        r is None <==> known_lower_bound(known@, x@) is None,
{
    proof {
        reveal(known_lower_bound);
    }
    let (l, r, strict) = match normalize_positive_order_atomic_fact(known) {
        Some(AtomicFact::LessFact(l, r)) => (l, r, true),
        Some(AtomicFact::LessEqualFact(l, r)) => (l, r, false),
        _ => return None,
    };
    if !objs_equal(&r, x) {
        return None;
    }
    proof {
        lemma_int_literal_in_range(l@);
    }
    match integer_value_of_number_obj(&l) {
        Some(b) => Some((b, strict)),
        None => None,
    }
}

/// Whether a known bound serves the target bound, as in `bound_serves`.
pub fn known_bound_serves(kb: Option<(i128, bool)>, t: i128, mode: u8) -> (r: bool)
    ensures
        r == bound_serves(
            match kb {
                Some((b, s)) => Some((b as int, s)),
                None => None,
            },
            t as int,
            mode as nat,
        ),
{
    proof {
        reveal(bound_serves);
    }
    match kb {
        Some((b, strict)) => if mode == 0 {
            t <= b
        } else if mode == 1 {
            strict && b < i128::MAX && b + 1 == t
        } else if strict {
            t <= b
        } else {
            t < b
        },
        None => false,
    }
}

/// Whether a known fact of the environment puts a bound below `x` that serves `t`.
pub fn environment_has_lower_bound(env: &Environment, x: &Obj, t: i128, mode: u8) -> (r: bool)
    ensures
        r == env_has_lower_bound(*env, x@, t as int, mode as nat),
{
    proof {
        reveal(env_has_lower_bound);
    }
    let n = env.known_atomic_facts.len();
    let mut j: usize = 0;
    while j < n
        invariant
            n == env.known_atomic_facts@.len(),
            j <= n,
            forall|b: int|
                0 <= b < j ==> !bound_serves(known_lower_bound(#[trigger] env.known_atomic_facts@[b]@, x@), t as int, mode as nat),
        decreases n - j,
    {
        let kb = known_lower_bound_value(&env.known_atomic_facts[j], x);
        let serves = known_bound_serves(kb, t, mode);
        assert(serves == bound_serves(known_lower_bound(env.known_atomic_facts@[j as int]@, x@), t as int, mode as nat));
        if serves {
            proof {
                reveal(env_has_lower_bound);
            }
            return true;
        }
        j = j + 1;
    }
    false
}

impl Runtime {
    /// Whether some known fact puts a bound below `x` that serves `t`.
    pub fn has_known_lower_bound(&self, x: &Obj, t: i128, mode: u8) -> (r: bool)
        ensures
            r == has_lower_bound(self, x@, t as int, mode as nat),
    {
        proof {
            reveal(has_lower_bound);
        }
        let n = self.environment_stack.len();
        let mut i: usize = 0;
        while i < n
            invariant
                n == self.environment_stack@.len(),
                i <= n,
                forall|a: int| 0 <= a < i ==> !env_has_lower_bound(#[trigger] self.environment_stack@[a], x@, t as int, mode as nat),
            decreases n - i,
        {
            if environment_has_lower_bound(&self.environment_stack[i], x, t, mode) {
                proof {
                    reveal(has_lower_bound);
                }
                assert(env_has_lower_bound(self.environment_stack@[i as int], x@, t as int, mode as nat));
                return true;
            }
            i = i + 1;
        }
        false
    }

    /// `t <= x` from a known lower bound on `x`, for an integer `t`.
    pub fn verify_weak_lower_bound(&self, t: i128, x: &Obj, verify_state: &VerifyState) -> (r: Option<BuiltinRule>)
        ensures
            r == (if has_lower_bound(self, x@, t as int, 0) {
                Some(BuiltinRule::LowerBoundFromKnownLowerBound)
            } else if has_lower_bound(self, x@, t as int, 1) && subgoal_holds(
                self,
                AtomicFactV::InFact(x@, ObjV::StandardSet(StandardSet::Z)),
                verify_state.subgoal_depth as nat,
            ) {
                Some(BuiltinRule::IntegerLowerBoundFromStrictPredecessor)
            } else {
                None
            }),
        decreases verify_state.subgoal_depth, 1nat,
    {
        if self.has_known_lower_bound(x, t, 0) {
            Some(BuiltinRule::LowerBoundFromKnownLowerBound)
        } else if self.has_known_lower_bound(x, t, 1) && self.verify_subgoal(
            &AtomicFact::InFact(x.duplicate(), Obj::StandardSet(StandardSet::Z)),
            verify_state,
        ) {
            Some(BuiltinRule::IntegerLowerBoundFromStrictPredecessor)
        } else {
            None
        }
    }

    /// `t <= x` or `t < x` from a known lower bound on `x`.
    pub fn try_verify_numeric_lower_bound_from_known_lower_bound(&self, atomic_fact: &AtomicFact, verify_state: &VerifyState) -> (r: Option<BuiltinRule>)
        ensures
            r == lower_bound_rule(self, atomic_fact@, verify_state.subgoal_depth as nat),
        decreases verify_state.subgoal_depth, 2nat,
    {
        proof {
            reveal(lower_bound_rule);
        }
        let (l, x, strict) = match normalize_positive_order_atomic_fact(atomic_fact) {
            Some(AtomicFact::LessEqualFact(l, x)) => (l, x, false),
            Some(AtomicFact::LessFact(l, x)) => (l, x, true),
            _ => return None,
        };
        proof {
            lemma_int_literal_in_range(l@);
        }
        let t = match integer_value_of_number_obj(&l) {
            Some(t) => t,
            None => return None,
        };
        if strict {
            if self.has_known_lower_bound(&x, t, 2) {
                Some(BuiltinRule::LowerBoundFromKnownLowerBound)
            } else {
                None
            }
        } else {
            self.verify_weak_lower_bound(t, &x, verify_state)
        }
    }
}

} // verus!
