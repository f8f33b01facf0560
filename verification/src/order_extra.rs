//! Further order rules: a lower bound of one for a nonzero natural number,
//! monotonicity of square roots, and the sign of products and quotients.
use vstd::prelude::*;
use crate::obj::{Obj, ObjV, StandardSet, objs_equal};
use crate::fact::{AtomicFact, AtomicFactV};
use crate::runtime::{Runtime, BuiltinRule, VerifyState, is_known};
use crate::abs_order::{order_fact_v, abs_order_subgoal};
use crate::order_normalize::{normalized_order, normalize_positive_order_atomic_fact};
use crate::builtin::{order_result, subgoal_holds, order_subgoal, zero_v, zero_obj, resolves_to_one, obj_resolves_to_one};
use crate::decimal::{
    NumberCompareResult, all_zero, parse_parts, digits_value, decimal_sign, normalized_decimal_string_is_even_integer,
    normalized_decimal_string_is_integer, compare_normalized_number_str_to_zero,
};

verus! {

/// `n >= 1` or `1 <= n` from `n` in `N` as a subgoal and a known `n != 0`.
#[verifier::opaque]
pub open spec fn one_le_from_n_nonzero(rt: &Runtime, f: AtomicFactV, d: nat) -> bool
    decreases d, 1nat,
{
    let n = match f {
        AtomicFactV::GreaterEqualFact(l, r) => if resolves_to_one(r) {
            Some(l)
        } else {
            None
        },
        AtomicFactV::LessEqualFact(l, r) => if resolves_to_one(l) {
            Some(r)
        } else {
            None
        },
        _ => None,
    };
    n matches Some(x) && subgoal_holds(rt, AtomicFactV::InFact(x, ObjV::StandardSet(StandardSet::N)), d)
        && is_known(rt, AtomicFactV::NotEqualFact(x, zero_v()))
}

/// The `n` of `n >= 1` or `1 <= n`.
pub open spec fn one_le_subject(f: AtomicFactV) -> Option<ObjV> {
    match f {
        AtomicFactV::GreaterEqualFact(l, r) => if resolves_to_one(r) {
            Some(l)
        } else {
            None
        },
        AtomicFactV::LessEqualFact(l, r) => if resolves_to_one(l) {
            Some(r)
        } else {
            None
        },
        _ => None,
    }
}

/// `n >= 1` or `1 <= n` from `n` in `Z` and `0 < n`, both as subgoals.
#[verifier::opaque]
pub open spec fn one_le_from_z_positive(rt: &Runtime, f: AtomicFactV, d: nat) -> bool
    decreases d, 1nat,
{
    one_le_subject(f) matches Some(x) && subgoal_holds(rt, AtomicFactV::InFact(x, ObjV::StandardSet(StandardSet::Z)), d)
        && subgoal_holds(rt, AtomicFactV::LessFact(zero_v(), x), d)
}

/// A literal that denotes an integer.
pub open spec fn integer_literal(o: ObjV) -> bool {
    o matches ObjV::Number(n) && all_zero(parse_parts(n).2)
}

/// A literal that denotes an even integer.
pub open spec fn even_integer_literal(o: ObjV) -> bool {
    o matches ObjV::Number(n) && all_zero(parse_parts(n).2) && digits_value(parse_parts(n).1) % 2 == 0
}

/// The sign of the base that `0 <= a^n` asks for an integer literal `n`:
/// `0 < a` where `n` is negative, `0 <= a` otherwise.
pub open spec fn integer_exponent_base_sign(rt: &Runtime, a: ObjV, n: ObjV, d: nat) -> bool
    decreases d, 1nat,
{
    if n matches ObjV::Number(s) && decimal_sign(s) == NumberCompareResult::Less {
        order_subgoal(rt, AtomicFactV::LessFact(zero_v(), a), d)
    } else {
        order_subgoal(rt, AtomicFactV::LessEqualFact(zero_v(), a), d)
    }
}

/// The sign rules for powers: `0 <= a * a`, `0 <= a^n` for an even literal
/// `n`, `0 < a^n` for an even literal `n` from `a != 0`, `0 < a^b` and
/// `0 <= a^b` from `0 < a` and `b` in `R`, `0 <= a^b` from `0 <= a` and `b`
/// in `N_pos`, and `0 <= a^n` for an integer literal `n` from `0 <= a`
/// (from `0 < a` where `n` is negative).
#[verifier::opaque]
pub open spec fn power_sign_rule(rt: &Runtime, f: AtomicFactV, d: nat) -> Option<BuiltinRule>
    decreases d, 2nat,
{
    match normalized_order(f) {
        Some(AtomicFactV::LessEqualFact(z, e)) => if z != zero_v() {
            None
        } else if (e matches ObjV::Mul(x, y) && *x == *y) || (e matches ObjV::Pow(_, n) && even_integer_literal(*n)) {
            Some(BuiltinRule::ZeroLeEvenPower)
        } else {
            match e {
                ObjV::Pow(a, b) => if order_subgoal(rt, AtomicFactV::LessFact(zero_v(), *a), d)
                    && subgoal_holds(rt, AtomicFactV::InFact(*b, ObjV::StandardSet(StandardSet::R)), d) {
                    Some(BuiltinRule::ZeroLePowerFromPositiveBase)
                } else if order_subgoal(rt, AtomicFactV::LessEqualFact(zero_v(), *a), d)
                    && subgoal_holds(rt, AtomicFactV::InFact(*b, ObjV::StandardSet(StandardSet::NPos)), d) {
                    Some(BuiltinRule::ZeroLePowerFromNonnegativeBasePositiveExponent)
                } else if integer_literal(*b) && integer_exponent_base_sign(rt, *a, *b, d) {
                    Some(BuiltinRule::ZeroLePowerWithIntegerExponent)
                } else {
                    None
                },
                _ => None,
            }
        },
        Some(AtomicFactV::LessFact(z, e)) => if z != zero_v() {
            None
        } else {
            match e {
                ObjV::Pow(a, b) => if even_integer_literal(*b)
                    && subgoal_holds(rt, AtomicFactV::NotEqualFact(*a, zero_v()), d) {
                    Some(BuiltinRule::ZeroLtEvenPowerFromNonzeroBase)
                } else if order_subgoal(rt, AtomicFactV::LessFact(zero_v(), *a), d)
                    && subgoal_holds(rt, AtomicFactV::InFact(*b, ObjV::StandardSet(StandardSet::R)), d) {
                    Some(BuiltinRule::ZeroLtPowerFromPositiveBase)
                } else {
                    None
                },
                _ => None,
            }
        },
        _ => None,
    }
}

/// `sqrt(a) <= sqrt(b)` from `0 <= a`, `0 <= b` and `a <= b` as subgoals
/// (and the strict form from `a < b`).
#[verifier::opaque]
pub open spec fn sqrt_monotone(rt: &Runtime, f: AtomicFactV, d: nat) -> bool
    decreases d, 1nat,
{
    let sides = match normalized_order(f) {
        Some(AtomicFactV::LessEqualFact(l, r)) => Some((l, r, false)),
        Some(AtomicFactV::LessFact(l, r)) => Some((l, r, true)),
        _ => None,
    };
    sides matches Some((l, r, strict)) && l matches ObjV::Sqrt(a) && r matches ObjV::Sqrt(b)
        && subgoal_holds(rt, AtomicFactV::LessEqualFact(zero_v(), *a), d)
        && subgoal_holds(rt, AtomicFactV::LessEqualFact(zero_v(), *b), d)
        && subgoal_holds(rt, order_fact_v(*a, *b, strict), d)
}

/// `0 <= a * b` from `0 <= a` and `0 <= b`, `0 < a * b` from `0 < a` and
/// `0 < b`, `0 <= a / b` from `0 <= a` and `0 < b`, and `0 < a / b` from
/// `0 < a` and `0 < b`.
#[verifier::opaque]
pub open spec fn zero_product_rule(rt: &Runtime, f: AtomicFactV, d: nat) -> Option<BuiltinRule>
    decreases d, 1nat,
{
    match normalized_order(f) {
        Some(AtomicFactV::LessEqualFact(z, e)) => if z != zero_v() {
            None
        } else {
            match e {
                ObjV::Mul(a, b) => if order_subgoal(rt, AtomicFactV::LessEqualFact(zero_v(), *a), d)
                    && order_subgoal(rt, AtomicFactV::LessEqualFact(zero_v(), *b), d) {
                    Some(BuiltinRule::ZeroLeMul)
                } else {
                    None
                },
                ObjV::Div(a, b) => if order_subgoal(rt, AtomicFactV::LessEqualFact(zero_v(), *a), d)
                    && order_subgoal(rt, AtomicFactV::LessFact(zero_v(), *b), d) {
                    Some(BuiltinRule::ZeroLeDiv)
                } else {
                    None
                },
                _ => None,
            }
        },
        Some(AtomicFactV::LessFact(z, e)) => if z != zero_v() {
            None
        } else {
            match e {
                ObjV::Mul(a, b) => if order_subgoal(rt, AtomicFactV::LessFact(zero_v(), *a), d)
                    && order_subgoal(rt, AtomicFactV::LessFact(zero_v(), *b), d) {
                    Some(BuiltinRule::ZeroLtMul)
                } else {
                    None
                },
                ObjV::Div(a, b) => if order_subgoal(rt, AtomicFactV::LessFact(zero_v(), *a), d)
                    && order_subgoal(rt, AtomicFactV::LessFact(zero_v(), *b), d) {
                    Some(BuiltinRule::ZeroLtDiv)
                } else {
                    None
                },
                _ => None,
            }
        },
        _ => None,
    }
}

/// Whether the object is a literal that denotes an integer.
pub fn obj_is_integer_literal(o: &Obj) -> (r: bool)
    ensures
        r == integer_literal(o@),
{
    match o {
        Obj::Number(s) => normalized_decimal_string_is_integer(s.as_str()),
        _ => false,
    }
}

/// Whether the object is a literal that denotes an even integer.
pub fn obj_is_even_integer_literal(o: &Obj) -> (r: bool)
    ensures
        r == even_integer_literal(o@),
{
    match o {
        Obj::Number(s) => normalized_decimal_string_is_even_integer(s.as_str()),
        _ => false,
    }
}

impl Runtime {
    /// `n >= 1` or `1 <= n` from `n $in N` and a known `n != 0`.
    pub fn try_verify_order_one_le_from_membership_in_n_and_nonzero(&self, atomic_fact: &AtomicFact, verify_state: &VerifyState) -> (r: bool)
        ensures
            r == one_le_from_n_nonzero(self, atomic_fact@, verify_state.subgoal_depth as nat),
        decreases verify_state.subgoal_depth, 1nat,
    {
        proof {
            reveal(one_le_from_n_nonzero);
        }
        let n = match atomic_fact {
            AtomicFact::GreaterEqualFact(l, r) => {
                if !obj_resolves_to_one(r) {
                    return false;
                }
                l
            },
            AtomicFact::LessEqualFact(l, r) => {
                if !obj_resolves_to_one(l) {
                    return false;
                }
                r
            },
            _ => return false,
        };
        let in_n = AtomicFact::InFact(n.duplicate(), Obj::StandardSet(StandardSet::N));
        if !self.verify_subgoal(&in_n, verify_state) {
            return false;
        }
        let nonzero = AtomicFact::NotEqualFact(n.duplicate(), zero_obj());
        self.fact_is_known(&nonzero)
    }

    /// `n >= 1` or `1 <= n` from `n $in Z` and `0 < n`.
    pub fn try_verify_order_one_le_from_membership_in_z_and_positive(&self, atomic_fact: &AtomicFact, verify_state: &VerifyState) -> (r: bool)
        ensures
            r == one_le_from_z_positive(self, atomic_fact@, verify_state.subgoal_depth as nat),
        decreases verify_state.subgoal_depth, 2nat,
    {
        proof {
            reveal(one_le_from_z_positive);
        }
        let n = match atomic_fact {
            AtomicFact::GreaterEqualFact(l, r) => {
                if !obj_resolves_to_one(r) {
                    return false;
                }
                l
            },
            AtomicFact::LessEqualFact(l, r) => {
                if !obj_resolves_to_one(l) {
                    return false;
                }
                r
            },
            _ => return false,
        };
        let in_z = AtomicFact::InFact(n.duplicate(), Obj::StandardSet(StandardSet::Z));
        if !self.verify_subgoal(&in_z, verify_state) {
            return false;
        }
        self.verify_subgoal(&AtomicFact::LessFact(zero_obj(), n.duplicate()), verify_state)
    }

    /// The base sign that `0 <= a^n` asks for an integer literal `n`.
    pub fn verify_integer_exponent_base_sign(&self, base: &Obj, exponent: &Obj, verify_state: &VerifyState) -> (r: bool)
        ensures
            r == integer_exponent_base_sign(self, base@, exponent@, verify_state.subgoal_depth as nat),
        decreases verify_state.subgoal_depth, 1nat,
    {
        let negative = match exponent {
            Obj::Number(s) => matches!(compare_normalized_number_str_to_zero(s.as_str()), NumberCompareResult::Less),
            _ => false,
        };
        if negative {
            self.verify_order_subgoal(&AtomicFact::LessFact(zero_obj(), base.duplicate()), verify_state)
        } else {
            self.verify_order_subgoal(&AtomicFact::LessEqualFact(zero_obj(), base.duplicate()), verify_state)
        }
    }

    /// The sign rules for powers (and for `a * a`).
    pub fn verify_power_sign_builtin_rule(&self, atomic_fact: &AtomicFact, verify_state: &VerifyState) -> (r: Option<BuiltinRule>)
        ensures
            r == power_sign_rule(self, atomic_fact@, verify_state.subgoal_depth as nat),
        decreases verify_state.subgoal_depth, 3nat,
    {
        proof {
            reveal(power_sign_rule);
        }
        let (z, e, strict) = match normalize_positive_order_atomic_fact(atomic_fact) {
            Some(AtomicFact::LessEqualFact(z, e)) => (z, e, false),
            Some(AtomicFact::LessFact(z, e)) => (z, e, true),
            _ => return None,
        };
        if !objs_equal(&z, &zero_obj()) {
            return None;
        }
        if !strict {
            let even = match &e {
                Obj::Mul(x, y) => objs_equal(x, y),
                Obj::Pow(_, n) => obj_is_even_integer_literal(n),
                _ => false,
            };
            if even {
                return Some(BuiltinRule::ZeroLeEvenPower);
            }
            match &e {
                Obj::Pow(a, b) => {
                    if self.verify_order_subgoal(&AtomicFact::LessFact(zero_obj(), a.duplicate()), verify_state)
                        && self.verify_subgoal(&AtomicFact::InFact(b.duplicate(), Obj::StandardSet(StandardSet::R)), verify_state) {
                        Some(BuiltinRule::ZeroLePowerFromPositiveBase)
                    } else if self.verify_order_subgoal(&AtomicFact::LessEqualFact(zero_obj(), a.duplicate()), verify_state)
                        && self.verify_subgoal(&AtomicFact::InFact(b.duplicate(), Obj::StandardSet(StandardSet::NPos)), verify_state) {
                        Some(BuiltinRule::ZeroLePowerFromNonnegativeBasePositiveExponent)
                    } else if obj_is_integer_literal(b) && self.verify_integer_exponent_base_sign(a, b, verify_state) {
                        Some(BuiltinRule::ZeroLePowerWithIntegerExponent)
                    } else {
                        None
                    }
                },
                _ => None,
            }
        } else {
            match &e {
                Obj::Pow(a, b) => {
                    if obj_is_even_integer_literal(b)
                        && self.verify_subgoal(&AtomicFact::NotEqualFact(a.duplicate(), zero_obj()), verify_state) {
                        Some(BuiltinRule::ZeroLtEvenPowerFromNonzeroBase)
                    } else if self.verify_order_subgoal(&AtomicFact::LessFact(zero_obj(), a.duplicate()), verify_state)
                        && self.verify_subgoal(&AtomicFact::InFact(b.duplicate(), Obj::StandardSet(StandardSet::R)), verify_state) {
                        Some(BuiltinRule::ZeroLtPowerFromPositiveBase)
                    } else {
                        None
                    }
                },
                _ => None,
            }
        }
    }

    /// `sqrt(a) <= sqrt(b)` (or `<`) from the arguments' signs and order.
    pub fn verify_sqrt_monotonicity_builtin_rule(&self, atomic_fact: &AtomicFact, verify_state: &VerifyState) -> (r: bool)
        ensures
            r == sqrt_monotone(self, atomic_fact@, verify_state.subgoal_depth as nat),
        decreases verify_state.subgoal_depth, 2nat,
    {
        proof {
            reveal(sqrt_monotone);
        }
        let (l, r, strict) = match normalize_positive_order_atomic_fact(atomic_fact) {
            Some(AtomicFact::LessEqualFact(l, r)) => (l, r, false),
            Some(AtomicFact::LessFact(l, r)) => (l, r, true),
            _ => return false,
        };
        self.try_verify_sqrt_monotonicity(&l, &r, strict, verify_state)
    }

    /// `sqrt(a) <= sqrt(b)` from `0 <= a`, `0 <= b` and `a <= b` (or the strict form).
    pub fn try_verify_sqrt_monotonicity(&self, left: &Obj, right: &Obj, strict: bool, verify_state: &VerifyState) -> (r: bool)
        ensures
            r == (left@ matches ObjV::Sqrt(a) && right@ matches ObjV::Sqrt(b)
                && subgoal_holds(self, AtomicFactV::LessEqualFact(zero_v(), *a), verify_state.subgoal_depth as nat)
                && subgoal_holds(self, AtomicFactV::LessEqualFact(zero_v(), *b), verify_state.subgoal_depth as nat)
                && subgoal_holds(self, order_fact_v(*a, *b, strict), verify_state.subgoal_depth as nat)),
        decreases verify_state.subgoal_depth, 1nat,
    {
        match (left, right) {
            (Obj::Sqrt(a), Obj::Sqrt(b)) => {
                self.verify_subgoal(&AtomicFact::LessEqualFact(zero_obj(), a.duplicate()), verify_state)
                    && self.verify_subgoal(&AtomicFact::LessEqualFact(zero_obj(), b.duplicate()), verify_state)
                    && self.verify_subgoal(&abs_order_subgoal(a.duplicate(), b.duplicate(), strict), verify_state)
            },
            _ => false,
        }
    }

    /// The sign of a product or quotient from the signs of its operands.
    pub fn verify_zero_order_on_product_builtin_rule(&self, atomic_fact: &AtomicFact, verify_state: &VerifyState) -> (r: Option<BuiltinRule>)
        ensures
            r == zero_product_rule(self, atomic_fact@, verify_state.subgoal_depth as nat),
        decreases verify_state.subgoal_depth, 1nat,
    {
        proof {
            reveal(zero_product_rule);
        }
        let (z, e, strict) = match normalize_positive_order_atomic_fact(atomic_fact) {
            Some(AtomicFact::LessEqualFact(z, e)) => (z, e, false),
            Some(AtomicFact::LessFact(z, e)) => (z, e, true),
            _ => return None,
        };
        if !objs_equal(&z, &zero_obj()) {
            return None;
        }
        match &e {
            Obj::Mul(a, b) => {
                if self.verify_order_subgoal(&abs_order_subgoal(zero_obj(), a.duplicate(), strict), verify_state)
                    && self.verify_order_subgoal(&abs_order_subgoal(zero_obj(), b.duplicate(), strict), verify_state) {
                    if strict {
                        Some(BuiltinRule::ZeroLtMul)
                    } else {
                        Some(BuiltinRule::ZeroLeMul)
                    }
                } else {
                    None
                }
            },
            Obj::Div(a, b) => {
                if self.verify_order_subgoal(&abs_order_subgoal(zero_obj(), a.duplicate(), strict), verify_state)
                    && self.verify_order_subgoal(&AtomicFact::LessFact(zero_obj(), b.duplicate()), verify_state) {
                    if strict {
                        Some(BuiltinRule::ZeroLtDiv)
                    } else {
                        Some(BuiltinRule::ZeroLeDiv)
                    }
                } else {
                    None
                }
            },
            _ => None,
        }
    }
}

/// `0 <= abs(x)`, `0 <= x^n` and `x^n >= 0` for an even integer literal `n`,
/// and `0 <= x * x` hold by the numeric rules in every state.
pub proof fn law_nonnegative_abs_even_power_and_square(rt: &Runtime, x: ObjV, n: ObjV, d: nat)
    requires
        even_integer_literal(n),
    ensures
        order_result(rt, AtomicFactV::LessEqualFact(zero_v(), ObjV::Abs(Box::new(x))), d).spec_is_true(),
        order_result(rt, AtomicFactV::LessEqualFact(zero_v(), ObjV::Pow(Box::new(x), Box::new(n))), d).spec_is_true(),
        order_result(rt, AtomicFactV::GreaterEqualFact(ObjV::Pow(Box::new(x), Box::new(n)), zero_v()), d).spec_is_true(),
        order_result(rt, AtomicFactV::LessEqualFact(zero_v(), ObjV::Mul(Box::new(x), Box::new(x))), d).spec_is_true(),
{
    reveal(power_sign_rule);
}

} // verus!
