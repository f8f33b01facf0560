//! The order of the algebraic rules: which rule is tried first, and where
//! a rule that claims the shape of a fact ends the search.
use vstd::prelude::*;
use crate::obj::{Obj, objs_equal};
use crate::fact::AtomicFact;
use crate::runtime::{Runtime, BuiltinRule, VerifyState};
use crate::builtin::algebra_rule;
use crate::order_normalize::normalize_positive_order_atomic_fact;
use crate::order_algebra::{
    strict_pow_rules, strict_sum_rules, strict_product_rules, weak_pow_rules, weak_sum_rules, weak_product_rules,
    obj_is_positive_integer_number, obj_is_nonnegative_integer_number,
};

verus! {

impl Runtime {
    /// The first strict rules: powers with a common exponent.
    pub fn try_less_pow_rules(&self, left: &Obj, right: &Obj, verify_state: &VerifyState) -> (r: Option<BuiltinRule>)
        ensures
            r == strict_pow_rules(self, left@, right@, verify_state.subgoal_depth as nat),
        decreases verify_state.subgoal_depth, 2nat,
    {
        if self.try_pow_same_positive_integer_exponent_nonnegative_base(left, right, true, verify_state) {
            return Some(BuiltinRule::PowMonotoneNonnegativeBase);
        }
        if self.try_pow_same_positive_odd_integer_exponent(left, right, true, verify_state) {
            return Some(BuiltinRule::PowMonotoneOddExponent);
        }
        if self.try_pow_even_exponent_from_abs(left, right, true, verify_state) {
            return Some(BuiltinRule::PowEvenExponentFromAbs);
        }
        None
    }

    /// The next strict rules: sums, differences and absolute values.
    pub fn try_less_sum_rules(&self, left: &Obj, right: &Obj, verify_state: &VerifyState) -> (r: Option<BuiltinRule>)
        ensures
            r == strict_sum_rules(self, left@, right@, verify_state.subgoal_depth as nat),
        decreases verify_state.subgoal_depth, 2nat,
    {
        if self.try_add_common_term(left, right, true, verify_state) {
            return Some(BuiltinRule::AlgebraAddCommonTerm);
        }
        if self.try_sub_componentwise_strict(left, right, verify_state) {
            return Some(BuiltinRule::AlgebraSubComponentwise);
        }
        if self.try_abs_sub_positive_integer(left, right, verify_state) {
            return Some(BuiltinRule::AbsOfSubtractedPositiveInteger);
        }
        if self.try_subtract_nonnegative(left, right, true, verify_state) {
            return Some(BuiltinRule::AlgebraSubtractNonnegative);
        }
        if self.try_subtract_positive(left, right, verify_state) {
            return Some(BuiltinRule::AlgebraSubtractPositive);
        }
        if self.try_move_left_subtractor(left, right, true, verify_state) {
            return Some(BuiltinRule::AlgebraMoveLeftSubtractor);
        }
        if self.try_self_plus(left, right, true, verify_state) {
            return Some(BuiltinRule::AlgebraSelfPlusNonnegative);
        }
        if self.try_add_nonnegative(left, right, true, verify_state) {
            return Some(BuiltinRule::AlgebraAddNonnegative);
        }
        if self.try_move_right_subtractor(left, right, true, verify_state) {
            return Some(BuiltinRule::AlgebraMoveRightSubtractor);
        }
        if let Obj::Sub(x, nn) = left {
            if objs_equal(x, right) && obj_is_positive_integer_number(nn) {
                return Some(BuiltinRule::SubtractIntegerLiteral);
            }
        }
        None
    }

    /// The last strict rules: quotients, products and componentwise sums.
    pub fn try_less_product_rules(&self, left: &Obj, right: &Obj, verify_state: &VerifyState) -> (r: Option<BuiltinRule>)
        ensures
            r == strict_product_rules(self, left@, right@, verify_state.subgoal_depth as nat),
        decreases verify_state.subgoal_depth, 2nat,
    {
        if let Obj::Div(a, _) = left {
            if objs_equal(a, right) {
                if self.try_div_by_greater_than_one(left, right, verify_state) {
                    return Some(BuiltinRule::DivByGreaterThanOne);
                }
                return None;
            }
        }
        if self.try_mul_negative_by_signs(left, right, true, verify_state) {
            return Some(BuiltinRule::MulNegativeBySigns);
        }
        if self.try_mul_positive_by_signs(left, right, true, verify_state) {
            return Some(BuiltinRule::MulPositiveBySigns);
        }
        if let Obj::Mul(_, m) = right {
            if objs_equal(m, left) {
                if self.try_self_times_greater_than_one(left, right, true, verify_state) {
                    return Some(BuiltinRule::SelfTimesGreaterThanOne);
                }
                return None;
            }
        }
        let shared = self.try_mul_shared_factor(left, right, true, verify_state);
        if shared.is_some() {
            return shared;
        }
        if self.try_add_componentwise_strict(left, right, verify_state) {
            return Some(BuiltinRule::AddComponentwise);
        }
        self.try_div_same_denominator(left, right, true, verify_state)
    }

    /// The first weak rules: powers with a common exponent.
    pub fn try_less_equal_pow_rules(&self, left: &Obj, right: &Obj, verify_state: &VerifyState) -> (r: Option<BuiltinRule>)
        ensures
            r == weak_pow_rules(self, left@, right@, verify_state.subgoal_depth as nat),
        decreases verify_state.subgoal_depth, 2nat,
    {
        if self.try_pow_same_positive_integer_exponent_nonnegative_base(left, right, false, verify_state) {
            return Some(BuiltinRule::PowMonotoneNonnegativeBase);
        }
        if self.try_pow_same_positive_odd_integer_exponent(left, right, false, verify_state) {
            return Some(BuiltinRule::PowMonotoneOddExponent);
        }
        if self.try_pow_even_exponent_from_abs(left, right, false, verify_state) {
            return Some(BuiltinRule::PowEvenExponentFromAbs);
        }
        None
    }

    /// The next weak rules: sums and differences.
    pub fn try_less_equal_sum_rules(&self, left: &Obj, right: &Obj, verify_state: &VerifyState) -> (r: Option<BuiltinRule>)
        ensures
            r == weak_sum_rules(self, left@, right@, verify_state.subgoal_depth as nat),
        decreases verify_state.subgoal_depth, 2nat,
    {
        if self.try_add_common_term(left, right, false, verify_state) {
            return Some(BuiltinRule::AlgebraAddCommonTerm);
        }
        if self.try_subtract_nonnegative(left, right, false, verify_state) {
            return Some(BuiltinRule::AlgebraSubtractNonnegative);
        }
        if self.try_move_left_subtractor(left, right, false, verify_state) {
            return Some(BuiltinRule::AlgebraMoveLeftSubtractor);
        }
        if self.try_self_plus(left, right, false, verify_state) {
            return Some(BuiltinRule::AlgebraSelfPlusNonnegative);
        }
        if self.try_add_nonnegative(left, right, false, verify_state) {
            return Some(BuiltinRule::AlgebraAddNonnegative);
        }
        if self.try_move_right_subtractor(left, right, false, verify_state) {
            return Some(BuiltinRule::AlgebraMoveRightSubtractor);
        }
        if self.try_move_right_integer_subtractor(left, right, verify_state) {
            return Some(BuiltinRule::MoveRightIntegerSubtractor);
        }
        if let Obj::Sub(x, nn) = left {
            if objs_equal(x, right) && obj_is_nonnegative_integer_number(nn) {
                return Some(BuiltinRule::SubtractIntegerLiteral);
            }
        }
        None
    }

    /// The last weak rules: products, componentwise sums and differences, and quotients.
    pub fn try_less_equal_product_rules(&self, left: &Obj, right: &Obj, verify_state: &VerifyState) -> (r: Option<BuiltinRule>)
        ensures
            r == weak_product_rules(self, left@, right@, verify_state.subgoal_depth as nat),
        decreases verify_state.subgoal_depth, 2nat,
    {
        if self.try_mul_negative_by_signs(left, right, false, verify_state) {
            return Some(BuiltinRule::MulNegativeBySigns);
        }
        if self.try_mul_positive_by_signs(left, right, false, verify_state) {
            return Some(BuiltinRule::MulPositiveBySigns);
        }
        if let Obj::Mul(_, m) = right {
            if objs_equal(m, left) {
                if self.try_self_times_greater_than_one(left, right, false, verify_state) {
                    return Some(BuiltinRule::SelfTimesGreaterThanOne);
                }
                return None;
            }
        }
        if self.try_mul_le_componentwise_nonnegative_factors(left, right, verify_state) {
            return Some(BuiltinRule::MulComponentwiseNonnegative);
        }
        let shared = self.try_mul_shared_factor(left, right, false, verify_state);
        if shared.is_some() {
            return shared;
        }
        if let (Obj::Add(_, _), Obj::Add(_, _)) = (left, right) {
            if self.try_add_componentwise_weak(left, right, verify_state) {
                return Some(BuiltinRule::AddComponentwise);
            }
            return None;
        }
        if let (Obj::Sub(_, _), Obj::Sub(_, _)) = (left, right) {
            if self.try_sub_componentwise_weak(left, right, verify_state) {
                return Some(BuiltinRule::AlgebraSubComponentwise);
            }
            return None;
        }
        self.try_div_same_denominator(left, right, false, verify_state)
    }

    /// The algebraic rules for `left < right`, in the order they are tried.
    pub fn try_less_algebra(&self, left: &Obj, right: &Obj, verify_state: &VerifyState) -> (r: Option<BuiltinRule>)
        ensures
            r == (if strict_pow_rules(self, left@, right@, verify_state.subgoal_depth as nat) is Some {
                strict_pow_rules(self, left@, right@, verify_state.subgoal_depth as nat)
            } else if strict_sum_rules(self, left@, right@, verify_state.subgoal_depth as nat) is Some {
                strict_sum_rules(self, left@, right@, verify_state.subgoal_depth as nat)
            } else {
                strict_product_rules(self, left@, right@, verify_state.subgoal_depth as nat)
            }),
        decreases verify_state.subgoal_depth, 3nat,
    {
        let pow = self.try_less_pow_rules(left, right, verify_state);
        if pow.is_some() {
            return pow;
        }
        let sum = self.try_less_sum_rules(left, right, verify_state);
        if sum.is_some() {
            return sum;
        }
        self.try_less_product_rules(left, right, verify_state)
    }

    /// The algebraic rules for `left <= right`, in the order they are tried.
    pub fn try_less_equal_algebra(&self, left: &Obj, right: &Obj, verify_state: &VerifyState) -> (r: Option<BuiltinRule>)
        ensures
            r == (if weak_pow_rules(self, left@, right@, verify_state.subgoal_depth as nat) is Some {
                weak_pow_rules(self, left@, right@, verify_state.subgoal_depth as nat)
            } else if weak_sum_rules(self, left@, right@, verify_state.subgoal_depth as nat) is Some {
                weak_sum_rules(self, left@, right@, verify_state.subgoal_depth as nat)
            } else {
                weak_product_rules(self, left@, right@, verify_state.subgoal_depth as nat)
            }),
        decreases verify_state.subgoal_depth, 3nat,
    {
        let pow = self.try_less_equal_pow_rules(left, right, verify_state);
        if pow.is_some() {
            return pow;
        }
        let sum = self.try_less_equal_sum_rules(left, right, verify_state);
        if sum.is_some() {
            return sum;
        }
        self.try_less_equal_product_rules(left, right, verify_state)
    }

    /// The algebraic rules, after normalizing the order fact to `<=` or `<`.
    pub fn verify_order_algebra_structural_builtin_rule(&self, atomic_fact: &AtomicFact, verify_state: &VerifyState) -> (r: Option<BuiltinRule>)
        ensures
            r == algebra_rule(self, atomic_fact@, verify_state.subgoal_depth as nat),
        decreases verify_state.subgoal_depth, 4nat,
    {
        match normalize_positive_order_atomic_fact(atomic_fact) {
            Some(AtomicFact::LessEqualFact(l, r)) => self.try_less_equal_algebra(&l, &r, verify_state),
            Some(AtomicFact::LessFact(l, r)) => self.try_less_algebra(&l, &r, verify_state),
            _ => None,
        }
    }
}

} // verus!
