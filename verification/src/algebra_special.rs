//! The algebraic order rule that reads an integer off a literal: moving an
//! integer subtractor across `<=`.
use vstd::prelude::*;
use crate::obj::{Obj, ObjV, StandardSet, objs_equal};
use crate::fact::{AtomicFact, AtomicFactV};
use crate::runtime::{Runtime, VerifyState};
use crate::order_algebra::{
    int_literal_v, plus_offset, integer_value_of_number_obj, lemma_int_literal_in_range, alg_move_right_integer,
};
use crate::builtin::zero_obj;
use crate::int_literal::{i128_to_string, int_string};

verus! {

/// `obj + offset`, as one literal when `obj` is an integer literal and the
/// sum fits, and `obj` itself for a zero offset.
pub fn obj_plus_nonnegative_integer_offset(obj: &Obj, offset: i128) -> (r: Obj)
    requires
        offset >= 0,
    ensures
        r@ == plus_offset(obj@, offset as int),
{
    if offset == 0 {
        return obj.duplicate();
    }
    proof {
        lemma_int_literal_in_range(obj@);
    }
    let base_opt = integer_value_of_number_obj(obj);
    match base_opt {
        Some(base) => {
            assert(int_literal_v(obj@) == Some(base as int));
            if base > i128::MAX - offset {
                assert(!(i128::MIN <= base as int + offset as int <= i128::MAX));
                let text = i128_to_string(offset);
                let num = Obj::Number(text);
                assert(num@ == ObjV::Number(int_string(offset as int)));
                let dup = obj.duplicate();
                let r = Obj::Add(Box::new(dup), Box::new(num));
                assert(r@ == ObjV::Add(Box::new(dup@), Box::new(num@)));
                r
            } else {
                let sum = base + offset;
                assert(i128::MIN <= base as int + offset as int <= i128::MAX);
                let text = i128_to_string(sum);
                assert(text@ == int_string(base as int + offset as int));
                let r = Obj::Number(text);
                assert(r@ == ObjV::Number(int_string(base as int + offset as int)));
                r
            }
        },
        None => {
            assert(int_literal_v(obj@) is None);
            let num = Obj::Number(i128_to_string(offset));
            assert(num@ == ObjV::Number(int_string(offset as int)));
            let dup = obj.duplicate();
            let r = Obj::Add(Box::new(dup), Box::new(num));
            assert(r@ == ObjV::Add(Box::new(dup@), Box::new(num@)));
            r
        },
    }
}

impl Runtime {
    /// `a <= x - n` from `a + n <= x`, for a nonnegative integer literal `n`.
    pub fn try_move_right_integer_subtractor(&self, left: &Obj, right: &Obj, verify_state: &VerifyState) -> (r: bool)
        ensures
            r == alg_move_right_integer(self, left@, right@, verify_state.subgoal_depth as nat),
        decreases verify_state.subgoal_depth, 1nat,
    {
        proof {
            reveal(alg_move_right_integer);
        }
        match right {
            Obj::Sub(x, nn) => match {
                proof {
                    lemma_int_literal_in_range(nn@);
                }
                integer_value_of_number_obj(nn)
            } {
                Some(offset) => {
                    if offset < 0 {
                        return false;
                    }
                    let shifted_left = obj_plus_nonnegative_integer_offset(left, offset);
                    self.verify_order_subgoal(&AtomicFact::LessEqualFact(shifted_left, x.duplicate()), verify_state)
                },
                None => false,
            },
            _ => false,
        }
    }
}

} // verus!
