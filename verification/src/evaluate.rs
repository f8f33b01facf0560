//! Evaluating number expressions: sums, differences and products of integer
//! literals, computed exactly in the 128-bit range, and the number literal
//! that an object stands for.
use vstd::prelude::*;
use crate::obj::{Obj, ObjV};
use crate::int_literal::{i128_literal, int_string, parse_i128_literal, i128_to_string, lemma_i128_literal_range};

verus! {

/// `v` when it fits in 128 bits.
pub open spec fn checked_value(v: int) -> Option<int> {
    if i128::MIN <= v <= i128::MAX {
        Some(v)
    } else {
        None
    }
}

/// The value of an integer expression: an integer literal, or a sum,
/// difference or product of integer expressions; `None` for anything else,
/// or when a value leaves the 128-bit range.
pub open spec fn eval_int(o: ObjV) -> Option<int>
    decreases o,
{
    match o {
        ObjV::Number(s) => i128_literal(s),
        ObjV::Add(a, b) => match (eval_int(*a), eval_int(*b)) {
            (Some(x), Some(y)) => checked_value(x + y),
            _ => None,
        },
        ObjV::Sub(a, b) => match (eval_int(*a), eval_int(*b)) {
            (Some(x), Some(y)) => checked_value(x - y),
            _ => None,
        },
        ObjV::Mul(a, b) => match (eval_int(*a), eval_int(*b)) {
            (Some(x), Some(y)) => checked_value(x * y),
            _ => None,
        },
        _ => None,
    }
}

/// The number literal an object stands for: a literal itself, or the
/// integer literal of an integer expression's value.
pub open spec fn resolved_literal(o: ObjV) -> Option<Seq<char>> {
    match o {
        ObjV::Number(s) => Some(s),
        _ => match eval_int(o) {
            Some(v) => Some(int_string(v)),
            None => None,
        },
    }
}

/// Values of integer expressions fit in 128 bits.
pub proof fn lemma_eval_int_range(o: ObjV)
    ensures
        eval_int(o) matches Some(v) ==> i128::MIN <= v <= i128::MAX,
{
    if let ObjV::Number(s) = o {
        lemma_i128_literal_range(s);
    }
}

/// The value of an integer expression, as in `eval_int`.
pub fn evaluate_integer(o: &Obj) -> (r: Option<i128>)
    ensures
        r matches Some(x) ==> eval_int(o@) == Some(x as int),
        r is None <==> eval_int(o@) is None,
    decreases o,
{
    match o {
        Obj::Number(s) => {
            proof {
                lemma_i128_literal_range(s@);
            }
            parse_i128_literal(s.as_str())
        },
        Obj::Add(a, b) => match (evaluate_integer(a), evaluate_integer(b)) {
            (Some(x), Some(y)) => x.checked_add(y),
            _ => None,
        },
        Obj::Sub(a, b) => match (evaluate_integer(a), evaluate_integer(b)) {
            (Some(x), Some(y)) => x.checked_sub(y),
            _ => None,
        },
        Obj::Mul(a, b) => match (evaluate_integer(a), evaluate_integer(b)) {
            (Some(x), Some(y)) => x.checked_mul(y),
            _ => None,
        },
        _ => None,
    }
}

/// The number literal an object stands for, as in `resolved_literal`.
pub fn resolve_number_literal(o: &Obj) -> (r: Option<String>)
    ensures
        r matches Some(t) ==> resolved_literal(o@) == Some(t@),
        r is None <==> resolved_literal(o@) is None,
{
    match o {
        Obj::Number(s) => Some(s.clone()),
        _ => match evaluate_integer(o) {
            Some(v) => Some(i128_to_string(v)),
            None => None,
        },
    }
}

} // verus!
