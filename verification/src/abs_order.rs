//! Shapes of expressions built from absolute values and negation.
use vstd::prelude::*;
use crate::obj::{Obj, ObjV, objs_equal};
use crate::fact::{AtomicFact, AtomicFactV};

verus! {

broadcast use vstd::string::group_string_axioms;

/// The literal `-1`.
pub open spec fn neg_one_v() -> ObjV {
    ObjV::Number(seq!['-', '1'])
}

/// `-1 * x`.
pub open spec fn neg_v(x: ObjV) -> ObjV {
    ObjV::Mul(Box::new(neg_one_v()), Box::new(x))
}

pub open spec fn abs_v(x: ObjV) -> ObjV {
    ObjV::Abs(Box::new(x))
}

/// `o` is `-1 * e` or `e * -1`.
pub open spec fn is_negation_of(o: ObjV, e: ObjV) -> bool {
    match o {
        ObjV::Mul(l, r) => (*l == neg_one_v() && *r == e) || (*r == neg_one_v() && *l == e),
        _ => false,
    }
}

/// `o` is `abs(x) + abs(y)` or `abs(y) + abs(x)`.
pub open spec fn is_add_of_abs_pair(o: ObjV, x: ObjV, y: ObjV) -> bool {
    match o {
        ObjV::Add(l, r) => (*l == abs_v(x) && *r == abs_v(y)) || (*l == abs_v(y) && *r == abs_v(
            x,
        )),
        _ => false,
    }
}

/// `o` is `abs(x + y)` or `abs(y + x)`.
pub open spec fn is_abs_of_add_pair(o: ObjV, x: ObjV, y: ObjV) -> bool {
    match o {
        ObjV::Abs(a) => match *a {
            ObjV::Add(l, r) => (*l == x && *r == y) || (*l == y && *r == x),
            _ => false,
        },
        _ => false,
    }
}

/// `o` is `abs(x - y)`.
pub open spec fn is_abs_of_sub_pair(o: ObjV, x: ObjV, y: ObjV) -> bool {
    match o {
        ObjV::Abs(a) => match *a {
            ObjV::Sub(l, r) => *l == x && *r == y,
            _ => false,
        },
        _ => false,
    }
}

/// What `-1 * x` or `x * -1` negates.
pub open spec fn negated_arg(o: ObjV) -> Option<ObjV> {
    match o {
        ObjV::Mul(l, r) => if *l == neg_one_v() {
            Some(*r)
        } else if *r == neg_one_v() {
            Some(*l)
        } else {
            None
        },
        _ => None,
    }
}

/// `a < b` when strict, `a <= b` otherwise.
pub open spec fn order_fact_v(a: ObjV, b: ObjV, strict: bool) -> AtomicFactV {
    if strict {
        AtomicFactV::LessFact(a, b)
    } else {
        AtomicFactV::LessEqualFact(a, b)
    }
}

/// The number literal `-1`.
pub fn literal_neg_one_obj() -> (r: Obj)
    ensures
        r@ == neg_one_v(),
{
    let lit = "-1";
    proof {
        reveal_strlit("-1");
        assert(lit@ =~= seq!['-', '1']);
    }
    Obj::Number(lit.to_string())
}

/// Whether the object is the number literal `-1`.
pub fn obj_is_literal_neg_one(obj: &Obj) -> (r: bool)
    ensures
        r == (obj@ == neg_one_v()),
{
    match obj {
        Obj::Number(n) => {
            let lit = "-1";
            proof {
                reveal_strlit("-1");
                assert(lit@ =~= seq!['-', '1']);
            }
            n.eq(&lit.to_string())
        },
        _ => false,
    }
}

/// `-1 * obj`.
pub fn neg_obj(obj: &Obj) -> (r: Obj)
    ensures
        r@ == neg_v(obj@),
{
    Obj::Mul(Box::new(literal_neg_one_obj()), Box::new(obj.duplicate()))
}

/// Whether `obj` negates `expected_arg`.
pub fn obj_is_negation_of(obj: &Obj, expected_arg: &Obj) -> (r: bool)
    ensures
        r == is_negation_of(obj@, expected_arg@),
{
    match obj {
        Obj::Mul(l, r) => (obj_is_literal_neg_one(l) && objs_equal(r, expected_arg)) || (
        obj_is_literal_neg_one(r) && objs_equal(l, expected_arg)),
        _ => false,
    }
}

/// Whether `obj` is `abs(arg)`.
pub fn obj_is_abs_of(obj: &Obj, arg: &Obj) -> (r: bool)
    ensures
        r == (obj@ == abs_v(arg@)),
{
    match obj {
        Obj::Abs(a) => objs_equal(a, arg),
        _ => false,
    }
}

/// Whether `obj` is the sum of `abs(x)` and `abs(y)`, in either order.
pub fn obj_is_add_of_abs_pair(obj: &Obj, x: &Obj, y: &Obj) -> (r: bool)
    ensures
        r == is_add_of_abs_pair(obj@, x@, y@),
{
    let Obj::Add(l, r) = obj else {
        return false;
    };
    (obj_is_abs_of(l, x) && obj_is_abs_of(r, y)) || (obj_is_abs_of(l, y) && obj_is_abs_of(r, x))
}

/// Whether `obj` is `abs(x + y)`, in either order of the summands.
pub fn obj_is_abs_of_add_pair(obj: &Obj, x: &Obj, y: &Obj) -> (r: bool)
    ensures
        r == is_abs_of_add_pair(obj@, x@, y@),
{
    let Obj::Abs(a) = obj else {
        return false;
    };
    let Obj::Add(l, r) = &**a else {
        proof {
            assert(!((**a)@ is Add));
        }
        return false;
    };
    proof {
        assert((**a)@ == ObjV::Add(Box::new(l@), Box::new(r@)));
    }
    (objs_equal(l, x) && objs_equal(r, y)) || (objs_equal(l, y) && objs_equal(r, x))
}

/// Whether `obj` is `abs(x - y)`.
pub fn obj_is_abs_of_sub_pair(obj: &Obj, x: &Obj, y: &Obj) -> (r: bool)
    ensures
        r == is_abs_of_sub_pair(obj@, x@, y@),
{
    let Obj::Abs(a) = obj else {
        return false;
    };
    let Obj::Sub(l, r) = &**a else {
        proof {
            assert(!((**a)@ is Sub));
        }
        return false;
    };
    proof {
        assert((**a)@ == ObjV::Sub(Box::new(l@), Box::new(r@)));
    }
    objs_equal(l, x) && objs_equal(r, y)
}

/// `abs(arg)`.
pub fn abs_obj(arg: Obj) -> (r: Obj)
    ensures
        r@ == abs_v(arg@),
{
    Obj::Abs(Box::new(arg))
}

/// `left < right` when strict, `left <= right` otherwise.
pub fn abs_order_subgoal(left: Obj, right: Obj, strict: bool) -> (r: AtomicFact)
    ensures
        r@ == order_fact_v(left@, right@, strict),
{
    if strict {
        AtomicFact::LessFact(left, right)
    } else {
        AtomicFact::LessEqualFact(left, right)
    }
}

/// The object that `obj` negates, when it is `-1 * x` or `x * -1`.
pub fn peel_negation(obj: &Obj) -> (r: Option<&Obj>)
    ensures
        r matches Some(x) ==> negated_arg(obj@) == Some(x@),
        r is None <==> negated_arg(obj@) is None,
{
    match obj {
        Obj::Mul(l, r) => {
            if obj_is_literal_neg_one(l) {
                Some(&**r)
            } else if obj_is_literal_neg_one(r) {
                Some(&**l)
            } else {
                None
            }
        },
        _ => None,
    }
}

/// The argument of `abs(x)`.
pub fn peel_abs(obj: &Obj) -> (r: Option<&Obj>)
    ensures
        r matches Some(x) ==> obj@ == abs_v(x@),
        r is None <==> !(obj@ is Abs),
{
    match obj {
        Obj::Abs(a) => Some(&**a),
        _ => None,
    }
}

} // verus!
