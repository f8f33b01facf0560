//! Further equality rules: the size of a Cartesian product, moving an addend
//! across a known sum, converting between a quotient and a product, and the
//! empty set from a known `not $is_nonempty_set`.
use vstd::prelude::*;
use crate::obj::{Obj, ObjV, objs_equal, lemma_view_list, view_list};
use crate::fact::{AtomicFact, AtomicFactV};
use crate::runtime::{Runtime, BuiltinRule, VerifyState, is_known};
use crate::builtin::{known_equal, subgoal_holds, zero_v, zero_obj, empty_set_v};
use crate::equality::is_empty_list_set;

verus! {

/// `count(a1) * count(a2) * ... * count(an)`, multiplied from the left.
pub open spec fn count_product(args: Seq<ObjV>) -> ObjV
    decreases args.len(),
{
    if args.len() <= 1 {
        ObjV::Count(Box::new(args[0]))
    } else {
        ObjV::Mul(Box::new(count_product(args.drop_last())), Box::new(ObjV::Count(Box::new(args.last()))))
    }
}

/// `count(cart(a1, ..., an)) = count(a1) * ... * count(an)`, with at least one factor.
pub open spec fn cart_count_product(count_side: ObjV, product_side: ObjV) -> bool {
    count_side matches ObjV::Count(c) && *c matches ObjV::Cart(args) && args.len() >= 1
        && product_side == count_product(args)
}

/// The two objects are the same, or known to be equal.
pub open spec fn same_or_known_equal(rt: &Runtime, a: ObjV, b: ObjV) -> bool {
    a == b || known_equal(rt, a, b)
}

/// `a = c - b` from a known `a + b = c` or `b + a = c`.
pub open spec fn subtraction_from_known_addition(rt: &Runtime, target: ObjV, sub_side: ObjV) -> bool {
    sub_side matches ObjV::Sub(c, b) && (same_or_known_equal(rt, ObjV::Add(Box::new(target), b), *c)
        || same_or_known_equal(rt, ObjV::Add(b, Box::new(target)), *c))
}

/// The equality rules tried right after the set identities: the size of a
/// Cartesian product, and an addend moved across a known sum.
pub open spec fn equality_count_and_sum_rule(rt: &Runtime, l: ObjV, r: ObjV) -> Option<BuiltinRule> {
    if cart_count_product(l, r) || cart_count_product(r, l) {
        Some(BuiltinRule::CartCountProduct)
    } else if subtraction_from_known_addition(rt, l, r) || subtraction_from_known_addition(rt, r, l) {
        Some(BuiltinRule::SubtractionFromKnownAddition)
    } else {
        None
    }
}

/// `dividend = p * q` from a known `dividend / q = p` (or `dividend / p = q`)
/// and the divisor nonzero as a subgoal.
pub open spec fn product_from_known_division(rt: &Runtime, l: ObjV, r: ObjV, d: nat) -> bool {
    let split = match (l, r) {
        (_, ObjV::Mul(p, q)) => Some((l, *p, *q)),
        (ObjV::Mul(p, q), _) => Some((r, *p, *q)),
        _ => None,
    };
    split matches Some((a, p, q)) && ((same_or_known_equal(rt, ObjV::Div(Box::new(a), Box::new(q)), p)
        && subgoal_holds(rt, AtomicFactV::NotEqualFact(q, zero_v()), d))
        || (same_or_known_equal(rt, ObjV::Div(Box::new(a), Box::new(p)), q)
        && subgoal_holds(rt, AtomicFactV::NotEqualFact(p, zero_v()), d)))
}

/// `a / b = c` from a known `a = b * c` (or `a = c * b`) and `b != 0` as a subgoal.
pub open spec fn division_from_known_product(rt: &Runtime, l: ObjV, r: ObjV, d: nat) -> bool {
    let split = match (l, r) {
        (ObjV::Div(a, b), _) => Some((*a, *b, r)),
        (_, ObjV::Div(a, b)) => Some((*a, *b, l)),
        _ => None,
    };
    split matches Some((a, b, c)) && (same_or_known_equal(rt, a, ObjV::Mul(Box::new(b), Box::new(c)))
        || same_or_known_equal(rt, a, ObjV::Mul(Box::new(c), Box::new(b))))
        && subgoal_holds(rt, AtomicFactV::NotEqualFact(b, zero_v()), d)
}

/// `{} = s` (either way round) from a known `not $is_nonempty_set(s)`.
pub open spec fn empty_set_from_not_nonempty(rt: &Runtime, l: ObjV, r: ObjV) -> bool {
    (l == empty_set_v() && is_known(rt, AtomicFactV::NotIsNonemptySetFact(r)))
        || (l != empty_set_v() && r == empty_set_v() && is_known(rt, AtomicFactV::NotIsNonemptySetFact(l)))
}

/// The equality rules tried after the two-sided weak order: the conversion
/// between a quotient and a product, then the empty set.
pub open spec fn equality_division_and_empty_rule(rt: &Runtime, l: ObjV, r: ObjV, d: nat) -> Option<BuiltinRule> {
    if product_from_known_division(rt, l, r, d) || division_from_known_product(rt, l, r, d) {
        Some(BuiltinRule::DivisionProductConversion)
    } else if empty_set_from_not_nonempty(rt, l, r) {
        Some(BuiltinRule::EmptySetFromNotNonempty)
    } else {
        None
    }
}

/// `count(a1) * ... * count(an)` for the factors of a Cartesian product.
pub fn count_product_for_cart_args(args: &Vec<Obj>) -> (r: Obj)
    requires
        args@.len() >= 1,
    ensures
        r@ == count_product(view_list(args@)),
{
    proof {
        lemma_view_list(args@);
    }
    let mut product = Obj::Count(Box::new(args[0].duplicate()));
    let mut i: usize = 1;
    while i < args.len()
        invariant
            1 <= i <= args@.len(),
            view_list(args@).len() == args@.len(),
            forall|k: int| 0 <= k < args@.len() ==> #[trigger] view_list(args@)[k] == args@[k]@,
            product@ == count_product(view_list(args@).subrange(0, i as int)),
        decreases args@.len() - i,
    {
        let ghost vs = view_list(args@);
        let ghost next = vs.subrange(0, i as int + 1);
        assert(next.drop_last() =~= vs.subrange(0, i as int));
        assert(next.last() == args@[i as int]@);
        assert(count_product(next) == ObjV::Mul(
            Box::new(count_product(next.drop_last())),
            Box::new(ObjV::Count(Box::new(next.last()))),
        ));
        let ghost before = product@;
        let factor = args[i].duplicate();
        assert(factor@ == args@[i as int]@);
        let count = Obj::Count(Box::new(factor));
        assert(count@ == ObjV::Count(Box::new(args@[i as int]@)));
        product = Obj::Mul(Box::new(product), Box::new(count));
        assert(product@ == ObjV::Mul(Box::new(before), Box::new(ObjV::Count(Box::new(args@[i as int]@)))));
        assert(before == count_product(next.drop_last()));
        i = i + 1;
    }
    assert(view_list(args@).subrange(0, args@.len() as int) =~= view_list(args@));
    product
}

/// `count(cart(a1, ..., an)) = count(a1) * ... * count(an)`.
pub fn cart_count_product_shape(count_side: &Obj, product_side: &Obj) -> (r: bool)
    ensures
        r == cart_count_product(count_side@, product_side@),
{
    match count_side {
        Obj::Count(c) => match &**c {
            Obj::Cart(args) => {
                proof {
                    lemma_view_list(args@);
                }
                assert((**c)@ == ObjV::Cart(view_list(args@)));
                if args.len() == 0 {
                    return false;
                }
                let expected = count_product_for_cart_args(args);
                objs_equal(&expected, product_side)
            },
            _ => {
                assert(!((**c)@ is Cart));
                false
            },
        },
        _ => false,
    }
}

impl Runtime {
    /// The two objects are the same, or known to be equal.
    pub fn objs_are_the_same_or_known_equal(&self, a: &Obj, b: &Obj) -> (r: bool)
        ensures
            r == same_or_known_equal(self, a@, b@),
    {
        objs_equal(a, b) || self.objs_known_equal(a, b)
    }

    /// `a = c - b` from a known `a + b = c` or `b + a = c`.
    pub fn try_verify_one_subtraction_from_known_addition(&self, target: &Obj, sub_side: &Obj) -> (r: bool)
        ensures
            r == subtraction_from_known_addition(self, target@, sub_side@),
    {
        match sub_side {
            Obj::Sub(c, b) => {
                let s1 = Obj::Add(Box::new(target.duplicate()), Box::new(b.duplicate()));
                if self.objs_are_the_same_or_known_equal(&s1, c) {
                    return true;
                }
                let s2 = Obj::Add(Box::new(b.duplicate()), Box::new(target.duplicate()));
                self.objs_are_the_same_or_known_equal(&s2, c)
            },
            _ => false,
        }
    }

    /// The size of a Cartesian product, then an addend moved across a known sum.
    pub fn try_verify_equality_count_and_sum(&self, left: &Obj, right: &Obj) -> (r: Option<BuiltinRule>)
        ensures
            r == equality_count_and_sum_rule(self, left@, right@),
    {
        if cart_count_product_shape(left, right) || cart_count_product_shape(right, left) {
            Some(BuiltinRule::CartCountProduct)
        } else if self.try_verify_one_subtraction_from_known_addition(left, right)
            || self.try_verify_one_subtraction_from_known_addition(right, left) {
            Some(BuiltinRule::SubtractionFromKnownAddition)
        } else {
            None
        }
    }

    /// `a = p * q` from a known `a / q = p` and `q != 0`.
    pub fn try_verify_product_from_known_division_candidate(&self, dividend: &Obj, quotient: &Obj, denominator: &Obj, verify_state: &VerifyState) -> (r: bool)
        ensures
            r == (same_or_known_equal(self, ObjV::Div(Box::new(dividend@), Box::new(denominator@)), quotient@)
                && subgoal_holds(self, AtomicFactV::NotEqualFact(denominator@, zero_v()), verify_state.subgoal_depth as nat)),
    {
        let division = Obj::Div(Box::new(dividend.duplicate()), Box::new(denominator.duplicate()));
        self.objs_are_the_same_or_known_equal(&division, quotient)
            && self.verify_subgoal(&AtomicFact::NotEqualFact(denominator.duplicate(), zero_obj()), verify_state)
    }

    /// A product from a known quotient, or a quotient from a known product.
    pub fn try_verify_division_product_conversion(&self, left: &Obj, right: &Obj, verify_state: &VerifyState) -> (r: bool)
        ensures
            r == (product_from_known_division(self, left@, right@, verify_state.subgoal_depth as nat)
                || division_from_known_product(self, left@, right@, verify_state.subgoal_depth as nat)),
    {
        let product = match (left, right) {
            (_, Obj::Mul(p, q)) => self.try_verify_product_from_known_division_candidate(left, p, q, verify_state)
                || self.try_verify_product_from_known_division_candidate(left, q, p, verify_state),
            (Obj::Mul(p, q), _) => self.try_verify_product_from_known_division_candidate(right, p, q, verify_state)
                || self.try_verify_product_from_known_division_candidate(right, q, p, verify_state),
            _ => false,
        };
        if product {
            return true;
        }
        let (a, b, c) = match (left, right) {
            (Obj::Div(a, b), _) => (a, b, right),
            (_, Obj::Div(a, b)) => (a, b, left),
            _ => return false,
        };
        let m1 = Obj::Mul(Box::new(b.duplicate()), Box::new(c.duplicate()));
        let m2 = Obj::Mul(Box::new(c.duplicate()), Box::new(b.duplicate()));
        (self.objs_are_the_same_or_known_equal(a, &m1) || self.objs_are_the_same_or_known_equal(a, &m2))
            && self.verify_subgoal(&AtomicFact::NotEqualFact(b.duplicate(), zero_obj()), verify_state)
    }

    /// `{} = s` from a known `not $is_nonempty_set(s)`.
    pub fn try_verify_empty_set_equality_from_not_nonempty(&self, left: &Obj, right: &Obj) -> (r: bool)
        ensures
            r == empty_set_from_not_nonempty(self, left@, right@),
    {
        if is_empty_list_set(left) {
            self.fact_is_known(&AtomicFact::NotIsNonemptySetFact(right.duplicate()))
        } else if is_empty_list_set(right) {
            self.fact_is_known(&AtomicFact::NotIsNonemptySetFact(left.duplicate()))
        } else {
            false
        }
    }

    /// The conversion between quotient and product, then the empty set.
    pub fn try_verify_equality_division_and_empty(&self, left: &Obj, right: &Obj, verify_state: &VerifyState) -> (r: Option<BuiltinRule>)
        ensures
            r == equality_division_and_empty_rule(self, left@, right@, verify_state.subgoal_depth as nat),
    {
        if self.try_verify_division_product_conversion(left, right, verify_state) {
            Some(BuiltinRule::DivisionProductConversion)
        } else if self.try_verify_empty_set_equality_from_not_nonempty(left, right) {
            Some(BuiltinRule::EmptySetFromNotNonempty)
        } else {
            None
        }
    }
}

} // verus!
