//! Bringing order facts to the forms `a < b` and `a <= b`.
use vstd::prelude::*;
use crate::fact::{AtomicFact, AtomicFactV};

verus! {

/// The strict or weak `<` fact equivalent to an order fact, or `None` for
/// facts that are not order facts.
pub open spec fn normalized_order(f: AtomicFactV) -> Option<AtomicFactV> {
    match f {
        AtomicFactV::LessFact(l, r) => Some(AtomicFactV::LessFact(l, r)),
        AtomicFactV::LessEqualFact(l, r) => Some(AtomicFactV::LessEqualFact(l, r)),
        AtomicFactV::GreaterFact(l, r) => Some(AtomicFactV::LessFact(r, l)),
        AtomicFactV::GreaterEqualFact(l, r) => Some(AtomicFactV::LessEqualFact(r, l)),
        AtomicFactV::NotLessFact(l, r) => Some(AtomicFactV::LessEqualFact(r, l)),
        AtomicFactV::NotLessEqualFact(l, r) => Some(AtomicFactV::LessFact(r, l)),
        AtomicFactV::NotGreaterFact(l, r) => Some(AtomicFactV::LessEqualFact(l, r)),
        AtomicFactV::NotGreaterEqualFact(l, r) => Some(AtomicFactV::LessFact(l, r)),
        _ => None,
    }
}

/// Map any binary order fact to an equivalent `<` or `<=` fact, so that `>`,
/// `>=` and the negated forms need no logic of their own.
pub fn normalize_positive_order_atomic_fact(atomic_fact: &AtomicFact) -> (r: Option<AtomicFact>)
    ensures
        r matches Some(g) ==> normalized_order(atomic_fact@) == Some(g@),
        r is None <==> normalized_order(atomic_fact@) is None,
{
    match atomic_fact {
        AtomicFact::LessFact(l, r) => Some(AtomicFact::LessFact(l.duplicate(), r.duplicate())),
        AtomicFact::LessEqualFact(l, r) => Some(
            AtomicFact::LessEqualFact(l.duplicate(), r.duplicate()),
        ),
        AtomicFact::GreaterFact(l, r) => Some(AtomicFact::LessFact(r.duplicate(), l.duplicate())),
        AtomicFact::GreaterEqualFact(l, r) => Some(
            AtomicFact::LessEqualFact(r.duplicate(), l.duplicate()),
        ),
        AtomicFact::NotLessFact(l, r) => Some(
            AtomicFact::LessEqualFact(r.duplicate(), l.duplicate()),
        ),
        AtomicFact::NotLessEqualFact(l, r) => Some(
            AtomicFact::LessFact(r.duplicate(), l.duplicate()),
        ),
        AtomicFact::NotGreaterFact(l, r) => Some(
            AtomicFact::LessEqualFact(l.duplicate(), r.duplicate()),
        ),
        AtomicFact::NotGreaterEqualFact(l, r) => Some(
            AtomicFact::LessFact(l.duplicate(), r.duplicate()),
        ),
        _ => None,
    }
}

/// A normalized order fact is already normal.
pub proof fn law_normalized_order_idempotent(f: AtomicFactV)
    ensures
        normalized_order(f) matches Some(g) ==> normalized_order(g) == Some(g),
{
}

} // verus!
