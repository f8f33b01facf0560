//! Instantiating a quantified fact: replacing its parameters by the objects
//! they are bound to.
use vstd::prelude::*;
use crate::obj::{Obj, ObjV, view_list, lemma_view_list};
use crate::fact::{AtomicFact, AtomicFactV};
use crate::arg_map::{ArgMap, ArgMapV};

verus! {

/// Which parameters an instantiation replaces: those bound by a universal
/// fact, or those bound by an existential fact.
#[derive(PartialEq, Eq, Structural, Debug, Clone, Copy)]
pub enum BoundKind {
    Forall,
    Exist,
}

/// The object with each bound parameter replaced by the object bound to it.
pub closed spec fn inst_obj_spec(o: ObjV, m: ArgMapV, k: BoundKind) -> ObjV
    decreases o,
{
    match o {
        ObjV::Identifier(_) => o,
        ObjV::IdentifierWithMod(_, _) => o,
        ObjV::ForallParam(p) => if k == BoundKind::Forall && m.contains_key(p) {
            m[p]
        } else {
            o
        },
        ObjV::ExistParam(p) => if k == BoundKind::Exist && m.contains_key(p) {
            m[p]
        } else {
            o
        },
        ObjV::Number(_) => o,
        ObjV::Add(a, b) => ObjV::Add(Box::new(inst_obj_spec(*a, m, k)), Box::new(inst_obj_spec(*b, m, k))),
        ObjV::Sub(a, b) => ObjV::Sub(Box::new(inst_obj_spec(*a, m, k)), Box::new(inst_obj_spec(*b, m, k))),
        ObjV::Mul(a, b) => ObjV::Mul(Box::new(inst_obj_spec(*a, m, k)), Box::new(inst_obj_spec(*b, m, k))),
        ObjV::Div(a, b) => ObjV::Div(Box::new(inst_obj_spec(*a, m, k)), Box::new(inst_obj_spec(*b, m, k))),
        ObjV::Mod(a, b) => ObjV::Mod(Box::new(inst_obj_spec(*a, m, k)), Box::new(inst_obj_spec(*b, m, k))),
        ObjV::Pow(a, b) => ObjV::Pow(Box::new(inst_obj_spec(*a, m, k)), Box::new(inst_obj_spec(*b, m, k))),
        ObjV::MatrixAdd(a, b) => ObjV::MatrixAdd(Box::new(inst_obj_spec(*a, m, k)), Box::new(inst_obj_spec(*b, m, k))),
        ObjV::MatrixSub(a, b) => ObjV::MatrixSub(Box::new(inst_obj_spec(*a, m, k)), Box::new(inst_obj_spec(*b, m, k))),
        ObjV::MatrixMul(a, b) => ObjV::MatrixMul(Box::new(inst_obj_spec(*a, m, k)), Box::new(inst_obj_spec(*b, m, k))),
        ObjV::MatrixScalarMul(a, b) => ObjV::MatrixScalarMul(Box::new(inst_obj_spec(*a, m, k)), Box::new(inst_obj_spec(*b, m, k))),
        ObjV::MatrixPow(a, b) => ObjV::MatrixPow(Box::new(inst_obj_spec(*a, m, k)), Box::new(inst_obj_spec(*b, m, k))),
        ObjV::Abs(a) => ObjV::Abs(Box::new(inst_obj_spec(*a, m, k))),
        ObjV::Sqrt(a) => ObjV::Sqrt(Box::new(inst_obj_spec(*a, m, k))),
        ObjV::Log(a, b) => ObjV::Log(Box::new(inst_obj_spec(*a, m, k)), Box::new(inst_obj_spec(*b, m, k))),
        ObjV::Max(a, b) => ObjV::Max(Box::new(inst_obj_spec(*a, m, k)), Box::new(inst_obj_spec(*b, m, k))),
        ObjV::Min(a, b) => ObjV::Min(Box::new(inst_obj_spec(*a, m, k)), Box::new(inst_obj_spec(*b, m, k))),
        ObjV::Union(a, b) => ObjV::Union(Box::new(inst_obj_spec(*a, m, k)), Box::new(inst_obj_spec(*b, m, k))),
        ObjV::Intersect(a, b) => ObjV::Intersect(Box::new(inst_obj_spec(*a, m, k)), Box::new(inst_obj_spec(*b, m, k))),
        ObjV::SetMinus(a, b) => ObjV::SetMinus(Box::new(inst_obj_spec(*a, m, k)), Box::new(inst_obj_spec(*b, m, k))),
        ObjV::SetDiff(a, b) => ObjV::SetDiff(Box::new(inst_obj_spec(*a, m, k)), Box::new(inst_obj_spec(*b, m, k))),
        ObjV::Cup(a) => ObjV::Cup(Box::new(inst_obj_spec(*a, m, k))),
        ObjV::Cap(a) => ObjV::Cap(Box::new(inst_obj_spec(*a, m, k))),
        ObjV::ListSet(v) => ObjV::ListSet(inst_list_spec(v, m, k)),
        ObjV::StandardSet(_) => o,
        ObjV::Cart(v) => ObjV::Cart(inst_list_spec(v, m, k)),
        ObjV::CartDim(a) => ObjV::CartDim(Box::new(inst_obj_spec(*a, m, k))),
        ObjV::Proj(a, b) => ObjV::Proj(Box::new(inst_obj_spec(*a, m, k)), Box::new(inst_obj_spec(*b, m, k))),
        ObjV::TupleDim(a) => ObjV::TupleDim(Box::new(inst_obj_spec(*a, m, k))),
        ObjV::Tuple(v) => ObjV::Tuple(inst_list_spec(v, m, k)),
        ObjV::FiniteSeqList(v) => ObjV::FiniteSeqList(inst_list_spec(v, m, k)),
        ObjV::Count(a) => ObjV::Count(Box::new(inst_obj_spec(*a, m, k))),
        ObjV::FnRange(a) => ObjV::FnRange(Box::new(inst_obj_spec(*a, m, k))),
        ObjV::Sum(a, b, c) => ObjV::Sum(
            Box::new(inst_obj_spec(*a, m, k)),
            Box::new(inst_obj_spec(*b, m, k)),
            Box::new(inst_obj_spec(*c, m, k)),
        ),
        ObjV::Product(a, b, c) => ObjV::Product(
            Box::new(inst_obj_spec(*a, m, k)),
            Box::new(inst_obj_spec(*b, m, k)),
            Box::new(inst_obj_spec(*c, m, k)),
        ),
        ObjV::Range(a, b) => ObjV::Range(Box::new(inst_obj_spec(*a, m, k)), Box::new(inst_obj_spec(*b, m, k))),
        ObjV::ClosedRange(a, b) => ObjV::ClosedRange(Box::new(inst_obj_spec(*a, m, k)), Box::new(inst_obj_spec(*b, m, k))),
        ObjV::FiniteSeqSet(a, b) => ObjV::FiniteSeqSet(Box::new(inst_obj_spec(*a, m, k)), Box::new(inst_obj_spec(*b, m, k))),
        ObjV::SeqSet(a) => ObjV::SeqSet(Box::new(inst_obj_spec(*a, m, k))),
        ObjV::MatrixSet(a, b, c) => ObjV::MatrixSet(
            Box::new(inst_obj_spec(*a, m, k)),
            Box::new(inst_obj_spec(*b, m, k)),
            Box::new(inst_obj_spec(*c, m, k)),
        ),
        ObjV::PowerSet(a) => ObjV::PowerSet(Box::new(inst_obj_spec(*a, m, k))),
        ObjV::ObjAtIndex(a, b) => ObjV::ObjAtIndex(Box::new(inst_obj_spec(*a, m, k)), Box::new(inst_obj_spec(*b, m, k))),
        ObjV::FnObj(h, v) => ObjV::FnObj(Box::new(inst_obj_spec(*h, m, k)), inst_list_spec(v, m, k)),
        ObjV::Interval(a, b, lc, rc) => ObjV::Interval(Box::new(inst_obj_spec(*a, m, k)), Box::new(inst_obj_spec(*b, m, k)), lc, rc),
    }
}

/// Each object of the list instantiated.
pub closed spec fn inst_list_spec(s: Seq<ObjV>, m: ArgMapV, k: BoundKind) -> Seq<ObjV>
    decreases s,
{
    if s.len() == 0 {
        Seq::empty()
    } else {
        proof {
            assert(decreases_to!(s => s.drop_last()));
        }
        inst_list_spec(s.drop_last(), m, k).push(inst_obj_spec(s.last(), m, k))
    }
}

/// The fact with each bound parameter replaced by the object bound to it.
pub closed spec fn inst_fact_spec(f: AtomicFactV, m: ArgMapV, k: BoundKind) -> AtomicFactV {
    match f {
        AtomicFactV::EqualFact(a, b) => AtomicFactV::EqualFact(inst_obj_spec(a, m, k), inst_obj_spec(b, m, k)),
        AtomicFactV::NotEqualFact(a, b) => AtomicFactV::NotEqualFact(inst_obj_spec(a, m, k), inst_obj_spec(b, m, k)),
        AtomicFactV::LessFact(a, b) => AtomicFactV::LessFact(inst_obj_spec(a, m, k), inst_obj_spec(b, m, k)),
        AtomicFactV::NotLessFact(a, b) => AtomicFactV::NotLessFact(inst_obj_spec(a, m, k), inst_obj_spec(b, m, k)),
        AtomicFactV::LessEqualFact(a, b) => AtomicFactV::LessEqualFact(inst_obj_spec(a, m, k), inst_obj_spec(b, m, k)),
        AtomicFactV::NotLessEqualFact(a, b) => AtomicFactV::NotLessEqualFact(inst_obj_spec(a, m, k), inst_obj_spec(b, m, k)),
        AtomicFactV::GreaterFact(a, b) => AtomicFactV::GreaterFact(inst_obj_spec(a, m, k), inst_obj_spec(b, m, k)),
        AtomicFactV::NotGreaterFact(a, b) => AtomicFactV::NotGreaterFact(inst_obj_spec(a, m, k), inst_obj_spec(b, m, k)),
        AtomicFactV::GreaterEqualFact(a, b) => AtomicFactV::GreaterEqualFact(inst_obj_spec(a, m, k), inst_obj_spec(b, m, k)),
        AtomicFactV::NotGreaterEqualFact(a, b) => AtomicFactV::NotGreaterEqualFact(inst_obj_spec(a, m, k), inst_obj_spec(b, m, k)),
        AtomicFactV::InFact(a, b) => AtomicFactV::InFact(inst_obj_spec(a, m, k), inst_obj_spec(b, m, k)),
        AtomicFactV::NotInFact(a, b) => AtomicFactV::NotInFact(inst_obj_spec(a, m, k), inst_obj_spec(b, m, k)),
        AtomicFactV::SubsetFact(a, b) => AtomicFactV::SubsetFact(inst_obj_spec(a, m, k), inst_obj_spec(b, m, k)),
        AtomicFactV::NotSubsetFact(a, b) => AtomicFactV::NotSubsetFact(inst_obj_spec(a, m, k), inst_obj_spec(b, m, k)),
        AtomicFactV::SupersetFact(a, b) => AtomicFactV::SupersetFact(inst_obj_spec(a, m, k), inst_obj_spec(b, m, k)),
        AtomicFactV::NotSupersetFact(a, b) => AtomicFactV::NotSupersetFact(inst_obj_spec(a, m, k), inst_obj_spec(b, m, k)),
        AtomicFactV::FnEqualFact(a, b) => AtomicFactV::FnEqualFact(inst_obj_spec(a, m, k), inst_obj_spec(b, m, k)),
        AtomicFactV::IsSetFact(a) => AtomicFactV::IsSetFact(inst_obj_spec(a, m, k)),
        AtomicFactV::NotIsSetFact(a) => AtomicFactV::NotIsSetFact(inst_obj_spec(a, m, k)),
        AtomicFactV::IsNonemptySetFact(a) => AtomicFactV::IsNonemptySetFact(inst_obj_spec(a, m, k)),
        AtomicFactV::NotIsNonemptySetFact(a) => AtomicFactV::NotIsNonemptySetFact(inst_obj_spec(a, m, k)),
        AtomicFactV::IsFiniteSetFact(a) => AtomicFactV::IsFiniteSetFact(inst_obj_spec(a, m, k)),
        AtomicFactV::NotIsFiniteSetFact(a) => AtomicFactV::NotIsFiniteSetFact(inst_obj_spec(a, m, k)),
        AtomicFactV::IsCartFact(a) => AtomicFactV::IsCartFact(inst_obj_spec(a, m, k)),
        AtomicFactV::NotIsCartFact(a) => AtomicFactV::NotIsCartFact(inst_obj_spec(a, m, k)),
        AtomicFactV::IsTupleFact(a) => AtomicFactV::IsTupleFact(inst_obj_spec(a, m, k)),
        AtomicFactV::NotIsTupleFact(a) => AtomicFactV::NotIsTupleFact(inst_obj_spec(a, m, k)),
        AtomicFactV::NormalAtomicFact(p, v) => AtomicFactV::NormalAtomicFact(p, inst_list_spec(v, m, k)),
        AtomicFactV::NotNormalAtomicFact(p, v) => AtomicFactV::NotNormalAtomicFact(p, inst_list_spec(v, m, k)),
        AtomicFactV::FnEqualInFact(a, b, c) => AtomicFactV::FnEqualInFact(inst_obj_spec(a, m, k), inst_obj_spec(b, m, k), inst_obj_spec(c, m, k)),
    }
}

/// An instantiated list has the same length and the instantiated elements.
pub proof fn lemma_inst_list(s: Seq<ObjV>, m: ArgMapV, k: BoundKind)
    ensures
        inst_list_spec(s, m, k).len() == s.len(),
        forall|i: int| 0 <= i < s.len() ==> #[trigger] inst_list_spec(s, m, k)[i] == inst_obj_spec(s[i], m, k),
    decreases s.len(),
{
    if s.len() > 0 {
        lemma_inst_list(s.drop_last(), m, k);
    }
}

/// Replace each bound parameter of the object by the object bound to it.
pub fn inst_obj(o: &Obj, m: &ArgMap, k: BoundKind) -> (r: Obj)
    requires
        m.wf(),
    ensures
        r@ == inst_obj_spec(o@, m@, k),
    decreases o,
{
    match o {
            Obj::Identifier(_) => o.duplicate(),
            Obj::IdentifierWithMod(_, _) => o.duplicate(),
            Obj::ForallParam(p) => match k {
                BoundKind::Forall => match m.get(p) {
                    Some(v) => v.duplicate(),
                    None => o.duplicate(),
                },
                BoundKind::Exist => o.duplicate(),
            },
            Obj::ExistParam(p) => match k {
                BoundKind::Exist => match m.get(p) {
                    Some(v) => v.duplicate(),
                    None => o.duplicate(),
                },
                BoundKind::Forall => o.duplicate(),
            },
            Obj::Number(_) => o.duplicate(),
            Obj::Add(a, b) => Obj::Add(Box::new(inst_obj(a, m, k)), Box::new(inst_obj(b, m, k))),
            Obj::Sub(a, b) => Obj::Sub(Box::new(inst_obj(a, m, k)), Box::new(inst_obj(b, m, k))),
            Obj::Mul(a, b) => Obj::Mul(Box::new(inst_obj(a, m, k)), Box::new(inst_obj(b, m, k))),
            Obj::Div(a, b) => Obj::Div(Box::new(inst_obj(a, m, k)), Box::new(inst_obj(b, m, k))),
            Obj::Mod(a, b) => Obj::Mod(Box::new(inst_obj(a, m, k)), Box::new(inst_obj(b, m, k))),
            Obj::Pow(a, b) => Obj::Pow(Box::new(inst_obj(a, m, k)), Box::new(inst_obj(b, m, k))),
            Obj::MatrixAdd(a, b) => Obj::MatrixAdd(Box::new(inst_obj(a, m, k)), Box::new(inst_obj(b, m, k))),
            Obj::MatrixSub(a, b) => Obj::MatrixSub(Box::new(inst_obj(a, m, k)), Box::new(inst_obj(b, m, k))),
            Obj::MatrixMul(a, b) => Obj::MatrixMul(Box::new(inst_obj(a, m, k)), Box::new(inst_obj(b, m, k))),
            Obj::MatrixScalarMul(a, b) => Obj::MatrixScalarMul(Box::new(inst_obj(a, m, k)), Box::new(inst_obj(b, m, k))),
            Obj::MatrixPow(a, b) => Obj::MatrixPow(Box::new(inst_obj(a, m, k)), Box::new(inst_obj(b, m, k))),
            Obj::Abs(a) => Obj::Abs(Box::new(inst_obj(a, m, k))),
            Obj::Sqrt(a) => Obj::Sqrt(Box::new(inst_obj(a, m, k))),
            Obj::Log(a, b) => Obj::Log(Box::new(inst_obj(a, m, k)), Box::new(inst_obj(b, m, k))),
            Obj::Max(a, b) => Obj::Max(Box::new(inst_obj(a, m, k)), Box::new(inst_obj(b, m, k))),
            Obj::Min(a, b) => Obj::Min(Box::new(inst_obj(a, m, k)), Box::new(inst_obj(b, m, k))),
            Obj::Union(a, b) => Obj::Union(Box::new(inst_obj(a, m, k)), Box::new(inst_obj(b, m, k))),
            Obj::Intersect(a, b) => Obj::Intersect(Box::new(inst_obj(a, m, k)), Box::new(inst_obj(b, m, k))),
            Obj::SetMinus(a, b) => Obj::SetMinus(Box::new(inst_obj(a, m, k)), Box::new(inst_obj(b, m, k))),
            Obj::SetDiff(a, b) => Obj::SetDiff(Box::new(inst_obj(a, m, k)), Box::new(inst_obj(b, m, k))),
            Obj::Cup(a) => Obj::Cup(Box::new(inst_obj(a, m, k))),
            Obj::Cap(a) => Obj::Cap(Box::new(inst_obj(a, m, k))),
            Obj::ListSet(v) => Obj::ListSet(inst_list(v, m, k)),
            Obj::StandardSet(_) => o.duplicate(),
            Obj::Cart(v) => Obj::Cart(inst_list(v, m, k)),
            Obj::CartDim(a) => Obj::CartDim(Box::new(inst_obj(a, m, k))),
            Obj::Proj(a, b) => Obj::Proj(Box::new(inst_obj(a, m, k)), Box::new(inst_obj(b, m, k))),
            Obj::TupleDim(a) => Obj::TupleDim(Box::new(inst_obj(a, m, k))),
            Obj::Tuple(v) => Obj::Tuple(inst_list(v, m, k)),
            Obj::FiniteSeqList(v) => Obj::FiniteSeqList(inst_list(v, m, k)),
            Obj::Count(a) => Obj::Count(Box::new(inst_obj(a, m, k))),
            Obj::FnRange(a) => Obj::FnRange(Box::new(inst_obj(a, m, k))),
            Obj::Sum(a, b, c) => Obj::Sum(
                Box::new(inst_obj(a, m, k)),
                Box::new(inst_obj(b, m, k)),
                Box::new(inst_obj(c, m, k)),
            ),
            Obj::Product(a, b, c) => Obj::Product(
                Box::new(inst_obj(a, m, k)),
                Box::new(inst_obj(b, m, k)),
                Box::new(inst_obj(c, m, k)),
            ),
            Obj::Range(a, b) => Obj::Range(Box::new(inst_obj(a, m, k)), Box::new(inst_obj(b, m, k))),
            Obj::ClosedRange(a, b) => Obj::ClosedRange(Box::new(inst_obj(a, m, k)), Box::new(inst_obj(b, m, k))),
            Obj::FiniteSeqSet(a, b) => Obj::FiniteSeqSet(Box::new(inst_obj(a, m, k)), Box::new(inst_obj(b, m, k))),
            Obj::SeqSet(a) => Obj::SeqSet(Box::new(inst_obj(a, m, k))),
            Obj::MatrixSet(a, b, c) => Obj::MatrixSet(
                Box::new(inst_obj(a, m, k)),
                Box::new(inst_obj(b, m, k)),
                Box::new(inst_obj(c, m, k)),
            ),
            Obj::PowerSet(a) => Obj::PowerSet(Box::new(inst_obj(a, m, k))),
            Obj::ObjAtIndex(a, b) => Obj::ObjAtIndex(Box::new(inst_obj(a, m, k)), Box::new(inst_obj(b, m, k))),
            Obj::FnObj(h, v) => Obj::FnObj(Box::new(inst_obj(h, m, k)), inst_list(v, m, k)),
            Obj::Interval(a, b, lc, rc) => Obj::Interval(Box::new(inst_obj(a, m, k)), Box::new(inst_obj(b, m, k)), *lc, *rc),
    }
}

/// Instantiate each object of the list.
pub fn inst_list(x: &Vec<Obj>, m: &ArgMap, k: BoundKind) -> (r: Vec<Obj>)
    requires
        m.wf(),
    ensures
        view_list(r@) == inst_list_spec(view_list(x@), m@, k),
    decreases x,
{
    let mut out: Vec<Obj> = Vec::new();
    let mut i: usize = 0;
    while i < x.len()
        invariant
            m.wf(),
            i <= x.len(),
            out.len() == i,
            forall|j: int| 0 <= j < i ==> #[trigger] out@[j]@ == inst_obj_spec(x@[j]@, m@, k),
        decreases x.len() - i,
    {
        proof {
            vstd::std_specs::vec::axiom_vec_index_decreases(*x, i as int);
        }
        out.push(inst_obj(&x[i], m, k));
        i = i + 1;
    }
    proof {
        lemma_view_list(out@);
        lemma_view_list(x@);
        lemma_inst_list(view_list(x@), m@, k);
        assert(view_list(out@) =~= inst_list_spec(view_list(x@), m@, k));
    }
    out
}

/// Replace each bound parameter of the fact by the object bound to it.
pub fn inst_fact(f: &AtomicFact, m: &ArgMap, k: BoundKind) -> (r: AtomicFact)
    requires
        m.wf(),
    ensures
        r@ == inst_fact_spec(f@, m@, k),
{
    match f {
            AtomicFact::EqualFact(a, b) => AtomicFact::EqualFact(inst_obj(a, m, k), inst_obj(b, m, k)),
            AtomicFact::NotEqualFact(a, b) => AtomicFact::NotEqualFact(inst_obj(a, m, k), inst_obj(b, m, k)),
            AtomicFact::LessFact(a, b) => AtomicFact::LessFact(inst_obj(a, m, k), inst_obj(b, m, k)),
            AtomicFact::NotLessFact(a, b) => AtomicFact::NotLessFact(inst_obj(a, m, k), inst_obj(b, m, k)),
            AtomicFact::LessEqualFact(a, b) => AtomicFact::LessEqualFact(inst_obj(a, m, k), inst_obj(b, m, k)),
            AtomicFact::NotLessEqualFact(a, b) => AtomicFact::NotLessEqualFact(inst_obj(a, m, k), inst_obj(b, m, k)),
            AtomicFact::GreaterFact(a, b) => AtomicFact::GreaterFact(inst_obj(a, m, k), inst_obj(b, m, k)),
            AtomicFact::NotGreaterFact(a, b) => AtomicFact::NotGreaterFact(inst_obj(a, m, k), inst_obj(b, m, k)),
            AtomicFact::GreaterEqualFact(a, b) => AtomicFact::GreaterEqualFact(inst_obj(a, m, k), inst_obj(b, m, k)),
            AtomicFact::NotGreaterEqualFact(a, b) => AtomicFact::NotGreaterEqualFact(inst_obj(a, m, k), inst_obj(b, m, k)),
            AtomicFact::InFact(a, b) => AtomicFact::InFact(inst_obj(a, m, k), inst_obj(b, m, k)),
            AtomicFact::NotInFact(a, b) => AtomicFact::NotInFact(inst_obj(a, m, k), inst_obj(b, m, k)),
            AtomicFact::SubsetFact(a, b) => AtomicFact::SubsetFact(inst_obj(a, m, k), inst_obj(b, m, k)),
            AtomicFact::NotSubsetFact(a, b) => AtomicFact::NotSubsetFact(inst_obj(a, m, k), inst_obj(b, m, k)),
            AtomicFact::SupersetFact(a, b) => AtomicFact::SupersetFact(inst_obj(a, m, k), inst_obj(b, m, k)),
            AtomicFact::NotSupersetFact(a, b) => AtomicFact::NotSupersetFact(inst_obj(a, m, k), inst_obj(b, m, k)),
            AtomicFact::FnEqualFact(a, b) => AtomicFact::FnEqualFact(inst_obj(a, m, k), inst_obj(b, m, k)),
            AtomicFact::IsSetFact(a) => AtomicFact::IsSetFact(inst_obj(a, m, k)),
            AtomicFact::NotIsSetFact(a) => AtomicFact::NotIsSetFact(inst_obj(a, m, k)),
            AtomicFact::IsNonemptySetFact(a) => AtomicFact::IsNonemptySetFact(inst_obj(a, m, k)),
            AtomicFact::NotIsNonemptySetFact(a) => AtomicFact::NotIsNonemptySetFact(inst_obj(a, m, k)),
            AtomicFact::IsFiniteSetFact(a) => AtomicFact::IsFiniteSetFact(inst_obj(a, m, k)),
            AtomicFact::NotIsFiniteSetFact(a) => AtomicFact::NotIsFiniteSetFact(inst_obj(a, m, k)),
            AtomicFact::IsCartFact(a) => AtomicFact::IsCartFact(inst_obj(a, m, k)),
            AtomicFact::NotIsCartFact(a) => AtomicFact::NotIsCartFact(inst_obj(a, m, k)),
            AtomicFact::IsTupleFact(a) => AtomicFact::IsTupleFact(inst_obj(a, m, k)),
            AtomicFact::NotIsTupleFact(a) => AtomicFact::NotIsTupleFact(inst_obj(a, m, k)),
            AtomicFact::NormalAtomicFact(p, v) => AtomicFact::NormalAtomicFact(p.clone(), inst_list(v, m, k)),
            AtomicFact::NotNormalAtomicFact(p, v) => AtomicFact::NotNormalAtomicFact(p.clone(), inst_list(v, m, k)),
            AtomicFact::FnEqualInFact(a, b, c) => AtomicFact::FnEqualInFact(inst_obj(a, m, k), inst_obj(b, m, k), inst_obj(c, m, k)),
    }
}

/// Instantiating with no bindings changes nothing.
pub proof fn law_inst_empty_identity(o: ObjV, k: BoundKind)
    ensures
        inst_obj_spec(o, Map::empty(), k) == o,
    decreases o,
{
    match o {
        ObjV::Add(a, b) => {
            law_inst_empty_identity(*a, k);
            law_inst_empty_identity(*b, k);
        },
        ObjV::Sub(a, b) => {
            law_inst_empty_identity(*a, k);
            law_inst_empty_identity(*b, k);
        },
        ObjV::Mul(a, b) => {
            law_inst_empty_identity(*a, k);
            law_inst_empty_identity(*b, k);
        },
        ObjV::Div(a, b) => {
            law_inst_empty_identity(*a, k);
            law_inst_empty_identity(*b, k);
        },
        ObjV::Mod(a, b) => {
            law_inst_empty_identity(*a, k);
            law_inst_empty_identity(*b, k);
        },
        ObjV::Pow(a, b) => {
            law_inst_empty_identity(*a, k);
            law_inst_empty_identity(*b, k);
        },
        ObjV::MatrixAdd(a, b) => {
            law_inst_empty_identity(*a, k);
            law_inst_empty_identity(*b, k);
        },
        ObjV::MatrixSub(a, b) => {
            law_inst_empty_identity(*a, k);
            law_inst_empty_identity(*b, k);
        },
        ObjV::MatrixMul(a, b) => {
            law_inst_empty_identity(*a, k);
            law_inst_empty_identity(*b, k);
        },
        ObjV::MatrixScalarMul(a, b) => {
            law_inst_empty_identity(*a, k);
            law_inst_empty_identity(*b, k);
        },
        ObjV::MatrixPow(a, b) => {
            law_inst_empty_identity(*a, k);
            law_inst_empty_identity(*b, k);
        },
        ObjV::Abs(a) => law_inst_empty_identity(*a, k),
        ObjV::Sqrt(a) => law_inst_empty_identity(*a, k),
        ObjV::Log(a, b) => {
            law_inst_empty_identity(*a, k);
            law_inst_empty_identity(*b, k);
        },
        ObjV::Max(a, b) => {
            law_inst_empty_identity(*a, k);
            law_inst_empty_identity(*b, k);
        },
        ObjV::Min(a, b) => {
            law_inst_empty_identity(*a, k);
            law_inst_empty_identity(*b, k);
        },
        ObjV::Union(a, b) => {
            law_inst_empty_identity(*a, k);
            law_inst_empty_identity(*b, k);
        },
        ObjV::Intersect(a, b) => {
            law_inst_empty_identity(*a, k);
            law_inst_empty_identity(*b, k);
        },
        ObjV::SetMinus(a, b) => {
            law_inst_empty_identity(*a, k);
            law_inst_empty_identity(*b, k);
        },
        ObjV::SetDiff(a, b) => {
            law_inst_empty_identity(*a, k);
            law_inst_empty_identity(*b, k);
        },
        ObjV::Cup(a) => law_inst_empty_identity(*a, k),
        ObjV::Cap(a) => law_inst_empty_identity(*a, k),
        ObjV::ListSet(v) => lemma_inst_list_empty_identity(v, k),
        ObjV::Cart(v) => lemma_inst_list_empty_identity(v, k),
        ObjV::CartDim(a) => law_inst_empty_identity(*a, k),
        ObjV::Proj(a, b) => {
            law_inst_empty_identity(*a, k);
            law_inst_empty_identity(*b, k);
        },
        ObjV::TupleDim(a) => law_inst_empty_identity(*a, k),
        ObjV::Tuple(v) => lemma_inst_list_empty_identity(v, k),
        ObjV::FiniteSeqList(v) => lemma_inst_list_empty_identity(v, k),
        ObjV::Count(a) => law_inst_empty_identity(*a, k),
        ObjV::FnRange(a) => law_inst_empty_identity(*a, k),
        ObjV::Sum(a, b, c) => {
            law_inst_empty_identity(*a, k);
            law_inst_empty_identity(*b, k);
            law_inst_empty_identity(*c, k);
        },
        ObjV::Product(a, b, c) => {
            law_inst_empty_identity(*a, k);
            law_inst_empty_identity(*b, k);
            law_inst_empty_identity(*c, k);
        },
        ObjV::Range(a, b) => {
            law_inst_empty_identity(*a, k);
            law_inst_empty_identity(*b, k);
        },
        ObjV::ClosedRange(a, b) => {
            law_inst_empty_identity(*a, k);
            law_inst_empty_identity(*b, k);
        },
        ObjV::FiniteSeqSet(a, b) => {
            law_inst_empty_identity(*a, k);
            law_inst_empty_identity(*b, k);
        },
        ObjV::SeqSet(a) => law_inst_empty_identity(*a, k),
        ObjV::MatrixSet(a, b, c) => {
            law_inst_empty_identity(*a, k);
            law_inst_empty_identity(*b, k);
            law_inst_empty_identity(*c, k);
        },
        ObjV::PowerSet(a) => law_inst_empty_identity(*a, k),
        ObjV::ObjAtIndex(a, b) => {
            law_inst_empty_identity(*a, k);
            law_inst_empty_identity(*b, k);
        },
        ObjV::FnObj(h, v) => {
            law_inst_empty_identity(*h, k);
            lemma_inst_list_empty_identity(v, k);
        },
        ObjV::Interval(a, b, _, _) => {
            law_inst_empty_identity(*a, k);
            law_inst_empty_identity(*b, k);
        },
        _ => {},
    }
}

/// Instantiating a list with no bindings changes nothing.
pub proof fn lemma_inst_list_empty_identity(s: Seq<ObjV>, k: BoundKind)
    ensures
        inst_list_spec(s, Map::empty(), k) == s,
    decreases s,
{
    if s.len() > 0 {
        assert(decreases_to!(s => s.drop_last()));
        lemma_inst_list_empty_identity(s.drop_last(), k);
        assert(decreases_to!(s => s[s.len() - 1]));
        law_inst_empty_identity(s.last(), k);
        assert(s.drop_last().push(s.last()) =~= s);
    }
}

} // verus!
