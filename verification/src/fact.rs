//! Atomic facts: relations between objects, and their negations.
use vstd::prelude::*;
use crate::obj::{Obj, ObjV, view_list, lemma_view_list, objs_equal, obj_lists_equal, duplicate_list};

verus! {

/// An atomic fact. Each relation has a negated form (`Not...`).
#[derive(Debug)]
pub enum AtomicFact {
    EqualFact(Obj, Obj),
    NotEqualFact(Obj, Obj),
    LessFact(Obj, Obj),
    NotLessFact(Obj, Obj),
    LessEqualFact(Obj, Obj),
    NotLessEqualFact(Obj, Obj),
    GreaterFact(Obj, Obj),
    NotGreaterFact(Obj, Obj),
    GreaterEqualFact(Obj, Obj),
    NotGreaterEqualFact(Obj, Obj),
    InFact(Obj, Obj),
    NotInFact(Obj, Obj),
    SubsetFact(Obj, Obj),
    NotSubsetFact(Obj, Obj),
    SupersetFact(Obj, Obj),
    NotSupersetFact(Obj, Obj),
    IsSetFact(Obj),
    NotIsSetFact(Obj),
    IsNonemptySetFact(Obj),
    NotIsNonemptySetFact(Obj),
    IsFiniteSetFact(Obj),
    NotIsFiniteSetFact(Obj),
    IsCartFact(Obj),
    NotIsCartFact(Obj),
    IsTupleFact(Obj),
    NotIsTupleFact(Obj),
    /// A user-defined proposition applied to arguments: `(name, arguments)`.
    NormalAtomicFact(String, Vec<Obj>),
    NotNormalAtomicFact(String, Vec<Obj>),
    FnEqualFact(Obj, Obj),
    FnEqualInFact(Obj, Obj, Obj),
}

/// The mathematical value of an [`AtomicFact`].
pub enum AtomicFactV {
    EqualFact(ObjV, ObjV),
    NotEqualFact(ObjV, ObjV),
    LessFact(ObjV, ObjV),
    NotLessFact(ObjV, ObjV),
    LessEqualFact(ObjV, ObjV),
    NotLessEqualFact(ObjV, ObjV),
    GreaterFact(ObjV, ObjV),
    NotGreaterFact(ObjV, ObjV),
    GreaterEqualFact(ObjV, ObjV),
    NotGreaterEqualFact(ObjV, ObjV),
    InFact(ObjV, ObjV),
    NotInFact(ObjV, ObjV),
    SubsetFact(ObjV, ObjV),
    NotSubsetFact(ObjV, ObjV),
    SupersetFact(ObjV, ObjV),
    NotSupersetFact(ObjV, ObjV),
    IsSetFact(ObjV),
    NotIsSetFact(ObjV),
    IsNonemptySetFact(ObjV),
    NotIsNonemptySetFact(ObjV),
    IsFiniteSetFact(ObjV),
    NotIsFiniteSetFact(ObjV),
    IsCartFact(ObjV),
    NotIsCartFact(ObjV),
    IsTupleFact(ObjV),
    NotIsTupleFact(ObjV),
    NormalAtomicFact(Seq<char>, Seq<ObjV>),
    NotNormalAtomicFact(Seq<char>, Seq<ObjV>),
    FnEqualFact(ObjV, ObjV),
    FnEqualInFact(ObjV, ObjV, ObjV),
}

impl View for AtomicFact {
    type V = AtomicFactV;

    open spec fn view(&self) -> AtomicFactV {
        match self {
            AtomicFact::EqualFact(a, b) => AtomicFactV::EqualFact(a@, b@),
            AtomicFact::NotEqualFact(a, b) => AtomicFactV::NotEqualFact(a@, b@),
            AtomicFact::LessFact(a, b) => AtomicFactV::LessFact(a@, b@),
            AtomicFact::NotLessFact(a, b) => AtomicFactV::NotLessFact(a@, b@),
            AtomicFact::LessEqualFact(a, b) => AtomicFactV::LessEqualFact(a@, b@),
            AtomicFact::NotLessEqualFact(a, b) => AtomicFactV::NotLessEqualFact(a@, b@),
            AtomicFact::GreaterFact(a, b) => AtomicFactV::GreaterFact(a@, b@),
            AtomicFact::NotGreaterFact(a, b) => AtomicFactV::NotGreaterFact(a@, b@),
            AtomicFact::GreaterEqualFact(a, b) => AtomicFactV::GreaterEqualFact(a@, b@),
            AtomicFact::NotGreaterEqualFact(a, b) => AtomicFactV::NotGreaterEqualFact(a@, b@),
            AtomicFact::InFact(a, b) => AtomicFactV::InFact(a@, b@),
            AtomicFact::NotInFact(a, b) => AtomicFactV::NotInFact(a@, b@),
            AtomicFact::SubsetFact(a, b) => AtomicFactV::SubsetFact(a@, b@),
            AtomicFact::NotSubsetFact(a, b) => AtomicFactV::NotSubsetFact(a@, b@),
            AtomicFact::SupersetFact(a, b) => AtomicFactV::SupersetFact(a@, b@),
            AtomicFact::NotSupersetFact(a, b) => AtomicFactV::NotSupersetFact(a@, b@),
            AtomicFact::IsSetFact(a) => AtomicFactV::IsSetFact(a@),
            AtomicFact::NotIsSetFact(a) => AtomicFactV::NotIsSetFact(a@),
            AtomicFact::IsNonemptySetFact(a) => AtomicFactV::IsNonemptySetFact(a@),
            AtomicFact::NotIsNonemptySetFact(a) => AtomicFactV::NotIsNonemptySetFact(a@),
            AtomicFact::IsFiniteSetFact(a) => AtomicFactV::IsFiniteSetFact(a@),
            AtomicFact::NotIsFiniteSetFact(a) => AtomicFactV::NotIsFiniteSetFact(a@),
            AtomicFact::IsCartFact(a) => AtomicFactV::IsCartFact(a@),
            AtomicFact::NotIsCartFact(a) => AtomicFactV::NotIsCartFact(a@),
            AtomicFact::IsTupleFact(a) => AtomicFactV::IsTupleFact(a@),
            AtomicFact::NotIsTupleFact(a) => AtomicFactV::NotIsTupleFact(a@),
            AtomicFact::NormalAtomicFact(a, b) => AtomicFactV::NormalAtomicFact(a@, view_list(b@)),
            AtomicFact::NotNormalAtomicFact(a, b) => AtomicFactV::NotNormalAtomicFact(a@, view_list(b@)),
            AtomicFact::FnEqualFact(a, b) => AtomicFactV::FnEqualFact(a@, b@),
            AtomicFact::FnEqualInFact(a, b, c) => AtomicFactV::FnEqualInFact(a@, b@, c@),
        }
    }
}

/// The negation of a fact (`$fn_eq` facts have none and stay as they are).
pub open spec fn reversed_fact(f: AtomicFactV) -> AtomicFactV {
    match f {
        AtomicFactV::EqualFact(a, b) => AtomicFactV::NotEqualFact(a, b),
        AtomicFactV::NotEqualFact(a, b) => AtomicFactV::EqualFact(a, b),
        AtomicFactV::LessFact(a, b) => AtomicFactV::NotLessFact(a, b),
        AtomicFactV::NotLessFact(a, b) => AtomicFactV::LessFact(a, b),
        AtomicFactV::LessEqualFact(a, b) => AtomicFactV::NotLessEqualFact(a, b),
        AtomicFactV::NotLessEqualFact(a, b) => AtomicFactV::LessEqualFact(a, b),
        AtomicFactV::GreaterFact(a, b) => AtomicFactV::NotGreaterFact(a, b),
        AtomicFactV::NotGreaterFact(a, b) => AtomicFactV::GreaterFact(a, b),
        AtomicFactV::GreaterEqualFact(a, b) => AtomicFactV::NotGreaterEqualFact(a, b),
        AtomicFactV::NotGreaterEqualFact(a, b) => AtomicFactV::GreaterEqualFact(a, b),
        AtomicFactV::InFact(a, b) => AtomicFactV::NotInFact(a, b),
        AtomicFactV::NotInFact(a, b) => AtomicFactV::InFact(a, b),
        AtomicFactV::SubsetFact(a, b) => AtomicFactV::NotSubsetFact(a, b),
        AtomicFactV::NotSubsetFact(a, b) => AtomicFactV::SubsetFact(a, b),
        AtomicFactV::SupersetFact(a, b) => AtomicFactV::NotSupersetFact(a, b),
        AtomicFactV::NotSupersetFact(a, b) => AtomicFactV::SupersetFact(a, b),
        AtomicFactV::IsSetFact(a) => AtomicFactV::NotIsSetFact(a),
        AtomicFactV::NotIsSetFact(a) => AtomicFactV::IsSetFact(a),
        AtomicFactV::IsNonemptySetFact(a) => AtomicFactV::NotIsNonemptySetFact(a),
        AtomicFactV::NotIsNonemptySetFact(a) => AtomicFactV::IsNonemptySetFact(a),
        AtomicFactV::IsFiniteSetFact(a) => AtomicFactV::NotIsFiniteSetFact(a),
        AtomicFactV::NotIsFiniteSetFact(a) => AtomicFactV::IsFiniteSetFact(a),
        AtomicFactV::IsCartFact(a) => AtomicFactV::NotIsCartFact(a),
        AtomicFactV::NotIsCartFact(a) => AtomicFactV::IsCartFact(a),
        AtomicFactV::IsTupleFact(a) => AtomicFactV::NotIsTupleFact(a),
        AtomicFactV::NotIsTupleFact(a) => AtomicFactV::IsTupleFact(a),
        AtomicFactV::NormalAtomicFact(a, b) => AtomicFactV::NotNormalAtomicFact(a, b),
        AtomicFactV::NotNormalAtomicFact(a, b) => AtomicFactV::NormalAtomicFact(a, b),
        AtomicFactV::FnEqualFact(a, b) => AtomicFactV::FnEqualFact(a, b),
        AtomicFactV::FnEqualInFact(a, b, c) => AtomicFactV::FnEqualInFact(a, b, c),
    }
}

/// Whether a fact is written positively (not as a negation).
pub open spec fn fact_is_positive(f: AtomicFactV) -> bool {
    match f {
        AtomicFactV::EqualFact(..) => true,
        AtomicFactV::NotEqualFact(..) => false,
        AtomicFactV::LessFact(..) => true,
        AtomicFactV::NotLessFact(..) => false,
        AtomicFactV::LessEqualFact(..) => true,
        AtomicFactV::NotLessEqualFact(..) => false,
        AtomicFactV::GreaterFact(..) => true,
        AtomicFactV::NotGreaterFact(..) => false,
        AtomicFactV::GreaterEqualFact(..) => true,
        AtomicFactV::NotGreaterEqualFact(..) => false,
        AtomicFactV::InFact(..) => true,
        AtomicFactV::NotInFact(..) => false,
        AtomicFactV::SubsetFact(..) => true,
        AtomicFactV::NotSubsetFact(..) => false,
        AtomicFactV::SupersetFact(..) => true,
        AtomicFactV::NotSupersetFact(..) => false,
        AtomicFactV::IsSetFact(..) => true,
        AtomicFactV::NotIsSetFact(..) => false,
        AtomicFactV::IsNonemptySetFact(..) => true,
        AtomicFactV::NotIsNonemptySetFact(..) => false,
        AtomicFactV::IsFiniteSetFact(..) => true,
        AtomicFactV::NotIsFiniteSetFact(..) => false,
        AtomicFactV::IsCartFact(..) => true,
        AtomicFactV::NotIsCartFact(..) => false,
        AtomicFactV::IsTupleFact(..) => true,
        AtomicFactV::NotIsTupleFact(..) => false,
        AtomicFactV::NormalAtomicFact(..) => true,
        AtomicFactV::NotNormalAtomicFact(..) => false,
        AtomicFactV::FnEqualFact(..) => true,
        AtomicFactV::FnEqualInFact(..) => true,
    }
}

/// The object arguments of a fact, in order.
pub open spec fn fact_args(f: AtomicFactV) -> Seq<ObjV> {
    match f {
        AtomicFactV::EqualFact(a, b) => seq![a, b],
        AtomicFactV::NotEqualFact(a, b) => seq![a, b],
        AtomicFactV::LessFact(a, b) => seq![a, b],
        AtomicFactV::NotLessFact(a, b) => seq![a, b],
        AtomicFactV::LessEqualFact(a, b) => seq![a, b],
        AtomicFactV::NotLessEqualFact(a, b) => seq![a, b],
        AtomicFactV::GreaterFact(a, b) => seq![a, b],
        AtomicFactV::NotGreaterFact(a, b) => seq![a, b],
        AtomicFactV::GreaterEqualFact(a, b) => seq![a, b],
        AtomicFactV::NotGreaterEqualFact(a, b) => seq![a, b],
        AtomicFactV::InFact(a, b) => seq![a, b],
        AtomicFactV::NotInFact(a, b) => seq![a, b],
        AtomicFactV::SubsetFact(a, b) => seq![a, b],
        AtomicFactV::NotSubsetFact(a, b) => seq![a, b],
        AtomicFactV::SupersetFact(a, b) => seq![a, b],
        AtomicFactV::NotSupersetFact(a, b) => seq![a, b],
        AtomicFactV::IsSetFact(a) => seq![a],
        AtomicFactV::NotIsSetFact(a) => seq![a],
        AtomicFactV::IsNonemptySetFact(a) => seq![a],
        AtomicFactV::NotIsNonemptySetFact(a) => seq![a],
        AtomicFactV::IsFiniteSetFact(a) => seq![a],
        AtomicFactV::NotIsFiniteSetFact(a) => seq![a],
        AtomicFactV::IsCartFact(a) => seq![a],
        AtomicFactV::NotIsCartFact(a) => seq![a],
        AtomicFactV::IsTupleFact(a) => seq![a],
        AtomicFactV::NotIsTupleFact(a) => seq![a],
        AtomicFactV::NormalAtomicFact(a, b) => b,
        AtomicFactV::NotNormalAtomicFact(a, b) => b,
        AtomicFactV::FnEqualFact(a, b) => seq![a, b],
        AtomicFactV::FnEqualInFact(a, b, c) => seq![a, b, c],
    }
}

/// Whether two facts state the same relation (same variant, and for a
/// user proposition the same name).
pub open spec fn same_relation(f: AtomicFactV, g: AtomicFactV) -> bool {
    match (f, g) {
        (AtomicFactV::EqualFact(..), AtomicFactV::EqualFact(..)) => true,
        (AtomicFactV::NotEqualFact(..), AtomicFactV::NotEqualFact(..)) => true,
        (AtomicFactV::LessFact(..), AtomicFactV::LessFact(..)) => true,
        (AtomicFactV::NotLessFact(..), AtomicFactV::NotLessFact(..)) => true,
        (AtomicFactV::LessEqualFact(..), AtomicFactV::LessEqualFact(..)) => true,
        (AtomicFactV::NotLessEqualFact(..), AtomicFactV::NotLessEqualFact(..)) => true,
        (AtomicFactV::GreaterFact(..), AtomicFactV::GreaterFact(..)) => true,
        (AtomicFactV::NotGreaterFact(..), AtomicFactV::NotGreaterFact(..)) => true,
        (AtomicFactV::GreaterEqualFact(..), AtomicFactV::GreaterEqualFact(..)) => true,
        (AtomicFactV::NotGreaterEqualFact(..), AtomicFactV::NotGreaterEqualFact(..)) => true,
        (AtomicFactV::InFact(..), AtomicFactV::InFact(..)) => true,
        (AtomicFactV::NotInFact(..), AtomicFactV::NotInFact(..)) => true,
        (AtomicFactV::SubsetFact(..), AtomicFactV::SubsetFact(..)) => true,
        (AtomicFactV::NotSubsetFact(..), AtomicFactV::NotSubsetFact(..)) => true,
        (AtomicFactV::SupersetFact(..), AtomicFactV::SupersetFact(..)) => true,
        (AtomicFactV::NotSupersetFact(..), AtomicFactV::NotSupersetFact(..)) => true,
        (AtomicFactV::IsSetFact(..), AtomicFactV::IsSetFact(..)) => true,
        (AtomicFactV::NotIsSetFact(..), AtomicFactV::NotIsSetFact(..)) => true,
        (AtomicFactV::IsNonemptySetFact(..), AtomicFactV::IsNonemptySetFact(..)) => true,
        (AtomicFactV::NotIsNonemptySetFact(..), AtomicFactV::NotIsNonemptySetFact(..)) => true,
        (AtomicFactV::IsFiniteSetFact(..), AtomicFactV::IsFiniteSetFact(..)) => true,
        (AtomicFactV::NotIsFiniteSetFact(..), AtomicFactV::NotIsFiniteSetFact(..)) => true,
        (AtomicFactV::IsCartFact(..), AtomicFactV::IsCartFact(..)) => true,
        (AtomicFactV::NotIsCartFact(..), AtomicFactV::NotIsCartFact(..)) => true,
        (AtomicFactV::IsTupleFact(..), AtomicFactV::IsTupleFact(..)) => true,
        (AtomicFactV::NotIsTupleFact(..), AtomicFactV::NotIsTupleFact(..)) => true,
        (AtomicFactV::NormalAtomicFact(p, _), AtomicFactV::NormalAtomicFact(q, _)) => p == q,
        (AtomicFactV::NotNormalAtomicFact(p, _), AtomicFactV::NotNormalAtomicFact(q, _)) => p == q,
        (AtomicFactV::FnEqualFact(..), AtomicFactV::FnEqualFact(..)) => true,
        (AtomicFactV::FnEqualInFact(..), AtomicFactV::FnEqualInFact(..)) => true,
        _ => false,
    }
}

impl AtomicFact {
    /// A copy of the fact.
    pub fn duplicate(&self) -> (r: AtomicFact)
        ensures
            r@ == self@,
    {
        match self {
            AtomicFact::EqualFact(a, b) => AtomicFact::EqualFact(a.duplicate(), b.duplicate()),
            AtomicFact::NotEqualFact(a, b) => AtomicFact::NotEqualFact(a.duplicate(), b.duplicate()),
            AtomicFact::LessFact(a, b) => AtomicFact::LessFact(a.duplicate(), b.duplicate()),
            AtomicFact::NotLessFact(a, b) => AtomicFact::NotLessFact(a.duplicate(), b.duplicate()),
            AtomicFact::LessEqualFact(a, b) => AtomicFact::LessEqualFact(a.duplicate(), b.duplicate()),
            AtomicFact::NotLessEqualFact(a, b) => AtomicFact::NotLessEqualFact(a.duplicate(), b.duplicate()),
            AtomicFact::GreaterFact(a, b) => AtomicFact::GreaterFact(a.duplicate(), b.duplicate()),
            AtomicFact::NotGreaterFact(a, b) => AtomicFact::NotGreaterFact(a.duplicate(), b.duplicate()),
            AtomicFact::GreaterEqualFact(a, b) => AtomicFact::GreaterEqualFact(a.duplicate(), b.duplicate()),
            AtomicFact::NotGreaterEqualFact(a, b) => AtomicFact::NotGreaterEqualFact(a.duplicate(), b.duplicate()),
            AtomicFact::InFact(a, b) => AtomicFact::InFact(a.duplicate(), b.duplicate()),
            AtomicFact::NotInFact(a, b) => AtomicFact::NotInFact(a.duplicate(), b.duplicate()),
            AtomicFact::SubsetFact(a, b) => AtomicFact::SubsetFact(a.duplicate(), b.duplicate()),
            AtomicFact::NotSubsetFact(a, b) => AtomicFact::NotSubsetFact(a.duplicate(), b.duplicate()),
            AtomicFact::SupersetFact(a, b) => AtomicFact::SupersetFact(a.duplicate(), b.duplicate()),
            AtomicFact::NotSupersetFact(a, b) => AtomicFact::NotSupersetFact(a.duplicate(), b.duplicate()),
            AtomicFact::IsSetFact(a) => AtomicFact::IsSetFact(a.duplicate()),
            AtomicFact::NotIsSetFact(a) => AtomicFact::NotIsSetFact(a.duplicate()),
            AtomicFact::IsNonemptySetFact(a) => AtomicFact::IsNonemptySetFact(a.duplicate()),
            AtomicFact::NotIsNonemptySetFact(a) => AtomicFact::NotIsNonemptySetFact(a.duplicate()),
            AtomicFact::IsFiniteSetFact(a) => AtomicFact::IsFiniteSetFact(a.duplicate()),
            AtomicFact::NotIsFiniteSetFact(a) => AtomicFact::NotIsFiniteSetFact(a.duplicate()),
            AtomicFact::IsCartFact(a) => AtomicFact::IsCartFact(a.duplicate()),
            AtomicFact::NotIsCartFact(a) => AtomicFact::NotIsCartFact(a.duplicate()),
            AtomicFact::IsTupleFact(a) => AtomicFact::IsTupleFact(a.duplicate()),
            AtomicFact::NotIsTupleFact(a) => AtomicFact::NotIsTupleFact(a.duplicate()),
            AtomicFact::NormalAtomicFact(a, b) => AtomicFact::NormalAtomicFact(a.clone(), duplicate_list(b)),
            AtomicFact::NotNormalAtomicFact(a, b) => AtomicFact::NotNormalAtomicFact(a.clone(), duplicate_list(b)),
            AtomicFact::FnEqualFact(a, b) => AtomicFact::FnEqualFact(a.duplicate(), b.duplicate()),
            AtomicFact::FnEqualInFact(a, b, c) => AtomicFact::FnEqualInFact(a.duplicate(), b.duplicate(), c.duplicate()),
        }
    }

    /// The negation of the fact.
    pub fn make_reversed(&self) -> (r: AtomicFact)
        ensures
            r@ == reversed_fact(self@),
    {
        match self {
            AtomicFact::EqualFact(a, b) => AtomicFact::NotEqualFact(a.duplicate(), b.duplicate()),
            AtomicFact::NotEqualFact(a, b) => AtomicFact::EqualFact(a.duplicate(), b.duplicate()),
            AtomicFact::LessFact(a, b) => AtomicFact::NotLessFact(a.duplicate(), b.duplicate()),
            AtomicFact::NotLessFact(a, b) => AtomicFact::LessFact(a.duplicate(), b.duplicate()),
            AtomicFact::LessEqualFact(a, b) => AtomicFact::NotLessEqualFact(a.duplicate(), b.duplicate()),
            AtomicFact::NotLessEqualFact(a, b) => AtomicFact::LessEqualFact(a.duplicate(), b.duplicate()),
            AtomicFact::GreaterFact(a, b) => AtomicFact::NotGreaterFact(a.duplicate(), b.duplicate()),
            AtomicFact::NotGreaterFact(a, b) => AtomicFact::GreaterFact(a.duplicate(), b.duplicate()),
            AtomicFact::GreaterEqualFact(a, b) => AtomicFact::NotGreaterEqualFact(a.duplicate(), b.duplicate()),
            AtomicFact::NotGreaterEqualFact(a, b) => AtomicFact::GreaterEqualFact(a.duplicate(), b.duplicate()),
            AtomicFact::InFact(a, b) => AtomicFact::NotInFact(a.duplicate(), b.duplicate()),
            AtomicFact::NotInFact(a, b) => AtomicFact::InFact(a.duplicate(), b.duplicate()),
            AtomicFact::SubsetFact(a, b) => AtomicFact::NotSubsetFact(a.duplicate(), b.duplicate()),
            AtomicFact::NotSubsetFact(a, b) => AtomicFact::SubsetFact(a.duplicate(), b.duplicate()),
            AtomicFact::SupersetFact(a, b) => AtomicFact::NotSupersetFact(a.duplicate(), b.duplicate()),
            AtomicFact::NotSupersetFact(a, b) => AtomicFact::SupersetFact(a.duplicate(), b.duplicate()),
            AtomicFact::IsSetFact(a) => AtomicFact::NotIsSetFact(a.duplicate()),
            AtomicFact::NotIsSetFact(a) => AtomicFact::IsSetFact(a.duplicate()),
            AtomicFact::IsNonemptySetFact(a) => AtomicFact::NotIsNonemptySetFact(a.duplicate()),
            AtomicFact::NotIsNonemptySetFact(a) => AtomicFact::IsNonemptySetFact(a.duplicate()),
            AtomicFact::IsFiniteSetFact(a) => AtomicFact::NotIsFiniteSetFact(a.duplicate()),
            AtomicFact::NotIsFiniteSetFact(a) => AtomicFact::IsFiniteSetFact(a.duplicate()),
            AtomicFact::IsCartFact(a) => AtomicFact::NotIsCartFact(a.duplicate()),
            AtomicFact::NotIsCartFact(a) => AtomicFact::IsCartFact(a.duplicate()),
            AtomicFact::IsTupleFact(a) => AtomicFact::NotIsTupleFact(a.duplicate()),
            AtomicFact::NotIsTupleFact(a) => AtomicFact::IsTupleFact(a.duplicate()),
            AtomicFact::NormalAtomicFact(a, b) => AtomicFact::NotNormalAtomicFact(a.clone(), duplicate_list(b)),
            AtomicFact::NotNormalAtomicFact(a, b) => AtomicFact::NormalAtomicFact(a.clone(), duplicate_list(b)),
            AtomicFact::FnEqualFact(a, b) => AtomicFact::FnEqualFact(a.duplicate(), b.duplicate()),
            AtomicFact::FnEqualInFact(a, b, c) => AtomicFact::FnEqualInFact(a.duplicate(), b.duplicate(), c.duplicate()),
        }
    }

    /// Whether the fact is written positively.
    pub fn is_true(&self) -> (r: bool)
        ensures
            r == fact_is_positive(self@),
    {
        match self {
            AtomicFact::EqualFact(..) => true,
            AtomicFact::NotEqualFact(..) => false,
            AtomicFact::LessFact(..) => true,
            AtomicFact::NotLessFact(..) => false,
            AtomicFact::LessEqualFact(..) => true,
            AtomicFact::NotLessEqualFact(..) => false,
            AtomicFact::GreaterFact(..) => true,
            AtomicFact::NotGreaterFact(..) => false,
            AtomicFact::GreaterEqualFact(..) => true,
            AtomicFact::NotGreaterEqualFact(..) => false,
            AtomicFact::InFact(..) => true,
            AtomicFact::NotInFact(..) => false,
            AtomicFact::SubsetFact(..) => true,
            AtomicFact::NotSubsetFact(..) => false,
            AtomicFact::SupersetFact(..) => true,
            AtomicFact::NotSupersetFact(..) => false,
            AtomicFact::IsSetFact(..) => true,
            AtomicFact::NotIsSetFact(..) => false,
            AtomicFact::IsNonemptySetFact(..) => true,
            AtomicFact::NotIsNonemptySetFact(..) => false,
            AtomicFact::IsFiniteSetFact(..) => true,
            AtomicFact::NotIsFiniteSetFact(..) => false,
            AtomicFact::IsCartFact(..) => true,
            AtomicFact::NotIsCartFact(..) => false,
            AtomicFact::IsTupleFact(..) => true,
            AtomicFact::NotIsTupleFact(..) => false,
            AtomicFact::NormalAtomicFact(..) => true,
            AtomicFact::NotNormalAtomicFact(..) => false,
            AtomicFact::FnEqualFact(..) => true,
            AtomicFact::FnEqualInFact(..) => true,
        }
    }

    /// Copies of the object arguments of the fact.
    pub fn args(&self) -> (r: Vec<Obj>)
        ensures
            view_list(r@) == fact_args(self@),
    {
        let mut v: Vec<Obj> = Vec::new();
        match self {
            AtomicFact::EqualFact(a, b) => {
                v.push(a.duplicate());
                v.push(b.duplicate());
            },
            AtomicFact::NotEqualFact(a, b) => {
                v.push(a.duplicate());
                v.push(b.duplicate());
            },
            AtomicFact::LessFact(a, b) => {
                v.push(a.duplicate());
                v.push(b.duplicate());
            },
            AtomicFact::NotLessFact(a, b) => {
                v.push(a.duplicate());
                v.push(b.duplicate());
            },
            AtomicFact::LessEqualFact(a, b) => {
                v.push(a.duplicate());
                v.push(b.duplicate());
            },
            AtomicFact::NotLessEqualFact(a, b) => {
                v.push(a.duplicate());
                v.push(b.duplicate());
            },
            AtomicFact::GreaterFact(a, b) => {
                v.push(a.duplicate());
                v.push(b.duplicate());
            },
            AtomicFact::NotGreaterFact(a, b) => {
                v.push(a.duplicate());
                v.push(b.duplicate());
            },
            AtomicFact::GreaterEqualFact(a, b) => {
                v.push(a.duplicate());
                v.push(b.duplicate());
            },
            AtomicFact::NotGreaterEqualFact(a, b) => {
                v.push(a.duplicate());
                v.push(b.duplicate());
            },
            AtomicFact::InFact(a, b) => {
                v.push(a.duplicate());
                v.push(b.duplicate());
            },
            AtomicFact::NotInFact(a, b) => {
                v.push(a.duplicate());
                v.push(b.duplicate());
            },
            AtomicFact::SubsetFact(a, b) => {
                v.push(a.duplicate());
                v.push(b.duplicate());
            },
            AtomicFact::NotSubsetFact(a, b) => {
                v.push(a.duplicate());
                v.push(b.duplicate());
            },
            AtomicFact::SupersetFact(a, b) => {
                v.push(a.duplicate());
                v.push(b.duplicate());
            },
            AtomicFact::NotSupersetFact(a, b) => {
                v.push(a.duplicate());
                v.push(b.duplicate());
            },
            AtomicFact::IsSetFact(a) => {
                v.push(a.duplicate());
            },
            AtomicFact::NotIsSetFact(a) => {
                v.push(a.duplicate());
            },
            AtomicFact::IsNonemptySetFact(a) => {
                v.push(a.duplicate());
            },
            AtomicFact::NotIsNonemptySetFact(a) => {
                v.push(a.duplicate());
            },
            AtomicFact::IsFiniteSetFact(a) => {
                v.push(a.duplicate());
            },
            AtomicFact::NotIsFiniteSetFact(a) => {
                v.push(a.duplicate());
            },
            AtomicFact::IsCartFact(a) => {
                v.push(a.duplicate());
            },
            AtomicFact::NotIsCartFact(a) => {
                v.push(a.duplicate());
            },
            AtomicFact::IsTupleFact(a) => {
                v.push(a.duplicate());
            },
            AtomicFact::NotIsTupleFact(a) => {
                v.push(a.duplicate());
            },
            AtomicFact::NormalAtomicFact(_, b) => {
                v = duplicate_list(b);
            },
            AtomicFact::NotNormalAtomicFact(_, b) => {
                v = duplicate_list(b);
            },
            AtomicFact::FnEqualFact(a, b) => {
                v.push(a.duplicate());
                v.push(b.duplicate());
            },
            AtomicFact::FnEqualInFact(a, b, c) => {
                v.push(a.duplicate());
                v.push(b.duplicate());
                v.push(c.duplicate());
            },
        }
        proof {
            lemma_view_list(v@);
            assert(view_list(v@) =~= fact_args(self@));
        }
        v
    }

}

/// Literal equality of two facts.
pub fn facts_equal(f: &AtomicFact, g: &AtomicFact) -> (r: bool)
    ensures
        r == (f@ == g@),
{
    match f {
        AtomicFact::EqualFact(a1, b1) => match g {
            AtomicFact::EqualFact(a2, b2) => objs_equal(a1, a2) && objs_equal(b1, b2),
            _ => false,
        },
        AtomicFact::NotEqualFact(a1, b1) => match g {
            AtomicFact::NotEqualFact(a2, b2) => objs_equal(a1, a2) && objs_equal(b1, b2),
            _ => false,
        },
        AtomicFact::LessFact(a1, b1) => match g {
            AtomicFact::LessFact(a2, b2) => objs_equal(a1, a2) && objs_equal(b1, b2),
            _ => false,
        },
        AtomicFact::NotLessFact(a1, b1) => match g {
            AtomicFact::NotLessFact(a2, b2) => objs_equal(a1, a2) && objs_equal(b1, b2),
            _ => false,
        },
        AtomicFact::LessEqualFact(a1, b1) => match g {
            AtomicFact::LessEqualFact(a2, b2) => objs_equal(a1, a2) && objs_equal(b1, b2),
            _ => false,
        },
        AtomicFact::NotLessEqualFact(a1, b1) => match g {
            AtomicFact::NotLessEqualFact(a2, b2) => objs_equal(a1, a2) && objs_equal(b1, b2),
            _ => false,
        },
        AtomicFact::GreaterFact(a1, b1) => match g {
            AtomicFact::GreaterFact(a2, b2) => objs_equal(a1, a2) && objs_equal(b1, b2),
            _ => false,
        },
        AtomicFact::NotGreaterFact(a1, b1) => match g {
            AtomicFact::NotGreaterFact(a2, b2) => objs_equal(a1, a2) && objs_equal(b1, b2),
            _ => false,
        },
        AtomicFact::GreaterEqualFact(a1, b1) => match g {
            AtomicFact::GreaterEqualFact(a2, b2) => objs_equal(a1, a2) && objs_equal(b1, b2),
            _ => false,
        },
        AtomicFact::NotGreaterEqualFact(a1, b1) => match g {
            AtomicFact::NotGreaterEqualFact(a2, b2) => objs_equal(a1, a2) && objs_equal(b1, b2),
            _ => false,
        },
        AtomicFact::InFact(a1, b1) => match g {
            AtomicFact::InFact(a2, b2) => objs_equal(a1, a2) && objs_equal(b1, b2),
            _ => false,
        },
        AtomicFact::NotInFact(a1, b1) => match g {
            AtomicFact::NotInFact(a2, b2) => objs_equal(a1, a2) && objs_equal(b1, b2),
            _ => false,
        },
        AtomicFact::SubsetFact(a1, b1) => match g {
            AtomicFact::SubsetFact(a2, b2) => objs_equal(a1, a2) && objs_equal(b1, b2),
            _ => false,
        },
        AtomicFact::NotSubsetFact(a1, b1) => match g {
            AtomicFact::NotSubsetFact(a2, b2) => objs_equal(a1, a2) && objs_equal(b1, b2),
            _ => false,
        },
        AtomicFact::SupersetFact(a1, b1) => match g {
            AtomicFact::SupersetFact(a2, b2) => objs_equal(a1, a2) && objs_equal(b1, b2),
            _ => false,
        },
        AtomicFact::NotSupersetFact(a1, b1) => match g {
            AtomicFact::NotSupersetFact(a2, b2) => objs_equal(a1, a2) && objs_equal(b1, b2),
            _ => false,
        },
        AtomicFact::IsSetFact(a1) => match g {
            AtomicFact::IsSetFact(a2) => objs_equal(a1, a2),
            _ => false,
        },
        AtomicFact::NotIsSetFact(a1) => match g {
            AtomicFact::NotIsSetFact(a2) => objs_equal(a1, a2),
            _ => false,
        },
        AtomicFact::IsNonemptySetFact(a1) => match g {
            AtomicFact::IsNonemptySetFact(a2) => objs_equal(a1, a2),
            _ => false,
        },
        AtomicFact::NotIsNonemptySetFact(a1) => match g {
            AtomicFact::NotIsNonemptySetFact(a2) => objs_equal(a1, a2),
            _ => false,
        },
        AtomicFact::IsFiniteSetFact(a1) => match g {
            AtomicFact::IsFiniteSetFact(a2) => objs_equal(a1, a2),
            _ => false,
        },
        AtomicFact::NotIsFiniteSetFact(a1) => match g {
            AtomicFact::NotIsFiniteSetFact(a2) => objs_equal(a1, a2),
            _ => false,
        },
        AtomicFact::IsCartFact(a1) => match g {
            AtomicFact::IsCartFact(a2) => objs_equal(a1, a2),
            _ => false,
        },
        AtomicFact::NotIsCartFact(a1) => match g {
            AtomicFact::NotIsCartFact(a2) => objs_equal(a1, a2),
            _ => false,
        },
        AtomicFact::IsTupleFact(a1) => match g {
            AtomicFact::IsTupleFact(a2) => objs_equal(a1, a2),
            _ => false,
        },
        AtomicFact::NotIsTupleFact(a1) => match g {
            AtomicFact::NotIsTupleFact(a2) => objs_equal(a1, a2),
            _ => false,
        },
        AtomicFact::NormalAtomicFact(a1, b1) => match g {
            AtomicFact::NormalAtomicFact(a2, b2) => a1.eq(a2) && obj_lists_equal(b1, b2),
            _ => false,
        },
        AtomicFact::NotNormalAtomicFact(a1, b1) => match g {
            AtomicFact::NotNormalAtomicFact(a2, b2) => a1.eq(a2) && obj_lists_equal(b1, b2),
            _ => false,
        },
        AtomicFact::FnEqualFact(a1, b1) => match g {
            AtomicFact::FnEqualFact(a2, b2) => objs_equal(a1, a2) && objs_equal(b1, b2),
            _ => false,
        },
        AtomicFact::FnEqualInFact(a1, b1, c1) => match g {
            AtomicFact::FnEqualInFact(a2, b2, c2) => objs_equal(a1, a2) && objs_equal(b1, b2) && objs_equal(c1, c2),
            _ => false,
        },
    }
}

/// Whether two facts state the same relation.
pub fn facts_same_relation(f: &AtomicFact, g: &AtomicFact) -> (r: bool)
    ensures
        r == same_relation(f@, g@),
{
    match f {
        AtomicFact::EqualFact(..) => match g {
            AtomicFact::EqualFact(..) => true,
            _ => false,
        },
        AtomicFact::NotEqualFact(..) => match g {
            AtomicFact::NotEqualFact(..) => true,
            _ => false,
        },
        AtomicFact::LessFact(..) => match g {
            AtomicFact::LessFact(..) => true,
            _ => false,
        },
        AtomicFact::NotLessFact(..) => match g {
            AtomicFact::NotLessFact(..) => true,
            _ => false,
        },
        AtomicFact::LessEqualFact(..) => match g {
            AtomicFact::LessEqualFact(..) => true,
            _ => false,
        },
        AtomicFact::NotLessEqualFact(..) => match g {
            AtomicFact::NotLessEqualFact(..) => true,
            _ => false,
        },
        AtomicFact::GreaterFact(..) => match g {
            AtomicFact::GreaterFact(..) => true,
            _ => false,
        },
        AtomicFact::NotGreaterFact(..) => match g {
            AtomicFact::NotGreaterFact(..) => true,
            _ => false,
        },
        AtomicFact::GreaterEqualFact(..) => match g {
            AtomicFact::GreaterEqualFact(..) => true,
            _ => false,
        },
        AtomicFact::NotGreaterEqualFact(..) => match g {
            AtomicFact::NotGreaterEqualFact(..) => true,
            _ => false,
        },
        AtomicFact::InFact(..) => match g {
            AtomicFact::InFact(..) => true,
            _ => false,
        },
        AtomicFact::NotInFact(..) => match g {
            AtomicFact::NotInFact(..) => true,
            _ => false,
        },
        AtomicFact::SubsetFact(..) => match g {
            AtomicFact::SubsetFact(..) => true,
            _ => false,
        },
        AtomicFact::NotSubsetFact(..) => match g {
            AtomicFact::NotSubsetFact(..) => true,
            _ => false,
        },
        AtomicFact::SupersetFact(..) => match g {
            AtomicFact::SupersetFact(..) => true,
            _ => false,
        },
        AtomicFact::NotSupersetFact(..) => match g {
            AtomicFact::NotSupersetFact(..) => true,
            _ => false,
        },
        AtomicFact::IsSetFact(..) => match g {
            AtomicFact::IsSetFact(..) => true,
            _ => false,
        },
        AtomicFact::NotIsSetFact(..) => match g {
            AtomicFact::NotIsSetFact(..) => true,
            _ => false,
        },
        AtomicFact::IsNonemptySetFact(..) => match g {
            AtomicFact::IsNonemptySetFact(..) => true,
            _ => false,
        },
        AtomicFact::NotIsNonemptySetFact(..) => match g {
            AtomicFact::NotIsNonemptySetFact(..) => true,
            _ => false,
        },
        AtomicFact::IsFiniteSetFact(..) => match g {
            AtomicFact::IsFiniteSetFact(..) => true,
            _ => false,
        },
        AtomicFact::NotIsFiniteSetFact(..) => match g {
            AtomicFact::NotIsFiniteSetFact(..) => true,
            _ => false,
        },
        AtomicFact::IsCartFact(..) => match g {
            AtomicFact::IsCartFact(..) => true,
            _ => false,
        },
        AtomicFact::NotIsCartFact(..) => match g {
            AtomicFact::NotIsCartFact(..) => true,
            _ => false,
        },
        AtomicFact::IsTupleFact(..) => match g {
            AtomicFact::IsTupleFact(..) => true,
            _ => false,
        },
        AtomicFact::NotIsTupleFact(..) => match g {
            AtomicFact::NotIsTupleFact(..) => true,
            _ => false,
        },
        AtomicFact::NormalAtomicFact(p, _) => match g {
            AtomicFact::NormalAtomicFact(q, _) => p.eq(q),
            _ => false,
        },
        AtomicFact::NotNormalAtomicFact(p, _) => match g {
            AtomicFact::NotNormalAtomicFact(q, _) => p.eq(q),
            _ => false,
        },
        AtomicFact::FnEqualFact(..) => match g {
            AtomicFact::FnEqualFact(..) => true,
            _ => false,
        },
        AtomicFact::FnEqualInFact(..) => match g {
            AtomicFact::FnEqualInFact(..) => true,
            _ => false,
        },
    }
}

/// Negating a fact twice gives the fact back.
pub proof fn law_reversed_fact_involution(f: AtomicFactV)
    ensures
        reversed_fact(reversed_fact(f)) == f,
{
}

} // verus!
