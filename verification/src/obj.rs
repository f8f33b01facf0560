//! Objects of the language: numbers, names, arithmetic and set expressions.
use vstd::prelude::*;

verus! {

/// The standard number sets.
#[derive(PartialEq, Eq, Structural, Debug, Clone, Copy)]
pub enum StandardSet {
    NPos,
    N,
    Q,
    Z,
    R,
    QPos,
    RPos,
    QNeg,
    ZNeg,
    RNeg,
    QNz,
    ZNz,
    RNz,
}

/// An object (a term) of the language.
#[derive(Debug)]
pub enum Obj {
    /// A name defined in the current module.
    Identifier(String),
    /// A name qualified by a module: `(module, name)`.
    IdentifierWithMod(String, String),
    /// A parameter bound by a universal fact; it matches any object.
    ForallParam(String),
    /// A parameter bound by an existential fact.
    ExistParam(String),
    /// A number literal, held as its normalized decimal string.
    Number(String),
    Add(Box<Obj>, Box<Obj>),
    Sub(Box<Obj>, Box<Obj>),
    Mul(Box<Obj>, Box<Obj>),
    Div(Box<Obj>, Box<Obj>),
    Mod(Box<Obj>, Box<Obj>),
    Pow(Box<Obj>, Box<Obj>),
    MatrixAdd(Box<Obj>, Box<Obj>),
    MatrixSub(Box<Obj>, Box<Obj>),
    MatrixMul(Box<Obj>, Box<Obj>),
    MatrixScalarMul(Box<Obj>, Box<Obj>),
    MatrixPow(Box<Obj>, Box<Obj>),
    Abs(Box<Obj>),
    Sqrt(Box<Obj>),
    /// `log(base, argument)`.
    Log(Box<Obj>, Box<Obj>),
    Max(Box<Obj>, Box<Obj>),
    Min(Box<Obj>, Box<Obj>),
    Union(Box<Obj>, Box<Obj>),
    Intersect(Box<Obj>, Box<Obj>),
    SetMinus(Box<Obj>, Box<Obj>),
    SetDiff(Box<Obj>, Box<Obj>),
    Cup(Box<Obj>),
    Cap(Box<Obj>),
    ListSet(Vec<Obj>),
    /// One of the standard number sets.
    StandardSet(StandardSet),
    Cart(Vec<Obj>),
    CartDim(Box<Obj>),
    Proj(Box<Obj>, Box<Obj>),
    TupleDim(Box<Obj>),
    Tuple(Vec<Obj>),
    FiniteSeqList(Vec<Obj>),
    Count(Box<Obj>),
    FnRange(Box<Obj>),
    Sum(Box<Obj>, Box<Obj>, Box<Obj>),
    Product(Box<Obj>, Box<Obj>, Box<Obj>),
    Range(Box<Obj>, Box<Obj>),
    ClosedRange(Box<Obj>, Box<Obj>),
    FiniteSeqSet(Box<Obj>, Box<Obj>),
    SeqSet(Box<Obj>),
    MatrixSet(Box<Obj>, Box<Obj>, Box<Obj>),
    PowerSet(Box<Obj>),
    ObjAtIndex(Box<Obj>, Box<Obj>),
    /// A function applied to arguments: `(head, arguments)`.
    FnObj(Box<Obj>, Vec<Obj>),
    /// An interval `(start, end, left_closed, right_closed)`.
    Interval(Box<Obj>, Box<Obj>, bool, bool),
}

/// The mathematical value of an [`Obj`]: the same tree, with sequences for
/// strings and lists.
pub enum ObjV {
    Identifier(Seq<char>),
    IdentifierWithMod(Seq<char>, Seq<char>),
    ForallParam(Seq<char>),
    ExistParam(Seq<char>),
    Number(Seq<char>),
    Add(Box<ObjV>, Box<ObjV>),
    Sub(Box<ObjV>, Box<ObjV>),
    Mul(Box<ObjV>, Box<ObjV>),
    Div(Box<ObjV>, Box<ObjV>),
    Mod(Box<ObjV>, Box<ObjV>),
    Pow(Box<ObjV>, Box<ObjV>),
    MatrixAdd(Box<ObjV>, Box<ObjV>),
    MatrixSub(Box<ObjV>, Box<ObjV>),
    MatrixMul(Box<ObjV>, Box<ObjV>),
    MatrixScalarMul(Box<ObjV>, Box<ObjV>),
    MatrixPow(Box<ObjV>, Box<ObjV>),
    Abs(Box<ObjV>),
    Sqrt(Box<ObjV>),
    Log(Box<ObjV>, Box<ObjV>),
    Max(Box<ObjV>, Box<ObjV>),
    Min(Box<ObjV>, Box<ObjV>),
    Union(Box<ObjV>, Box<ObjV>),
    Intersect(Box<ObjV>, Box<ObjV>),
    SetMinus(Box<ObjV>, Box<ObjV>),
    SetDiff(Box<ObjV>, Box<ObjV>),
    Cup(Box<ObjV>),
    Cap(Box<ObjV>),
    ListSet(Seq<ObjV>),
    StandardSet(StandardSet),
    Cart(Seq<ObjV>),
    CartDim(Box<ObjV>),
    Proj(Box<ObjV>, Box<ObjV>),
    TupleDim(Box<ObjV>),
    Tuple(Seq<ObjV>),
    FiniteSeqList(Seq<ObjV>),
    Count(Box<ObjV>),
    FnRange(Box<ObjV>),
    Sum(Box<ObjV>, Box<ObjV>, Box<ObjV>),
    Product(Box<ObjV>, Box<ObjV>, Box<ObjV>),
    Range(Box<ObjV>, Box<ObjV>),
    ClosedRange(Box<ObjV>, Box<ObjV>),
    FiniteSeqSet(Box<ObjV>, Box<ObjV>),
    SeqSet(Box<ObjV>),
    MatrixSet(Box<ObjV>, Box<ObjV>, Box<ObjV>),
    PowerSet(Box<ObjV>),
    ObjAtIndex(Box<ObjV>, Box<ObjV>),
    FnObj(Box<ObjV>, Seq<ObjV>),
    Interval(Box<ObjV>, Box<ObjV>, bool, bool),
}

pub open spec fn view_list(s: Seq<Obj>) -> Seq<ObjV>
    decreases s,
{
    if s.len() == 0 {
        Seq::empty()
    } else {
        proof {
            assert(decreases_to!(s => s.drop_last()));
        }
        view_list(s.drop_last()).push(view_obj(s.last()))
    }
}

pub open spec fn view_obj(o: Obj) -> ObjV
    decreases o,
{
    match o {
        Obj::Identifier(a) => ObjV::Identifier(a@),
        Obj::IdentifierWithMod(a, b) => ObjV::IdentifierWithMod(a@, b@),
        Obj::ForallParam(a) => ObjV::ForallParam(a@),
        Obj::ExistParam(a) => ObjV::ExistParam(a@),
        Obj::Number(a) => ObjV::Number(a@),
        Obj::Add(a, b) => ObjV::Add(Box::new(view_obj(*a)), Box::new(view_obj(*b))),
        Obj::Sub(a, b) => ObjV::Sub(Box::new(view_obj(*a)), Box::new(view_obj(*b))),
        Obj::Mul(a, b) => ObjV::Mul(Box::new(view_obj(*a)), Box::new(view_obj(*b))),
        Obj::Div(a, b) => ObjV::Div(Box::new(view_obj(*a)), Box::new(view_obj(*b))),
        Obj::Mod(a, b) => ObjV::Mod(Box::new(view_obj(*a)), Box::new(view_obj(*b))),
        Obj::Pow(a, b) => ObjV::Pow(Box::new(view_obj(*a)), Box::new(view_obj(*b))),
        Obj::MatrixAdd(a, b) => ObjV::MatrixAdd(Box::new(view_obj(*a)), Box::new(view_obj(*b))),
        Obj::MatrixSub(a, b) => ObjV::MatrixSub(Box::new(view_obj(*a)), Box::new(view_obj(*b))),
        Obj::MatrixMul(a, b) => ObjV::MatrixMul(Box::new(view_obj(*a)), Box::new(view_obj(*b))),
        Obj::MatrixScalarMul(a, b) => ObjV::MatrixScalarMul(Box::new(view_obj(*a)), Box::new(view_obj(*b))),
        Obj::MatrixPow(a, b) => ObjV::MatrixPow(Box::new(view_obj(*a)), Box::new(view_obj(*b))),
        Obj::Abs(a) => ObjV::Abs(Box::new(view_obj(*a))),
        Obj::Sqrt(a) => ObjV::Sqrt(Box::new(view_obj(*a))),
        Obj::Log(a, b) => ObjV::Log(Box::new(view_obj(*a)), Box::new(view_obj(*b))),
        Obj::Max(a, b) => ObjV::Max(Box::new(view_obj(*a)), Box::new(view_obj(*b))),
        Obj::Min(a, b) => ObjV::Min(Box::new(view_obj(*a)), Box::new(view_obj(*b))),
        Obj::Union(a, b) => ObjV::Union(Box::new(view_obj(*a)), Box::new(view_obj(*b))),
        Obj::Intersect(a, b) => ObjV::Intersect(Box::new(view_obj(*a)), Box::new(view_obj(*b))),
        Obj::SetMinus(a, b) => ObjV::SetMinus(Box::new(view_obj(*a)), Box::new(view_obj(*b))),
        Obj::SetDiff(a, b) => ObjV::SetDiff(Box::new(view_obj(*a)), Box::new(view_obj(*b))),
        Obj::Cup(a) => ObjV::Cup(Box::new(view_obj(*a))),
        Obj::Cap(a) => ObjV::Cap(Box::new(view_obj(*a))),
        Obj::ListSet(v) => ObjV::ListSet(view_list(v@)),
        Obj::StandardSet(s) => ObjV::StandardSet(s),
        Obj::Cart(v) => ObjV::Cart(view_list(v@)),
        Obj::CartDim(a) => ObjV::CartDim(Box::new(view_obj(*a))),
        Obj::Proj(a, b) => ObjV::Proj(Box::new(view_obj(*a)), Box::new(view_obj(*b))),
        Obj::TupleDim(a) => ObjV::TupleDim(Box::new(view_obj(*a))),
        Obj::Tuple(v) => ObjV::Tuple(view_list(v@)),
        Obj::FiniteSeqList(v) => ObjV::FiniteSeqList(view_list(v@)),
        Obj::Count(a) => ObjV::Count(Box::new(view_obj(*a))),
        Obj::FnRange(a) => ObjV::FnRange(Box::new(view_obj(*a))),
        Obj::Sum(a, b, c) => ObjV::Sum(
            Box::new(view_obj(*a)),
            Box::new(view_obj(*b)),
            Box::new(view_obj(*c)),
        ),
        Obj::Product(a, b, c) => ObjV::Product(
            Box::new(view_obj(*a)),
            Box::new(view_obj(*b)),
            Box::new(view_obj(*c)),
        ),
        Obj::Range(a, b) => ObjV::Range(Box::new(view_obj(*a)), Box::new(view_obj(*b))),
        Obj::ClosedRange(a, b) => ObjV::ClosedRange(Box::new(view_obj(*a)), Box::new(view_obj(*b))),
        Obj::FiniteSeqSet(a, b) => ObjV::FiniteSeqSet(Box::new(view_obj(*a)), Box::new(view_obj(*b))),
        Obj::SeqSet(a) => ObjV::SeqSet(Box::new(view_obj(*a))),
        Obj::MatrixSet(a, b, c) => ObjV::MatrixSet(
            Box::new(view_obj(*a)),
            Box::new(view_obj(*b)),
            Box::new(view_obj(*c)),
        ),
        Obj::PowerSet(a) => ObjV::PowerSet(Box::new(view_obj(*a))),
        Obj::ObjAtIndex(a, b) => ObjV::ObjAtIndex(Box::new(view_obj(*a)), Box::new(view_obj(*b))),
        Obj::FnObj(h, v) => ObjV::FnObj(Box::new(view_obj(*h)), view_list(v@)),
        Obj::Interval(a, b, l, r) => ObjV::Interval(Box::new(view_obj(*a)), Box::new(view_obj(*b)), l, r),
    }
}

impl View for Obj {
    type V = ObjV;

    open spec fn view(&self) -> ObjV {
        view_obj(*self)
    }
}

/// The view of a list is the list of views.
pub proof fn lemma_view_list(s: Seq<Obj>)
    ensures
        view_list(s).len() == s.len(),
        forall|i: int| 0 <= i < s.len() ==> #[trigger] view_list(s)[i] == s[i]@,
    decreases s.len(),
{
    if s.len() > 0 {
        lemma_view_list(s.drop_last());
    }
}

/// Two lists have equal views exactly when they have equal length and equal views at each index.
pub proof fn lemma_view_list_eq(s: Seq<Obj>, t: Seq<Obj>)
    ensures
        (view_list(s) == view_list(t)) == (s.len() == t.len() && forall|i: int|
            0 <= i < s.len() ==> #[trigger] s[i]@ == t[i]@),
{
    lemma_view_list(s);
    lemma_view_list(t);
    if s.len() == t.len() && forall|i: int| 0 <= i < s.len() ==> #[trigger] s[i]@ == t[i]@ {
        assert(view_list(s) =~= view_list(t));
    }
    if view_list(s) == view_list(t) {
        assert forall|i: int| 0 <= i < s.len() implies #[trigger] s[i]@ == t[i]@ by {
            assert(view_list(s)[i] == view_list(t)[i]);
        }
    }
}

/// Literal equality: the two objects are the same tree.
pub fn objs_equal(a: &Obj, b: &Obj) -> (r: bool)
    ensures
        r == (a@ == b@),
    decreases a,
{
    match a {
        Obj::Identifier(x) => match b {
            Obj::Identifier(y) => x.eq(y),
            _ => false,
        },
        Obj::IdentifierWithMod(x1, x2) => match b {
            Obj::IdentifierWithMod(y1, y2) => x1.eq(y1) && x2.eq(y2),
            _ => false,
        },
        Obj::ForallParam(x) => match b {
            Obj::ForallParam(y) => x.eq(y),
            _ => false,
        },
        Obj::ExistParam(x) => match b {
            Obj::ExistParam(y) => x.eq(y),
            _ => false,
        },
        Obj::Number(x) => match b {
            Obj::Number(y) => x.eq(y),
            _ => false,
        },
        Obj::Add(x1, x2) => match b {
            Obj::Add(y1, y2) => objs_equal(x1, y1) && objs_equal(x2, y2),
            _ => false,
        },
        Obj::Sub(x1, x2) => match b {
            Obj::Sub(y1, y2) => objs_equal(x1, y1) && objs_equal(x2, y2),
            _ => false,
        },
        Obj::Mul(x1, x2) => match b {
            Obj::Mul(y1, y2) => objs_equal(x1, y1) && objs_equal(x2, y2),
            _ => false,
        },
        Obj::Div(x1, x2) => match b {
            Obj::Div(y1, y2) => objs_equal(x1, y1) && objs_equal(x2, y2),
            _ => false,
        },
        Obj::Mod(x1, x2) => match b {
            Obj::Mod(y1, y2) => objs_equal(x1, y1) && objs_equal(x2, y2),
            _ => false,
        },
        Obj::Pow(x1, x2) => match b {
            Obj::Pow(y1, y2) => objs_equal(x1, y1) && objs_equal(x2, y2),
            _ => false,
        },
        Obj::MatrixAdd(x1, x2) => match b {
            Obj::MatrixAdd(y1, y2) => objs_equal(x1, y1) && objs_equal(x2, y2),
            _ => false,
        },
        Obj::MatrixSub(x1, x2) => match b {
            Obj::MatrixSub(y1, y2) => objs_equal(x1, y1) && objs_equal(x2, y2),
            _ => false,
        },
        Obj::MatrixMul(x1, x2) => match b {
            Obj::MatrixMul(y1, y2) => objs_equal(x1, y1) && objs_equal(x2, y2),
            _ => false,
        },
        Obj::MatrixScalarMul(x1, x2) => match b {
            Obj::MatrixScalarMul(y1, y2) => objs_equal(x1, y1) && objs_equal(x2, y2),
            _ => false,
        },
        Obj::MatrixPow(x1, x2) => match b {
            Obj::MatrixPow(y1, y2) => objs_equal(x1, y1) && objs_equal(x2, y2),
            _ => false,
        },
        Obj::Abs(x) => match b {
            Obj::Abs(y) => objs_equal(x, y),
            _ => false,
        },
        Obj::Sqrt(x) => match b {
            Obj::Sqrt(y) => objs_equal(x, y),
            _ => false,
        },
        Obj::Log(x1, x2) => match b {
            Obj::Log(y1, y2) => objs_equal(x1, y1) && objs_equal(x2, y2),
            _ => false,
        },
        Obj::Max(x1, x2) => match b {
            Obj::Max(y1, y2) => objs_equal(x1, y1) && objs_equal(x2, y2),
            _ => false,
        },
        Obj::Min(x1, x2) => match b {
            Obj::Min(y1, y2) => objs_equal(x1, y1) && objs_equal(x2, y2),
            _ => false,
        },
        Obj::Union(x1, x2) => match b {
            Obj::Union(y1, y2) => objs_equal(x1, y1) && objs_equal(x2, y2),
            _ => false,
        },
        Obj::Intersect(x1, x2) => match b {
            Obj::Intersect(y1, y2) => objs_equal(x1, y1) && objs_equal(x2, y2),
            _ => false,
        },
        Obj::SetMinus(x1, x2) => match b {
            Obj::SetMinus(y1, y2) => objs_equal(x1, y1) && objs_equal(x2, y2),
            _ => false,
        },
        Obj::SetDiff(x1, x2) => match b {
            Obj::SetDiff(y1, y2) => objs_equal(x1, y1) && objs_equal(x2, y2),
            _ => false,
        },
        Obj::Cup(x) => match b {
            Obj::Cup(y) => objs_equal(x, y),
            _ => false,
        },
        Obj::Cap(x) => match b {
            Obj::Cap(y) => objs_equal(x, y),
            _ => false,
        },
        Obj::ListSet(x) => match b {
            Obj::ListSet(y) => obj_lists_equal(x, y),
            _ => false,
        },
        Obj::StandardSet(x) => match b {
            Obj::StandardSet(y) => *x == *y,
            _ => false,
        },
        Obj::Cart(x) => match b {
            Obj::Cart(y) => obj_lists_equal(x, y),
            _ => false,
        },
        Obj::CartDim(x) => match b {
            Obj::CartDim(y) => objs_equal(x, y),
            _ => false,
        },
        Obj::Proj(x1, x2) => match b {
            Obj::Proj(y1, y2) => objs_equal(x1, y1) && objs_equal(x2, y2),
            _ => false,
        },
        Obj::TupleDim(x) => match b {
            Obj::TupleDim(y) => objs_equal(x, y),
            _ => false,
        },
        Obj::Tuple(x) => match b {
            Obj::Tuple(y) => obj_lists_equal(x, y),
            _ => false,
        },
        Obj::FiniteSeqList(x) => match b {
            Obj::FiniteSeqList(y) => obj_lists_equal(x, y),
            _ => false,
        },
        Obj::Count(x) => match b {
            Obj::Count(y) => objs_equal(x, y),
            _ => false,
        },
        Obj::FnRange(x) => match b {
            Obj::FnRange(y) => objs_equal(x, y),
            _ => false,
        },
        Obj::Sum(x1, x2, x3) => match b {
            Obj::Sum(y1, y2, y3) => objs_equal(x1, y1) && objs_equal(x2, y2) && objs_equal(x3, y3),
            _ => false,
        },
        Obj::Product(x1, x2, x3) => match b {
            Obj::Product(y1, y2, y3) => objs_equal(x1, y1) && objs_equal(x2, y2) && objs_equal(x3, y3),
            _ => false,
        },
        Obj::Range(x1, x2) => match b {
            Obj::Range(y1, y2) => objs_equal(x1, y1) && objs_equal(x2, y2),
            _ => false,
        },
        Obj::ClosedRange(x1, x2) => match b {
            Obj::ClosedRange(y1, y2) => objs_equal(x1, y1) && objs_equal(x2, y2),
            _ => false,
        },
        Obj::FiniteSeqSet(x1, x2) => match b {
            Obj::FiniteSeqSet(y1, y2) => objs_equal(x1, y1) && objs_equal(x2, y2),
            _ => false,
        },
        Obj::SeqSet(x) => match b {
            Obj::SeqSet(y) => objs_equal(x, y),
            _ => false,
        },
        Obj::MatrixSet(x1, x2, x3) => match b {
            Obj::MatrixSet(y1, y2, y3) => objs_equal(x1, y1) && objs_equal(x2, y2) && objs_equal(x3, y3),
            _ => false,
        },
        Obj::PowerSet(x) => match b {
            Obj::PowerSet(y) => objs_equal(x, y),
            _ => false,
        },
        Obj::ObjAtIndex(x1, x2) => match b {
            Obj::ObjAtIndex(y1, y2) => objs_equal(x1, y1) && objs_equal(x2, y2),
            _ => false,
        },
        Obj::FnObj(h1, x) => match b {
            Obj::FnObj(h2, y) => objs_equal(h1, h2) && obj_lists_equal(x, y),
            _ => false,
        },
        Obj::Interval(x1, x2, l1, r1) => match b {
            Obj::Interval(y1, y2, l2, r2) => *l1 == *l2 && *r1 == *r2 && objs_equal(x1, y1) && objs_equal(x2, y2),
            _ => false,
        },
    }
}

/// Literal equality of two lists of objects.
pub fn obj_lists_equal(x: &Vec<Obj>, y: &Vec<Obj>) -> (r: bool)
    ensures
        r == (view_list(x@) == view_list(y@)),
    decreases x,
{
    proof {
        lemma_view_list_eq(x@, y@);
    }
    if x.len() != y.len() {
        return false;
    }
    let mut i: usize = 0;
    while i < x.len()
        invariant
            i <= x.len(),
            x.len() == y.len(),
            forall|j: int| 0 <= j < i ==> #[trigger] x@[j]@ == y@[j]@,
        decreases x.len() - i,
    {
        proof {
            vstd::std_specs::vec::axiom_vec_index_decreases(*x, i as int);
        }
        if !objs_equal(&x[i], &y[i]) {
            proof {
                lemma_view_list_eq(x@, y@);
            }
            return false;
        }
        i = i + 1;
    }
    proof {
        lemma_view_list_eq(x@, y@);
    }
    true
}

impl Obj {
    /// A copy of the object.
    pub fn duplicate(&self) -> (r: Obj)
        ensures
            r@ == self@,
        decreases self,
    {
        match self {
            Obj::Identifier(x) => Obj::Identifier(x.clone()),
            Obj::IdentifierWithMod(x1, x2) => Obj::IdentifierWithMod(x1.clone(), x2.clone()),
            Obj::ForallParam(x) => Obj::ForallParam(x.clone()),
            Obj::ExistParam(x) => Obj::ExistParam(x.clone()),
            Obj::Number(x) => Obj::Number(x.clone()),
            Obj::Add(x1, x2) => Obj::Add(Box::new(x1.duplicate()), Box::new(x2.duplicate())),
            Obj::Sub(x1, x2) => Obj::Sub(Box::new(x1.duplicate()), Box::new(x2.duplicate())),
            Obj::Mul(x1, x2) => Obj::Mul(Box::new(x1.duplicate()), Box::new(x2.duplicate())),
            Obj::Div(x1, x2) => Obj::Div(Box::new(x1.duplicate()), Box::new(x2.duplicate())),
            Obj::Mod(x1, x2) => Obj::Mod(Box::new(x1.duplicate()), Box::new(x2.duplicate())),
            Obj::Pow(x1, x2) => Obj::Pow(Box::new(x1.duplicate()), Box::new(x2.duplicate())),
            Obj::MatrixAdd(x1, x2) => Obj::MatrixAdd(Box::new(x1.duplicate()), Box::new(x2.duplicate())),
            Obj::MatrixSub(x1, x2) => Obj::MatrixSub(Box::new(x1.duplicate()), Box::new(x2.duplicate())),
            Obj::MatrixMul(x1, x2) => Obj::MatrixMul(Box::new(x1.duplicate()), Box::new(x2.duplicate())),
            Obj::MatrixScalarMul(x1, x2) => Obj::MatrixScalarMul(Box::new(x1.duplicate()), Box::new(x2.duplicate())),
            Obj::MatrixPow(x1, x2) => Obj::MatrixPow(Box::new(x1.duplicate()), Box::new(x2.duplicate())),
            Obj::Abs(x) => Obj::Abs(Box::new(x.duplicate())),
            Obj::Sqrt(x) => Obj::Sqrt(Box::new(x.duplicate())),
            Obj::Log(x1, x2) => Obj::Log(Box::new(x1.duplicate()), Box::new(x2.duplicate())),
            Obj::Max(x1, x2) => Obj::Max(Box::new(x1.duplicate()), Box::new(x2.duplicate())),
            Obj::Min(x1, x2) => Obj::Min(Box::new(x1.duplicate()), Box::new(x2.duplicate())),
            Obj::Union(x1, x2) => Obj::Union(Box::new(x1.duplicate()), Box::new(x2.duplicate())),
            Obj::Intersect(x1, x2) => Obj::Intersect(Box::new(x1.duplicate()), Box::new(x2.duplicate())),
            Obj::SetMinus(x1, x2) => Obj::SetMinus(Box::new(x1.duplicate()), Box::new(x2.duplicate())),
            Obj::SetDiff(x1, x2) => Obj::SetDiff(Box::new(x1.duplicate()), Box::new(x2.duplicate())),
            Obj::Cup(x) => Obj::Cup(Box::new(x.duplicate())),
            Obj::Cap(x) => Obj::Cap(Box::new(x.duplicate())),
            Obj::ListSet(x) => Obj::ListSet(duplicate_list(x)),
            Obj::StandardSet(s) => Obj::StandardSet(*s),
            Obj::Cart(x) => Obj::Cart(duplicate_list(x)),
            Obj::CartDim(x) => Obj::CartDim(Box::new(x.duplicate())),
            Obj::Proj(x1, x2) => Obj::Proj(Box::new(x1.duplicate()), Box::new(x2.duplicate())),
            Obj::TupleDim(x) => Obj::TupleDim(Box::new(x.duplicate())),
            Obj::Tuple(x) => Obj::Tuple(duplicate_list(x)),
            Obj::FiniteSeqList(x) => Obj::FiniteSeqList(duplicate_list(x)),
            Obj::Count(x) => Obj::Count(Box::new(x.duplicate())),
            Obj::FnRange(x) => Obj::FnRange(Box::new(x.duplicate())),
            Obj::Sum(x1, x2, x3) => Obj::Sum(
                Box::new(x1.duplicate()),
                Box::new(x2.duplicate()),
                Box::new(x3.duplicate()),
            ),
            Obj::Product(x1, x2, x3) => Obj::Product(
                Box::new(x1.duplicate()),
                Box::new(x2.duplicate()),
                Box::new(x3.duplicate()),
            ),
            Obj::Range(x1, x2) => Obj::Range(Box::new(x1.duplicate()), Box::new(x2.duplicate())),
            Obj::ClosedRange(x1, x2) => Obj::ClosedRange(Box::new(x1.duplicate()), Box::new(x2.duplicate())),
            Obj::FiniteSeqSet(x1, x2) => Obj::FiniteSeqSet(Box::new(x1.duplicate()), Box::new(x2.duplicate())),
            Obj::SeqSet(x) => Obj::SeqSet(Box::new(x.duplicate())),
            Obj::MatrixSet(x1, x2, x3) => Obj::MatrixSet(
                Box::new(x1.duplicate()),
                Box::new(x2.duplicate()),
                Box::new(x3.duplicate()),
            ),
            Obj::PowerSet(x) => Obj::PowerSet(Box::new(x.duplicate())),
            Obj::ObjAtIndex(x1, x2) => Obj::ObjAtIndex(Box::new(x1.duplicate()), Box::new(x2.duplicate())),
            Obj::FnObj(h, x) => Obj::FnObj(Box::new(h.duplicate()), duplicate_list(x)),
            Obj::Interval(x1, x2, l, r) => Obj::Interval(Box::new(x1.duplicate()), Box::new(x2.duplicate()), *l, *r),
        }
    }
}

/// A copy of a list of objects.
pub fn duplicate_list(x: &Vec<Obj>) -> (r: Vec<Obj>)
    ensures
        view_list(r@) == view_list(x@),
    decreases x,
{
    let mut out: Vec<Obj> = Vec::new();
    let mut i: usize = 0;
    while i < x.len()
        invariant
            i <= x.len(),
            out.len() == i,
            forall|j: int| 0 <= j < i ==> #[trigger] out@[j]@ == x@[j]@,
        decreases x.len() - i,
    {
        proof {
            vstd::std_specs::vec::axiom_vec_index_decreases(*x, i as int);
        }
        out.push(x[i].duplicate());
        i = i + 1;
    }
    proof {
        lemma_view_list_eq(out@, x@);
    }
    out
}

} // verus!
