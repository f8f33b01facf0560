//! Matching an atomic fact inside a known universal fact against a given
//! fact: finding objects for the universal fact's parameters.
use vstd::prelude::*;
use crate::obj::{Obj, ObjV, StandardSet, view_list, lemma_view_list, objs_equal};
use crate::arg_map::{ArgMap, ArgMapV, merge_maps, merge_arg_match_map_into, merge_arg_match_maps, calc_equal, opt_view, opt_wf, two_objs_can_be_calculated_and_equal_by_calculation};
use crate::abs_order::{neg_one_v, obj_is_literal_neg_one, literal_neg_one_obj};
use crate::standard_sets::{standard_set_subset, standard_set_is_subset_eq};
use crate::runtime::Runtime;

verus! {

broadcast use vstd::string::group_string_axioms;

/// The number of nodes of an object, used to bound the recursion of matching.
pub open spec fn obj_size(o: ObjV) -> nat
    decreases o,
{
    match o {
        ObjV::Identifier(..) => 1,
        ObjV::IdentifierWithMod(..) => 1,
        ObjV::ForallParam(..) => 1,
        ObjV::ExistParam(..) => 1,
        ObjV::Number(..) => 1,
        ObjV::Add(a, b) => 1 + obj_size(*a) + obj_size(*b),
        ObjV::Sub(a, b) => 1 + obj_size(*a) + obj_size(*b),
        ObjV::Mul(a, b) => 1 + obj_size(*a) + obj_size(*b),
        ObjV::Div(a, b) => 1 + obj_size(*a) + obj_size(*b),
        ObjV::Mod(a, b) => 1 + obj_size(*a) + obj_size(*b),
        ObjV::Pow(a, b) => 1 + obj_size(*a) + obj_size(*b),
        ObjV::MatrixAdd(a, b) => 1 + obj_size(*a) + obj_size(*b),
        ObjV::MatrixSub(a, b) => 1 + obj_size(*a) + obj_size(*b),
        ObjV::MatrixMul(a, b) => 1 + obj_size(*a) + obj_size(*b),
        ObjV::MatrixScalarMul(a, b) => 1 + obj_size(*a) + obj_size(*b),
        ObjV::MatrixPow(a, b) => 1 + obj_size(*a) + obj_size(*b),
        ObjV::Abs(a) => 1 + obj_size(*a),
        ObjV::Sqrt(a) => 1 + obj_size(*a),
        ObjV::Log(a, b) => 1 + obj_size(*a) + obj_size(*b),
        ObjV::Max(a, b) => 1 + obj_size(*a) + obj_size(*b),
        ObjV::Min(a, b) => 1 + obj_size(*a) + obj_size(*b),
        ObjV::Union(a, b) => 1 + obj_size(*a) + obj_size(*b),
        ObjV::Intersect(a, b) => 1 + obj_size(*a) + obj_size(*b),
        ObjV::SetMinus(a, b) => 1 + obj_size(*a) + obj_size(*b),
        ObjV::SetDiff(a, b) => 1 + obj_size(*a) + obj_size(*b),
        ObjV::Cup(a) => 1 + obj_size(*a),
        ObjV::Cap(a) => 1 + obj_size(*a),
        ObjV::ListSet(v) => 1 + list_size(v),
        ObjV::StandardSet(..) => 1,
        ObjV::Cart(v) => 1 + list_size(v),
        ObjV::CartDim(a) => 1 + obj_size(*a),
        ObjV::Proj(a, b) => 1 + obj_size(*a) + obj_size(*b),
        ObjV::TupleDim(a) => 1 + obj_size(*a),
        ObjV::Tuple(v) => 1 + list_size(v),
        ObjV::FiniteSeqList(v) => 1 + list_size(v),
        ObjV::Count(a) => 1 + obj_size(*a),
        ObjV::FnRange(a) => 1 + obj_size(*a),
        ObjV::Sum(a, b, c) => 1 + obj_size(*a) + obj_size(*b) + obj_size(*c),
        ObjV::Product(a, b, c) => 1 + obj_size(*a) + obj_size(*b) + obj_size(*c),
        ObjV::Range(a, b) => 1 + obj_size(*a) + obj_size(*b),
        ObjV::ClosedRange(a, b) => 1 + obj_size(*a) + obj_size(*b),
        ObjV::FiniteSeqSet(a, b) => 1 + obj_size(*a) + obj_size(*b),
        ObjV::SeqSet(a) => 1 + obj_size(*a),
        ObjV::MatrixSet(a, b, c) => 1 + obj_size(*a) + obj_size(*b) + obj_size(*c),
        ObjV::PowerSet(a) => 1 + obj_size(*a),
        ObjV::ObjAtIndex(a, b) => 1 + obj_size(*a) + obj_size(*b),
        ObjV::FnObj(h, v) => 1 + obj_size(*h) + list_size(v),
        ObjV::Interval(a, b, _, _) => 1 + obj_size(*a) + obj_size(*b),
    }
}

pub open spec fn list_size(s: Seq<ObjV>) -> nat
    decreases s,
{
    if s.len() == 0 {
        0
    } else {
        proof {
            assert(decreases_to!(s => s.drop_last()));
        }
        list_size(s.drop_last()) + obj_size(s.last())
    }
}

/// Each element is no larger than its list.
pub proof fn lemma_list_size_elem(s: Seq<ObjV>, i: int)
    requires
        0 <= i < s.len(),
    ensures
        obj_size(s[i]) <= list_size(s),
        list_size(s.take(i)) + obj_size(s[i]) <= list_size(s),
    decreases s.len(),
{
    if i < s.len() - 1 {
        lemma_list_size_elem(s.drop_last(), i);
        assert(s.drop_last().take(i) =~= s.take(i));
    } else {
        assert(s.drop_last() =~= s.take(i));
    }
}

/// How a standard set is written.
pub open spec fn standard_set_display(s: StandardSet) -> Seq<char> {
    match s {
        StandardSet::NPos => seq!['N', '_', 'p', 'o', 's'],
        StandardSet::N => seq!['N'],
        StandardSet::Q => seq!['Q'],
        StandardSet::Z => seq!['Z'],
        StandardSet::R => seq!['R'],
        StandardSet::QPos => seq!['Q', '_', 'p', 'o', 's'],
        StandardSet::RPos => seq!['R', '_', 'p', 'o', 's'],
        StandardSet::QNeg => seq!['Q', '_', 'n', 'e', 'g'],
        StandardSet::ZNeg => seq!['Z', '_', 'n', 'e', 'g'],
        StandardSet::RNeg => seq!['R', '_', 'n', 'e', 'g'],
        StandardSet::QNz => seq!['Q', '_', 'n', 'z'],
        StandardSet::ZNz => seq!['Z', '_', 'n', 'z'],
        StandardSet::RNz => seq!['R', '_', 'n', 'z'],
    }
}

/// The written form of a standard set.
pub fn standard_set_name(s: StandardSet) -> (r: String)
    ensures
        r@ == standard_set_display(s),
{
    match s {
        StandardSet::NPos => {
            let lit = "N_pos";
            proof {
                reveal_strlit("N_pos");
                assert(lit@ =~= seq!['N', '_', 'p', 'o', 's']);
            }
            lit.to_string()
        },
        StandardSet::N => {
            let lit = "N";
            proof {
                reveal_strlit("N");
                assert(lit@ =~= seq!['N']);
            }
            lit.to_string()
        },
        StandardSet::Q => {
            let lit = "Q";
            proof {
                reveal_strlit("Q");
                assert(lit@ =~= seq!['Q']);
            }
            lit.to_string()
        },
        StandardSet::Z => {
            let lit = "Z";
            proof {
                reveal_strlit("Z");
                assert(lit@ =~= seq!['Z']);
            }
            lit.to_string()
        },
        StandardSet::R => {
            let lit = "R";
            proof {
                reveal_strlit("R");
                assert(lit@ =~= seq!['R']);
            }
            lit.to_string()
        },
        StandardSet::QPos => {
            let lit = "Q_pos";
            proof {
                reveal_strlit("Q_pos");
                assert(lit@ =~= seq!['Q', '_', 'p', 'o', 's']);
            }
            lit.to_string()
        },
        StandardSet::RPos => {
            let lit = "R_pos";
            proof {
                reveal_strlit("R_pos");
                assert(lit@ =~= seq!['R', '_', 'p', 'o', 's']);
            }
            lit.to_string()
        },
        StandardSet::QNeg => {
            let lit = "Q_neg";
            proof {
                reveal_strlit("Q_neg");
                assert(lit@ =~= seq!['Q', '_', 'n', 'e', 'g']);
            }
            lit.to_string()
        },
        StandardSet::ZNeg => {
            let lit = "Z_neg";
            proof {
                reveal_strlit("Z_neg");
                assert(lit@ =~= seq!['Z', '_', 'n', 'e', 'g']);
            }
            lit.to_string()
        },
        StandardSet::RNeg => {
            let lit = "R_neg";
            proof {
                reveal_strlit("R_neg");
                assert(lit@ =~= seq!['R', '_', 'n', 'e', 'g']);
            }
            lit.to_string()
        },
        StandardSet::QNz => {
            let lit = "Q_nz";
            proof {
                reveal_strlit("Q_nz");
                assert(lit@ =~= seq!['Q', '_', 'n', 'z']);
            }
            lit.to_string()
        },
        StandardSet::ZNz => {
            let lit = "Z_nz";
            proof {
                reveal_strlit("Z_nz");
                assert(lit@ =~= seq!['Z', '_', 'n', 'z']);
            }
            lit.to_string()
        },
        StandardSet::RNz => {
            let lit = "R_nz";
            proof {
                reveal_strlit("R_nz");
                assert(lit@ =~= seq!['R', '_', 'n', 'z']);
            }
            lit.to_string()
        },
    }
}

/// A given standard set binds itself, under its written form.
pub open spec fn same_type_match(g: ObjV) -> Option<ArgMapV> {
    match g {
        ObjV::StandardSet(s) => Some(Map::empty().insert(standard_set_display(s), g)),
        _ => None,
    }
}

/// Fold the matches of corresponding list elements into `acc`, in order.
pub open spec fn match_list_into(acc: Option<ArgMapV>, ks: Seq<ObjV>, gs: Seq<ObjV>) -> Option<ArgMapV>
    decreases ks,
{
    if ks.len() == 0 || gs.len() == 0 {
        acc
    } else {
        proof {
            assert(decreases_to!(ks => ks.drop_last()));
        }
        merge_maps(match_list_into(acc, ks.drop_last(), gs.drop_last()), match_spec(ks.last(), gs.last()))
    }
}

/// Match lists of equal length element by element.
pub open spec fn match_lists(ks: Seq<ObjV>, gs: Seq<ObjV>) -> Option<ArgMapV> {
    if ks.len() == gs.len() {
        match_list_into(Some(Map::empty()), ks, gs)
    } else {
        None
    }
}

pub open spec fn is_number_v(o: ObjV) -> bool {
    o is Number
}

/// What a known object, whose parameters may stand for any objects, binds
/// when matched against a given object; `None` when they do not match.
///
/// A parameter binds the given object. Compound objects match componentwise
/// and the bindings of the parts must agree. A standard set matches any
/// standard set it includes. A sum, difference, product or quotient with a
/// number literal also matches a given object of another form, by moving
/// the literal to the given side (so `x + 1` matches `5` with `x` bound to
/// `5 - 1`).
pub open spec fn match_spec(k: ObjV, g: ObjV) -> Option<ArgMapV>
    decreases k,
{
    match k {
        ObjV::Identifier(_) => if g == k {
            Some(Map::empty())
        } else {
            None
        },
        ObjV::IdentifierWithMod(_, _) => if g == k {
            Some(Map::empty())
        } else {
            None
        },
        ObjV::ForallParam(p) => Some(Map::empty().insert(p, g)),
        ObjV::ExistParam(p) => match g {
            ObjV::ExistParam(_) => Some(Map::empty().insert(p, g)),
            _ => if g == k {
                Some(Map::empty())
            } else {
                None
            },
        },
        ObjV::Number(_) => if is_number_v(g) && calc_equal(k, g) {
            Some(Map::empty())
        } else {
            None
        },
        ObjV::StandardSet(s) => match g {
            ObjV::StandardSet(t) => if standard_set_subset(t, s) {
                same_type_match(g)
            } else {
                None
            },
            _ => None,
        },
        ObjV::Add(l, r) => match g {
            ObjV::Add(gl, gr) => merge_maps(match_spec(*l, *gl), match_spec(*r, *gr)),
            _ => if is_number_v(*l) {
                match_spec(*r, ObjV::Sub(Box::new(g), l))
            } else if is_number_v(*r) {
                match_spec(*l, ObjV::Sub(Box::new(g), r))
            } else {
                None
            },
        },
        ObjV::Sub(l, r) => match g {
            ObjV::Sub(gl, gr) => merge_maps(match_spec(*l, *gl), match_spec(*r, *gr)),
            _ => if is_number_v(*r) {
                match_spec(*l, ObjV::Add(r, Box::new(g)))
            } else if is_number_v(*l) {
                match_spec(*r, ObjV::Sub(l, Box::new(g)))
            } else {
                None
            },
        },
        ObjV::Mul(l, r) => match g {
            ObjV::Mul(gl, gr) => merge_maps(match_spec(*l, *gl), match_spec(*r, *gr)),
            _ => if *l == neg_one_v() {
                match_spec(*r, ObjV::Mul(Box::new(neg_one_v()), Box::new(g)))
            } else if is_number_v(*l) {
                if *l == ObjV::Number(seq!['0']) {
                    None
                } else {
                    match_spec(*r, ObjV::Div(Box::new(g), l))
                }
            } else if is_number_v(*r) {
                match_spec(*l, ObjV::Div(Box::new(g), r))
            } else {
                None
            },
        },
        ObjV::Div(l, r) => match g {
            ObjV::Div(gl, gr) => merge_maps(match_spec(*l, *gl), match_spec(*r, *gr)),
            _ => if is_number_v(*r) {
                match_spec(*l, ObjV::Mul(r, Box::new(g)))
            } else {
                None
            },
        },
        ObjV::Mod(a, b) => match g {
            ObjV::Mod(ga, gb) => merge_maps(match_spec(*a, *ga), match_spec(*b, *gb)),
            _ => None,
        },
        ObjV::Pow(a, b) => match g {
            ObjV::Pow(ga, gb) => merge_maps(match_spec(*a, *ga), match_spec(*b, *gb)),
            _ => None,
        },
        ObjV::MatrixAdd(a, b) => match g {
            ObjV::MatrixAdd(ga, gb) => merge_maps(match_spec(*a, *ga), match_spec(*b, *gb)),
            _ => None,
        },
        ObjV::MatrixSub(a, b) => match g {
            ObjV::MatrixSub(ga, gb) => merge_maps(match_spec(*a, *ga), match_spec(*b, *gb)),
            _ => None,
        },
        ObjV::MatrixMul(a, b) => match g {
            ObjV::MatrixMul(ga, gb) => merge_maps(match_spec(*a, *ga), match_spec(*b, *gb)),
            _ => None,
        },
        ObjV::MatrixScalarMul(a, b) => match g {
            ObjV::MatrixScalarMul(ga, gb) => merge_maps(match_spec(*a, *ga), match_spec(*b, *gb)),
            _ => None,
        },
        ObjV::MatrixPow(a, b) => match g {
            ObjV::MatrixPow(ga, gb) => merge_maps(match_spec(*a, *ga), match_spec(*b, *gb)),
            _ => None,
        },
        ObjV::Abs(a) => match g {
            ObjV::Abs(ga) => match_spec(*a, *ga),
            _ => None,
        },
        ObjV::Sqrt(a) => match g {
            ObjV::Sqrt(ga) => match_spec(*a, *ga),
            _ => None,
        },
        ObjV::Log(a, b) => match g {
            ObjV::Log(ga, gb) => merge_maps(match_spec(*a, *ga), match_spec(*b, *gb)),
            _ => None,
        },
        ObjV::Max(a, b) => match g {
            ObjV::Max(ga, gb) => merge_maps(match_spec(*a, *ga), match_spec(*b, *gb)),
            _ => None,
        },
        ObjV::Min(a, b) => match g {
            ObjV::Min(ga, gb) => merge_maps(match_spec(*a, *ga), match_spec(*b, *gb)),
            _ => None,
        },
        ObjV::Union(a, b) => match g {
            ObjV::Union(ga, gb) => merge_maps(match_spec(*a, *ga), match_spec(*b, *gb)),
            _ => None,
        },
        ObjV::Intersect(a, b) => match g {
            ObjV::Intersect(ga, gb) => merge_maps(match_spec(*a, *ga), match_spec(*b, *gb)),
            _ => None,
        },
        ObjV::SetMinus(a, b) => match g {
            ObjV::SetMinus(ga, gb) => merge_maps(match_spec(*a, *ga), match_spec(*b, *gb)),
            _ => None,
        },
        ObjV::SetDiff(a, b) => match g {
            ObjV::SetDiff(ga, gb) => merge_maps(match_spec(*a, *ga), match_spec(*b, *gb)),
            _ => None,
        },
        ObjV::Cup(a) => match g {
            ObjV::Cup(ga) => match_spec(*a, *ga),
            _ => None,
        },
        ObjV::Cap(a) => match g {
            ObjV::Cap(ga) => match_spec(*a, *ga),
            _ => None,
        },
        ObjV::ListSet(v) => match g {
            ObjV::ListSet(gv) => if v.len() == gv.len() {
                match_list_into(Some(Map::empty()), v, gv)
            } else {
                None
            },
            _ => None,
        },
        ObjV::Cart(v) => match g {
            ObjV::Cart(gv) => if v.len() == gv.len() {
                match_list_into(Some(Map::empty()), v, gv)
            } else {
                None
            },
            _ => None,
        },
        ObjV::CartDim(a) => match g {
            ObjV::CartDim(ga) => match_spec(*a, *ga),
            _ => None,
        },
        ObjV::Proj(a, b) => match g {
            ObjV::Proj(ga, gb) => merge_maps(match_spec(*a, *ga), match_spec(*b, *gb)),
            _ => None,
        },
        ObjV::TupleDim(a) => match g {
            ObjV::TupleDim(ga) => match_spec(*a, *ga),
            _ => None,
        },
        ObjV::Tuple(v) => match g {
            ObjV::Tuple(gv) => if v.len() == gv.len() {
                match_list_into(Some(Map::empty()), v, gv)
            } else {
                None
            },
            _ => None,
        },
        ObjV::FiniteSeqList(v) => match g {
            ObjV::FiniteSeqList(gv) => if v.len() == gv.len() {
                match_list_into(Some(Map::empty()), v, gv)
            } else {
                None
            },
            _ => None,
        },
        ObjV::Count(a) => match g {
            ObjV::Count(ga) => match_spec(*a, *ga),
            _ => None,
        },
        ObjV::FnRange(a) => match g {
            ObjV::FnRange(ga) => match_spec(*a, *ga),
            _ => None,
        },
        ObjV::Sum(a, b, c) => match g {
            ObjV::Sum(ga, gb, gc) => merge_maps(
                merge_maps(match_spec(*a, *ga), match_spec(*b, *gb)),
                match_spec(*c, *gc),
            ),
            _ => None,
        },
        ObjV::Product(a, b, c) => match g {
            ObjV::Product(ga, gb, gc) => merge_maps(
                merge_maps(match_spec(*a, *ga), match_spec(*b, *gb)),
                match_spec(*c, *gc),
            ),
            _ => None,
        },
        ObjV::Range(a, b) => match g {
            ObjV::Range(ga, gb) => merge_maps(match_spec(*a, *ga), match_spec(*b, *gb)),
            _ => None,
        },
        ObjV::ClosedRange(a, b) => match g {
            ObjV::ClosedRange(ga, gb) => merge_maps(match_spec(*a, *ga), match_spec(*b, *gb)),
            _ => None,
        },
        ObjV::FiniteSeqSet(a, b) => match g {
            ObjV::FiniteSeqSet(ga, gb) => merge_maps(match_spec(*a, *ga), match_spec(*b, *gb)),
            _ => None,
        },
        ObjV::SeqSet(a) => match g {
            ObjV::SeqSet(ga) => match_spec(*a, *ga),
            _ => None,
        },
        ObjV::MatrixSet(a, b, c) => match g {
            ObjV::MatrixSet(ga, gb, gc) => merge_maps(
                merge_maps(match_spec(*a, *ga), match_spec(*b, *gb)),
                match_spec(*c, *gc),
            ),
            _ => None,
        },
        ObjV::PowerSet(a) => match g {
            ObjV::PowerSet(ga) => match_spec(*a, *ga),
            _ => None,
        },
        ObjV::ObjAtIndex(a, b) => match g {
            ObjV::ObjAtIndex(ga, gb) => merge_maps(match_spec(*a, *ga), match_spec(*b, *gb)),
            _ => None,
        },
        ObjV::FnObj(h, v) => match g {
            ObjV::FnObj(gh, gv) => if v.len() == gv.len() {
                match_list_into(match_spec(*h, *gh), v, gv)
            } else {
                None
            },
            _ => None,
        },
        ObjV::Interval(a, b, lc, rc) => match g {
            ObjV::Interval(ga, gb, glc, grc) => if lc == glc && rc == grc {
                merge_maps(match_spec(*a, *ga), match_spec(*b, *gb))
            } else {
                None
            },
            _ => None,
        },
    }
}

impl Runtime {
    /// Match a known argument against a given one.
    pub fn match_arg_in_atomic_fact_in_known_forall_with_given_arg(&self, known_arg: &Obj, given_arg: &Obj) -> (r: Option<ArgMap>)
        ensures
            opt_wf(r),
            opt_view(r) == match_spec(known_arg@, given_arg@),
        decreases obj_size(known_arg@), 3nat,
    {
        match known_arg {
            Obj::Identifier(_) => {
                if !objs_equal(known_arg, given_arg) {
                    return None;
                }
                Some(ArgMap::new())
            },
            Obj::IdentifierWithMod(m, p) => self.match_arg_when_left_is_identifier_with_mod(m, p, given_arg),
            Obj::ForallParam(p) => self.match_arg_when_left_is_forall_param(p, given_arg),
            Obj::ExistParam(p) => match given_arg {
                Obj::ExistParam(_) => Some(ArgMap::single(p.clone(), given_arg.duplicate())),
                _ => {
                    if !objs_equal(known_arg, given_arg) {
                        return None;
                    }
                    Some(ArgMap::new())
                },
            },
            Obj::Number(p) => self.match_arg_when_left_is_number(p, given_arg),
            Obj::Add(a, b) => self.match_arg_when_left_is_add(a, b, given_arg),
            Obj::Sub(a, b) => self.match_arg_when_left_is_sub(a, b, given_arg),
            Obj::Mul(a, b) => self.match_arg_when_left_is_mul(a, b, given_arg),
            Obj::Div(a, b) => self.match_arg_when_left_is_div(a, b, given_arg),
            Obj::Mod(a, b) => self.match_arg_when_left_is_mod(a, b, given_arg),
            Obj::Pow(a, b) => self.match_arg_when_left_is_pow(a, b, given_arg),
            Obj::MatrixAdd(a, b) => self.match_arg_when_left_is_matrix_add(a, b, given_arg),
            Obj::MatrixSub(a, b) => self.match_arg_when_left_is_matrix_sub(a, b, given_arg),
            Obj::MatrixMul(a, b) => self.match_arg_when_left_is_matrix_mul(a, b, given_arg),
            Obj::MatrixScalarMul(a, b) => self.match_arg_when_left_is_matrix_scalar_mul(a, b, given_arg),
            Obj::MatrixPow(a, b) => self.match_arg_when_left_is_matrix_pow(a, b, given_arg),
            Obj::Abs(a) => self.match_arg_when_left_is_abs(a, given_arg),
            Obj::Sqrt(a) => self.match_arg_when_left_is_sqrt(a, given_arg),
            Obj::Log(a, b) => self.match_arg_when_left_is_log(a, b, given_arg),
            Obj::Max(a, b) => self.match_arg_when_left_is_max(a, b, given_arg),
            Obj::Min(a, b) => self.match_arg_when_left_is_min(a, b, given_arg),
            Obj::Union(a, b) => self.match_arg_when_left_is_union(a, b, given_arg),
            Obj::Intersect(a, b) => self.match_arg_when_left_is_intersect(a, b, given_arg),
            Obj::SetMinus(a, b) => self.match_arg_when_left_is_set_minus(a, b, given_arg),
            Obj::SetDiff(a, b) => self.match_arg_when_left_is_set_diff(a, b, given_arg),
            Obj::Cup(a) => self.match_arg_when_left_is_cup(a, given_arg),
            Obj::Cap(a) => self.match_arg_when_left_is_cap(a, given_arg),
            Obj::ListSet(v) => self.match_arg_when_left_is_list_set(v, given_arg),
            Obj::StandardSet(s) => match s {
                StandardSet::NPos => self.match_arg_when_left_is_n_pos_obj(given_arg),
                StandardSet::N => self.match_arg_when_left_is_n_obj(given_arg),
                StandardSet::Q => self.match_arg_when_left_is_q_obj(given_arg),
                StandardSet::Z => self.match_arg_when_left_is_z_obj(given_arg),
                StandardSet::R => self.match_arg_when_left_is_r_obj(given_arg),
                StandardSet::QPos => self.match_arg_when_left_is_q_pos(given_arg),
                StandardSet::RPos => self.match_arg_when_left_is_r_pos(given_arg),
                StandardSet::QNeg => self.match_arg_when_left_is_q_neg(given_arg),
                StandardSet::ZNeg => self.match_arg_when_left_is_z_neg(given_arg),
                StandardSet::RNeg => self.match_arg_when_left_is_r_neg(given_arg),
                StandardSet::QNz => self.match_arg_when_left_is_q_nz(given_arg),
                StandardSet::ZNz => self.match_arg_when_left_is_z_nz(given_arg),
                StandardSet::RNz => self.match_arg_when_left_is_r_nz(given_arg),
            },
            Obj::Cart(v) => self.match_arg_when_left_is_cart(v, given_arg),
            Obj::CartDim(a) => self.match_arg_when_left_is_cart_dim(a, given_arg),
            Obj::Proj(a, b) => self.match_arg_when_left_is_proj(a, b, given_arg),
            Obj::TupleDim(a) => self.match_arg_when_left_is_dim(a, given_arg),
            Obj::Tuple(v) => self.match_arg_when_left_is_tuple(v, given_arg),
            Obj::FiniteSeqList(v) => self.match_arg_when_left_is_finite_seq_list(v, given_arg),
            Obj::Count(a) => self.match_arg_when_left_is_count(a, given_arg),
            Obj::FnRange(a) => self.match_arg_when_left_is_fn_range(a, given_arg),
            Obj::Sum(a, b, c) => self.match_arg_when_left_is_sum(a, b, c, given_arg),
            Obj::Product(a, b, c) => self.match_arg_when_left_is_product(a, b, c, given_arg),
            Obj::Range(a, b) => self.match_arg_when_left_is_range(a, b, given_arg),
            Obj::ClosedRange(a, b) => self.match_arg_when_left_is_closed_range(a, b, given_arg),
            Obj::FiniteSeqSet(a, b) => self.match_arg_when_left_is_finite_seq_set(a, b, given_arg),
            Obj::SeqSet(a) => self.match_arg_when_left_is_seq_set(a, given_arg),
            Obj::MatrixSet(a, b, c) => self.match_arg_when_left_is_matrix_set(a, b, c, given_arg),
            Obj::PowerSet(a) => self.match_arg_when_left_is_power_set(a, given_arg),
            Obj::ObjAtIndex(a, b) => self.match_arg_when_left_is_obj_at_index(a, b, given_arg),
            Obj::FnObj(h, v) => self.match_arg_when_left_is_fn_obj(h, v, given_arg),
            Obj::Interval(a, b, lc, rc) => self.match_arg_when_left_is_interval(a, b, *lc, *rc, given_arg),
        }
    }

    fn match_arg_when_left_is_forall_param(&self, param: &String, given_arg: &Obj) -> (r: Option<ArgMap>)
        ensures
            opt_wf(r),
            opt_view(r) == match_spec(ObjV::ForallParam(param@), given_arg@),
    {
        Some(ArgMap::single(param.clone(), given_arg.duplicate()))
    }

    fn match_arg_when_left_is_identifier_with_mod(&self, mod_name: &String, name: &String, given_arg: &Obj) -> (r: Option<ArgMap>)
        ensures
            opt_wf(r),
            opt_view(r) == match_spec(ObjV::IdentifierWithMod(mod_name@, name@), given_arg@),
    {
        match given_arg {
            Obj::IdentifierWithMod(given_mod, given_name) => {
                if mod_name.eq(given_mod) && name.eq(given_name) {
                    Some(ArgMap::new())
                } else {
                    None
                }
            },
            _ => None,
        }
    }

    fn match_arg_when_left_is_number(&self, value: &String, given_arg: &Obj) -> (r: Option<ArgMap>)
        ensures
            opt_wf(r),
            opt_view(r) == match_spec(ObjV::Number(value@), given_arg@),
    {
        if !matches!(given_arg, Obj::Number(_)) {
            return None;
        }
        let left_obj = Obj::Number(value.clone());
        if two_objs_can_be_calculated_and_equal_by_calculation(&left_obj, given_arg) {
            Some(ArgMap::new())
        } else {
            None
        }
    }

    fn match_arg_when_left_is_n_pos_obj(&self, given_arg: &Obj) -> (r: Option<ArgMap>)
        ensures
            opt_wf(r),
            opt_view(r) == match_spec(ObjV::StandardSet(StandardSet::NPos), given_arg@),
    {
        match given_arg {
            Obj::StandardSet(t) => {
                if standard_set_is_subset_eq(t, &StandardSet::NPos) {
                    self.match_arg_same_type(given_arg)
                } else {
                    None
                }
            },
            _ => None,
        }
    }

    fn match_arg_when_left_is_n_obj(&self, given_arg: &Obj) -> (r: Option<ArgMap>)
        ensures
            opt_wf(r),
            opt_view(r) == match_spec(ObjV::StandardSet(StandardSet::N), given_arg@),
    {
        match given_arg {
            Obj::StandardSet(t) => {
                if standard_set_is_subset_eq(t, &StandardSet::N) {
                    self.match_arg_same_type(given_arg)
                } else {
                    None
                }
            },
            _ => None,
        }
    }

    fn match_arg_when_left_is_q_obj(&self, given_arg: &Obj) -> (r: Option<ArgMap>)
        ensures
            opt_wf(r),
            opt_view(r) == match_spec(ObjV::StandardSet(StandardSet::Q), given_arg@),
    {
        match given_arg {
            Obj::StandardSet(t) => {
                if standard_set_is_subset_eq(t, &StandardSet::Q) {
                    self.match_arg_same_type(given_arg)
                } else {
                    None
                }
            },
            _ => None,
        }
    }

    fn match_arg_when_left_is_z_obj(&self, given_arg: &Obj) -> (r: Option<ArgMap>)
        ensures
            opt_wf(r),
            opt_view(r) == match_spec(ObjV::StandardSet(StandardSet::Z), given_arg@),
    {
        match given_arg {
            Obj::StandardSet(t) => {
                if standard_set_is_subset_eq(t, &StandardSet::Z) {
                    self.match_arg_same_type(given_arg)
                } else {
                    None
                }
            },
            _ => None,
        }
    }

    fn match_arg_when_left_is_r_obj(&self, given_arg: &Obj) -> (r: Option<ArgMap>)
        ensures
            opt_wf(r),
            opt_view(r) == match_spec(ObjV::StandardSet(StandardSet::R), given_arg@),
    {
        match given_arg {
            Obj::StandardSet(t) => {
                if standard_set_is_subset_eq(t, &StandardSet::R) {
                    self.match_arg_same_type(given_arg)
                } else {
                    None
                }
            },
            _ => None,
        }
    }

    fn match_arg_when_left_is_q_pos(&self, given_arg: &Obj) -> (r: Option<ArgMap>)
        ensures
            opt_wf(r),
            opt_view(r) == match_spec(ObjV::StandardSet(StandardSet::QPos), given_arg@),
    {
        match given_arg {
            Obj::StandardSet(t) => {
                if standard_set_is_subset_eq(t, &StandardSet::QPos) {
                    self.match_arg_same_type(given_arg)
                } else {
                    None
                }
            },
            _ => None,
        }
    }

    fn match_arg_when_left_is_r_pos(&self, given_arg: &Obj) -> (r: Option<ArgMap>)
        ensures
            opt_wf(r),
            opt_view(r) == match_spec(ObjV::StandardSet(StandardSet::RPos), given_arg@),
    {
        match given_arg {
            Obj::StandardSet(t) => {
                if standard_set_is_subset_eq(t, &StandardSet::RPos) {
                    self.match_arg_same_type(given_arg)
                } else {
                    None
                }
            },
            _ => None,
        }
    }

    fn match_arg_when_left_is_q_neg(&self, given_arg: &Obj) -> (r: Option<ArgMap>)
        ensures
            opt_wf(r),
            opt_view(r) == match_spec(ObjV::StandardSet(StandardSet::QNeg), given_arg@),
    {
        match given_arg {
            Obj::StandardSet(t) => {
                if standard_set_is_subset_eq(t, &StandardSet::QNeg) {
                    self.match_arg_same_type(given_arg)
                } else {
                    None
                }
            },
            _ => None,
        }
    }

    fn match_arg_when_left_is_z_neg(&self, given_arg: &Obj) -> (r: Option<ArgMap>)
        ensures
            opt_wf(r),
            opt_view(r) == match_spec(ObjV::StandardSet(StandardSet::ZNeg), given_arg@),
    {
        match given_arg {
            Obj::StandardSet(t) => {
                if standard_set_is_subset_eq(t, &StandardSet::ZNeg) {
                    self.match_arg_same_type(given_arg)
                } else {
                    None
                }
            },
            _ => None,
        }
    }

    fn match_arg_when_left_is_r_neg(&self, given_arg: &Obj) -> (r: Option<ArgMap>)
        ensures
            opt_wf(r),
            opt_view(r) == match_spec(ObjV::StandardSet(StandardSet::RNeg), given_arg@),
    {
        match given_arg {
            Obj::StandardSet(t) => {
                if standard_set_is_subset_eq(t, &StandardSet::RNeg) {
                    self.match_arg_same_type(given_arg)
                } else {
                    None
                }
            },
            _ => None,
        }
    }

    fn match_arg_when_left_is_q_nz(&self, given_arg: &Obj) -> (r: Option<ArgMap>)
        ensures
            opt_wf(r),
            opt_view(r) == match_spec(ObjV::StandardSet(StandardSet::QNz), given_arg@),
    {
        match given_arg {
            Obj::StandardSet(t) => {
                if standard_set_is_subset_eq(t, &StandardSet::QNz) {
                    self.match_arg_same_type(given_arg)
                } else {
                    None
                }
            },
            _ => None,
        }
    }

    fn match_arg_when_left_is_z_nz(&self, given_arg: &Obj) -> (r: Option<ArgMap>)
        ensures
            opt_wf(r),
            opt_view(r) == match_spec(ObjV::StandardSet(StandardSet::ZNz), given_arg@),
    {
        match given_arg {
            Obj::StandardSet(t) => {
                if standard_set_is_subset_eq(t, &StandardSet::ZNz) {
                    self.match_arg_same_type(given_arg)
                } else {
                    None
                }
            },
            _ => None,
        }
    }

    fn match_arg_when_left_is_r_nz(&self, given_arg: &Obj) -> (r: Option<ArgMap>)
        ensures
            opt_wf(r),
            opt_view(r) == match_spec(ObjV::StandardSet(StandardSet::RNz), given_arg@),
    {
        match given_arg {
            Obj::StandardSet(t) => {
                if standard_set_is_subset_eq(t, &StandardSet::RNz) {
                    self.match_arg_same_type(given_arg)
                } else {
                    None
                }
            },
            _ => None,
        }
    }

    /// A given standard set bound under its written form.
    fn match_arg_same_type(&self, given_arg: &Obj) -> (r: Option<ArgMap>)
        requires
            given_arg@ is StandardSet,
        ensures
            opt_wf(r),
            opt_view(r) == same_type_match(given_arg@),
    {
        match given_arg {
            Obj::StandardSet(s) => Some(ArgMap::single(standard_set_name(*s), given_arg.duplicate())),
            _ => None,
        }
    }

    fn match_arg_when_left_is_mod(&self, left_left: &Obj, left_right: &Obj, given_arg: &Obj) -> (r: Option<ArgMap>)
        ensures
            opt_wf(r),
            opt_view(r) == match_spec(ObjV::Mod(Box::new(left_left@), Box::new(left_right@)), given_arg@),
        decreases 1 + obj_size(left_left@) + obj_size(left_right@), 2nat,
    {
        match given_arg {
            Obj::Mod(gl, gr) => self.match_arg_binary_then_merge(left_left, left_right, gl, gr),
            _ => None,
        }
    }

    fn match_arg_when_left_is_pow(&self, left_left: &Obj, left_right: &Obj, given_arg: &Obj) -> (r: Option<ArgMap>)
        ensures
            opt_wf(r),
            opt_view(r) == match_spec(ObjV::Pow(Box::new(left_left@), Box::new(left_right@)), given_arg@),
        decreases 1 + obj_size(left_left@) + obj_size(left_right@), 2nat,
    {
        match given_arg {
            Obj::Pow(gl, gr) => self.match_arg_binary_then_merge(left_left, left_right, gl, gr),
            _ => None,
        }
    }

    fn match_arg_when_left_is_matrix_add(&self, left_left: &Obj, left_right: &Obj, given_arg: &Obj) -> (r: Option<ArgMap>)
        ensures
            opt_wf(r),
            opt_view(r) == match_spec(ObjV::MatrixAdd(Box::new(left_left@), Box::new(left_right@)), given_arg@),
        decreases 1 + obj_size(left_left@) + obj_size(left_right@), 2nat,
    {
        match given_arg {
            Obj::MatrixAdd(gl, gr) => self.match_arg_binary_then_merge(left_left, left_right, gl, gr),
            _ => None,
        }
    }

    fn match_arg_when_left_is_matrix_sub(&self, left_left: &Obj, left_right: &Obj, given_arg: &Obj) -> (r: Option<ArgMap>)
        ensures
            opt_wf(r),
            opt_view(r) == match_spec(ObjV::MatrixSub(Box::new(left_left@), Box::new(left_right@)), given_arg@),
        decreases 1 + obj_size(left_left@) + obj_size(left_right@), 2nat,
    {
        match given_arg {
            Obj::MatrixSub(gl, gr) => self.match_arg_binary_then_merge(left_left, left_right, gl, gr),
            _ => None,
        }
    }

    fn match_arg_when_left_is_matrix_mul(&self, left_left: &Obj, left_right: &Obj, given_arg: &Obj) -> (r: Option<ArgMap>)
        ensures
            opt_wf(r),
            opt_view(r) == match_spec(ObjV::MatrixMul(Box::new(left_left@), Box::new(left_right@)), given_arg@),
        decreases 1 + obj_size(left_left@) + obj_size(left_right@), 2nat,
    {
        match given_arg {
            Obj::MatrixMul(gl, gr) => self.match_arg_binary_then_merge(left_left, left_right, gl, gr),
            _ => None,
        }
    }

    fn match_arg_when_left_is_matrix_scalar_mul(&self, left_left: &Obj, left_right: &Obj, given_arg: &Obj) -> (r: Option<ArgMap>)
        ensures
            opt_wf(r),
            opt_view(r) == match_spec(ObjV::MatrixScalarMul(Box::new(left_left@), Box::new(left_right@)), given_arg@),
        decreases 1 + obj_size(left_left@) + obj_size(left_right@), 2nat,
    {
        match given_arg {
            Obj::MatrixScalarMul(gl, gr) => self.match_arg_binary_then_merge(left_left, left_right, gl, gr),
            _ => None,
        }
    }

    fn match_arg_when_left_is_matrix_pow(&self, left_left: &Obj, left_right: &Obj, given_arg: &Obj) -> (r: Option<ArgMap>)
        ensures
            opt_wf(r),
            opt_view(r) == match_spec(ObjV::MatrixPow(Box::new(left_left@), Box::new(left_right@)), given_arg@),
        decreases 1 + obj_size(left_left@) + obj_size(left_right@), 2nat,
    {
        match given_arg {
            Obj::MatrixPow(gl, gr) => self.match_arg_binary_then_merge(left_left, left_right, gl, gr),
            _ => None,
        }
    }

    fn match_arg_when_left_is_abs(&self, left_arg: &Obj, given_arg: &Obj) -> (r: Option<ArgMap>)
        ensures
            opt_wf(r),
            opt_view(r) == match_spec(ObjV::Abs(Box::new(left_arg@)), given_arg@),
        decreases 1 + obj_size(left_arg@), 2nat,
    {
        match given_arg {
            Obj::Abs(g) => self.match_arg_in_atomic_fact_in_known_forall_with_given_arg(left_arg, g),
            _ => None,
        }
    }

    fn match_arg_when_left_is_sqrt(&self, left_arg: &Obj, given_arg: &Obj) -> (r: Option<ArgMap>)
        ensures
            opt_wf(r),
            opt_view(r) == match_spec(ObjV::Sqrt(Box::new(left_arg@)), given_arg@),
        decreases 1 + obj_size(left_arg@), 2nat,
    {
        match given_arg {
            Obj::Sqrt(g) => self.match_arg_in_atomic_fact_in_known_forall_with_given_arg(left_arg, g),
            _ => None,
        }
    }

    fn match_arg_when_left_is_log(&self, left_left: &Obj, left_right: &Obj, given_arg: &Obj) -> (r: Option<ArgMap>)
        ensures
            opt_wf(r),
            opt_view(r) == match_spec(ObjV::Log(Box::new(left_left@), Box::new(left_right@)), given_arg@),
        decreases 1 + obj_size(left_left@) + obj_size(left_right@), 2nat,
    {
        match given_arg {
            Obj::Log(gl, gr) => self.match_arg_binary_then_merge(left_left, left_right, gl, gr),
            _ => None,
        }
    }

    fn match_arg_when_left_is_max(&self, left_left: &Obj, left_right: &Obj, given_arg: &Obj) -> (r: Option<ArgMap>)
        ensures
            opt_wf(r),
            opt_view(r) == match_spec(ObjV::Max(Box::new(left_left@), Box::new(left_right@)), given_arg@),
        decreases 1 + obj_size(left_left@) + obj_size(left_right@), 2nat,
    {
        match given_arg {
            Obj::Max(gl, gr) => self.match_arg_binary_then_merge(left_left, left_right, gl, gr),
            _ => None,
        }
    }

    fn match_arg_when_left_is_min(&self, left_left: &Obj, left_right: &Obj, given_arg: &Obj) -> (r: Option<ArgMap>)
        ensures
            opt_wf(r),
            opt_view(r) == match_spec(ObjV::Min(Box::new(left_left@), Box::new(left_right@)), given_arg@),
        decreases 1 + obj_size(left_left@) + obj_size(left_right@), 2nat,
    {
        match given_arg {
            Obj::Min(gl, gr) => self.match_arg_binary_then_merge(left_left, left_right, gl, gr),
            _ => None,
        }
    }

    fn match_arg_when_left_is_union(&self, left_left: &Obj, left_right: &Obj, given_arg: &Obj) -> (r: Option<ArgMap>)
        ensures
            opt_wf(r),
            opt_view(r) == match_spec(ObjV::Union(Box::new(left_left@), Box::new(left_right@)), given_arg@),
        decreases 1 + obj_size(left_left@) + obj_size(left_right@), 2nat,
    {
        match given_arg {
            Obj::Union(gl, gr) => self.match_arg_binary_then_merge(left_left, left_right, gl, gr),
            _ => None,
        }
    }

    fn match_arg_when_left_is_intersect(&self, left_left: &Obj, left_right: &Obj, given_arg: &Obj) -> (r: Option<ArgMap>)
        ensures
            opt_wf(r),
            opt_view(r) == match_spec(ObjV::Intersect(Box::new(left_left@), Box::new(left_right@)), given_arg@),
        decreases 1 + obj_size(left_left@) + obj_size(left_right@), 2nat,
    {
        match given_arg {
            Obj::Intersect(gl, gr) => self.match_arg_binary_then_merge(left_left, left_right, gl, gr),
            _ => None,
        }
    }

    fn match_arg_when_left_is_set_minus(&self, left_left: &Obj, left_right: &Obj, given_arg: &Obj) -> (r: Option<ArgMap>)
        ensures
            opt_wf(r),
            opt_view(r) == match_spec(ObjV::SetMinus(Box::new(left_left@), Box::new(left_right@)), given_arg@),
        decreases 1 + obj_size(left_left@) + obj_size(left_right@), 2nat,
    {
        match given_arg {
            Obj::SetMinus(gl, gr) => self.match_arg_binary_then_merge(left_left, left_right, gl, gr),
            _ => None,
        }
    }

    fn match_arg_when_left_is_set_diff(&self, left_left: &Obj, left_right: &Obj, given_arg: &Obj) -> (r: Option<ArgMap>)
        ensures
            opt_wf(r),
            opt_view(r) == match_spec(ObjV::SetDiff(Box::new(left_left@), Box::new(left_right@)), given_arg@),
        decreases 1 + obj_size(left_left@) + obj_size(left_right@), 2nat,
    {
        match given_arg {
            Obj::SetDiff(gl, gr) => self.match_arg_binary_then_merge(left_left, left_right, gl, gr),
            _ => None,
        }
    }

    fn match_arg_when_left_is_cup(&self, left_arg: &Obj, given_arg: &Obj) -> (r: Option<ArgMap>)
        ensures
            opt_wf(r),
            opt_view(r) == match_spec(ObjV::Cup(Box::new(left_arg@)), given_arg@),
        decreases 1 + obj_size(left_arg@), 2nat,
    {
        match given_arg {
            Obj::Cup(g) => self.match_arg_in_atomic_fact_in_known_forall_with_given_arg(left_arg, g),
            _ => None,
        }
    }

    fn match_arg_when_left_is_cap(&self, left_arg: &Obj, given_arg: &Obj) -> (r: Option<ArgMap>)
        ensures
            opt_wf(r),
            opt_view(r) == match_spec(ObjV::Cap(Box::new(left_arg@)), given_arg@),
        decreases 1 + obj_size(left_arg@), 2nat,
    {
        match given_arg {
            Obj::Cap(g) => self.match_arg_in_atomic_fact_in_known_forall_with_given_arg(left_arg, g),
            _ => None,
        }
    }

    fn match_arg_when_left_is_list_set(&self, left_elements: &Vec<Obj>, given_arg: &Obj) -> (r: Option<ArgMap>)
        ensures
            opt_wf(r),
            opt_view(r) == match_spec(ObjV::ListSet(view_list(left_elements@)), given_arg@),
        decreases 1 + list_size(view_list(left_elements@)), 2nat,
    {
        match given_arg {
            Obj::ListSet(g) => self.match_arg_vec_then_merge(left_elements, g),
            _ => None,
        }
    }

    fn match_arg_when_left_is_cart(&self, left_elements: &Vec<Obj>, given_arg: &Obj) -> (r: Option<ArgMap>)
        ensures
            opt_wf(r),
            opt_view(r) == match_spec(ObjV::Cart(view_list(left_elements@)), given_arg@),
        decreases 1 + list_size(view_list(left_elements@)), 2nat,
    {
        match given_arg {
            Obj::Cart(g) => self.match_arg_vec_then_merge(left_elements, g),
            _ => None,
        }
    }

    fn match_arg_when_left_is_cart_dim(&self, left_arg: &Obj, given_arg: &Obj) -> (r: Option<ArgMap>)
        ensures
            opt_wf(r),
            opt_view(r) == match_spec(ObjV::CartDim(Box::new(left_arg@)), given_arg@),
        decreases 1 + obj_size(left_arg@), 2nat,
    {
        match given_arg {
            Obj::CartDim(g) => self.match_arg_in_atomic_fact_in_known_forall_with_given_arg(left_arg, g),
            _ => None,
        }
    }

    fn match_arg_when_left_is_proj(&self, left_left: &Obj, left_right: &Obj, given_arg: &Obj) -> (r: Option<ArgMap>)
        ensures
            opt_wf(r),
            opt_view(r) == match_spec(ObjV::Proj(Box::new(left_left@), Box::new(left_right@)), given_arg@),
        decreases 1 + obj_size(left_left@) + obj_size(left_right@), 2nat,
    {
        match given_arg {
            Obj::Proj(gl, gr) => self.match_arg_binary_then_merge(left_left, left_right, gl, gr),
            _ => None,
        }
    }

    fn match_arg_when_left_is_dim(&self, left_arg: &Obj, given_arg: &Obj) -> (r: Option<ArgMap>)
        ensures
            opt_wf(r),
            opt_view(r) == match_spec(ObjV::TupleDim(Box::new(left_arg@)), given_arg@),
        decreases 1 + obj_size(left_arg@), 2nat,
    {
        match given_arg {
            Obj::TupleDim(g) => self.match_arg_in_atomic_fact_in_known_forall_with_given_arg(left_arg, g),
            _ => None,
        }
    }

    fn match_arg_when_left_is_tuple(&self, left_elements: &Vec<Obj>, given_arg: &Obj) -> (r: Option<ArgMap>)
        ensures
            opt_wf(r),
            opt_view(r) == match_spec(ObjV::Tuple(view_list(left_elements@)), given_arg@),
        decreases 1 + list_size(view_list(left_elements@)), 2nat,
    {
        match given_arg {
            Obj::Tuple(g) => self.match_arg_vec_then_merge(left_elements, g),
            _ => None,
        }
    }

    fn match_arg_when_left_is_finite_seq_list(&self, left_elements: &Vec<Obj>, given_arg: &Obj) -> (r: Option<ArgMap>)
        ensures
            opt_wf(r),
            opt_view(r) == match_spec(ObjV::FiniteSeqList(view_list(left_elements@)), given_arg@),
        decreases 1 + list_size(view_list(left_elements@)), 2nat,
    {
        match given_arg {
            Obj::FiniteSeqList(g) => self.match_arg_vec_then_merge(left_elements, g),
            _ => None,
        }
    }

    fn match_arg_when_left_is_count(&self, left_arg: &Obj, given_arg: &Obj) -> (r: Option<ArgMap>)
        ensures
            opt_wf(r),
            opt_view(r) == match_spec(ObjV::Count(Box::new(left_arg@)), given_arg@),
        decreases 1 + obj_size(left_arg@), 2nat,
    {
        match given_arg {
            Obj::Count(g) => self.match_arg_in_atomic_fact_in_known_forall_with_given_arg(left_arg, g),
            _ => None,
        }
    }

    fn match_arg_when_left_is_fn_range(&self, left_arg: &Obj, given_arg: &Obj) -> (r: Option<ArgMap>)
        ensures
            opt_wf(r),
            opt_view(r) == match_spec(ObjV::FnRange(Box::new(left_arg@)), given_arg@),
        decreases 1 + obj_size(left_arg@), 2nat,
    {
        match given_arg {
            Obj::FnRange(g) => self.match_arg_in_atomic_fact_in_known_forall_with_given_arg(left_arg, g),
            _ => None,
        }
    }

    fn match_arg_when_left_is_sum(&self, a1: &Obj, a2: &Obj, a3: &Obj, given_arg: &Obj) -> (r: Option<ArgMap>)
        ensures
            opt_wf(r),
            opt_view(r) == match_spec(ObjV::Sum(Box::new(a1@), Box::new(a2@), Box::new(a3@)), given_arg@),
        decreases 1 + obj_size(a1@) + obj_size(a2@) + obj_size(a3@), 2nat,
    {
        match given_arg {
            Obj::Sum(b1, b2, b3) => self.match_arg_ternary_then_merge(a1, a2, a3, b1, b2, b3),
            _ => None,
        }
    }

    fn match_arg_when_left_is_product(&self, a1: &Obj, a2: &Obj, a3: &Obj, given_arg: &Obj) -> (r: Option<ArgMap>)
        ensures
            opt_wf(r),
            opt_view(r) == match_spec(ObjV::Product(Box::new(a1@), Box::new(a2@), Box::new(a3@)), given_arg@),
        decreases 1 + obj_size(a1@) + obj_size(a2@) + obj_size(a3@), 2nat,
    {
        match given_arg {
            Obj::Product(b1, b2, b3) => self.match_arg_ternary_then_merge(a1, a2, a3, b1, b2, b3),
            _ => None,
        }
    }

    fn match_arg_when_left_is_range(&self, left_left: &Obj, left_right: &Obj, given_arg: &Obj) -> (r: Option<ArgMap>)
        ensures
            opt_wf(r),
            opt_view(r) == match_spec(ObjV::Range(Box::new(left_left@), Box::new(left_right@)), given_arg@),
        decreases 1 + obj_size(left_left@) + obj_size(left_right@), 2nat,
    {
        match given_arg {
            Obj::Range(gl, gr) => self.match_arg_binary_then_merge(left_left, left_right, gl, gr),
            _ => None,
        }
    }

    fn match_arg_when_left_is_closed_range(&self, left_left: &Obj, left_right: &Obj, given_arg: &Obj) -> (r: Option<ArgMap>)
        ensures
            opt_wf(r),
            opt_view(r) == match_spec(ObjV::ClosedRange(Box::new(left_left@), Box::new(left_right@)), given_arg@),
        decreases 1 + obj_size(left_left@) + obj_size(left_right@), 2nat,
    {
        match given_arg {
            Obj::ClosedRange(gl, gr) => self.match_arg_binary_then_merge(left_left, left_right, gl, gr),
            _ => None,
        }
    }

    fn match_arg_when_left_is_finite_seq_set(&self, left_left: &Obj, left_right: &Obj, given_arg: &Obj) -> (r: Option<ArgMap>)
        ensures
            opt_wf(r),
            opt_view(r) == match_spec(ObjV::FiniteSeqSet(Box::new(left_left@), Box::new(left_right@)), given_arg@),
        decreases 1 + obj_size(left_left@) + obj_size(left_right@), 2nat,
    {
        match given_arg {
            Obj::FiniteSeqSet(gl, gr) => self.match_arg_binary_then_merge(left_left, left_right, gl, gr),
            _ => None,
        }
    }

    fn match_arg_when_left_is_seq_set(&self, left_arg: &Obj, given_arg: &Obj) -> (r: Option<ArgMap>)
        ensures
            opt_wf(r),
            opt_view(r) == match_spec(ObjV::SeqSet(Box::new(left_arg@)), given_arg@),
        decreases 1 + obj_size(left_arg@), 2nat,
    {
        match given_arg {
            Obj::SeqSet(g) => self.match_arg_in_atomic_fact_in_known_forall_with_given_arg(left_arg, g),
            _ => None,
        }
    }

    fn match_arg_when_left_is_matrix_set(&self, a1: &Obj, a2: &Obj, a3: &Obj, given_arg: &Obj) -> (r: Option<ArgMap>)
        ensures
            opt_wf(r),
            opt_view(r) == match_spec(ObjV::MatrixSet(Box::new(a1@), Box::new(a2@), Box::new(a3@)), given_arg@),
        decreases 1 + obj_size(a1@) + obj_size(a2@) + obj_size(a3@), 2nat,
    {
        match given_arg {
            Obj::MatrixSet(b1, b2, b3) => self.match_arg_ternary_then_merge(a1, a2, a3, b1, b2, b3),
            _ => None,
        }
    }

    fn match_arg_when_left_is_power_set(&self, left_arg: &Obj, given_arg: &Obj) -> (r: Option<ArgMap>)
        ensures
            opt_wf(r),
            opt_view(r) == match_spec(ObjV::PowerSet(Box::new(left_arg@)), given_arg@),
        decreases 1 + obj_size(left_arg@), 2nat,
    {
        match given_arg {
            Obj::PowerSet(g) => self.match_arg_in_atomic_fact_in_known_forall_with_given_arg(left_arg, g),
            _ => None,
        }
    }

    fn match_arg_when_left_is_obj_at_index(&self, left_left: &Obj, left_right: &Obj, given_arg: &Obj) -> (r: Option<ArgMap>)
        ensures
            opt_wf(r),
            opt_view(r) == match_spec(ObjV::ObjAtIndex(Box::new(left_left@), Box::new(left_right@)), given_arg@),
        decreases 1 + obj_size(left_left@) + obj_size(left_right@), 2nat,
    {
        match given_arg {
            Obj::ObjAtIndex(gl, gr) => self.match_arg_binary_then_merge(left_left, left_right, gl, gr),
            _ => None,
        }
    }

    fn match_arg_when_left_is_fn_obj(&self, head: &Obj, args: &Vec<Obj>, given_arg: &Obj) -> (r: Option<ArgMap>)
        ensures
            opt_wf(r),
            opt_view(r) == match_spec(ObjV::FnObj(Box::new(head@), view_list(args@)), given_arg@),
        decreases 1 + obj_size(head@) + list_size(view_list(args@)), 2nat,
    {
        match given_arg {
            Obj::FnObj(given_head, given_args) => {
                proof {
                    lemma_view_list(args@);
                    lemma_view_list(given_args@);
                }
                if args.len() != given_args.len() {
                    return None;
                }
                let head_map = match self.match_arg_in_atomic_fact_in_known_forall_with_given_arg(head, given_head) {
                    Some(m) => m,
                    None => {
                        proof {
                            lemma_match_list_into_none(view_list(args@), view_list(given_args@));
                        }
                        return None;
                    },
                };
                self.match_arg_pairs_then_merge(head_map, args, given_args)
            },
            _ => None,
        }
    }

    fn match_arg_when_left_is_interval(&self, start: &Obj, end: &Obj, left_closed: bool, right_closed: bool, given_arg: &Obj) -> (r: Option<ArgMap>)
        ensures
            opt_wf(r),
            opt_view(r) == match_spec(ObjV::Interval(Box::new(start@), Box::new(end@), left_closed, right_closed), given_arg@),
        decreases 1 + obj_size(start@) + obj_size(end@), 2nat,
    {
        let Obj::Interval(given_start, given_end, given_left_closed, given_right_closed) = given_arg else {
            return None;
        };
        if left_closed != *given_left_closed || right_closed != *given_right_closed {
            return None;
        }
        self.match_arg_binary_then_merge(start, end, given_start, given_end)
    }

    fn match_arg_when_left_is_add(&self, left_left: &Obj, left_right: &Obj, given_arg: &Obj) -> (r: Option<ArgMap>)
        ensures
            opt_wf(r),
            opt_view(r) == match_spec(ObjV::Add(Box::new(left_left@), Box::new(left_right@)), given_arg@),
        decreases 1 + obj_size(left_left@) + obj_size(left_right@), 2nat,
    {
        match given_arg {
            Obj::Add(gl, gr) => self.match_arg_binary_then_merge(left_left, left_right, gl, gr),
            _ => {
                if let Obj::Number(_) = left_left {
                    let new_given = Obj::Sub(Box::new(given_arg.duplicate()), Box::new(left_left.duplicate()));
                    self.match_arg_in_atomic_fact_in_known_forall_with_given_arg(left_right, &new_given)
                } else if let Obj::Number(_) = left_right {
                    let new_given = Obj::Sub(Box::new(given_arg.duplicate()), Box::new(left_right.duplicate()));
                    self.match_arg_in_atomic_fact_in_known_forall_with_given_arg(left_left, &new_given)
                } else {
                    None
                }
            },
        }
    }

    fn match_arg_when_left_is_sub(&self, left_left: &Obj, left_right: &Obj, given_arg: &Obj) -> (r: Option<ArgMap>)
        ensures
            opt_wf(r),
            opt_view(r) == match_spec(ObjV::Sub(Box::new(left_left@), Box::new(left_right@)), given_arg@),
        decreases 1 + obj_size(left_left@) + obj_size(left_right@), 2nat,
    {
        match given_arg {
            Obj::Sub(gl, gr) => self.match_arg_binary_then_merge(left_left, left_right, gl, gr),
            _ => {
                if let Obj::Number(_) = left_right {
                    let new_given = Obj::Add(Box::new(left_right.duplicate()), Box::new(given_arg.duplicate()));
                    self.match_arg_in_atomic_fact_in_known_forall_with_given_arg(left_left, &new_given)
                } else if let Obj::Number(_) = left_left {
                    let new_given = Obj::Sub(Box::new(left_left.duplicate()), Box::new(given_arg.duplicate()));
                    self.match_arg_in_atomic_fact_in_known_forall_with_given_arg(left_right, &new_given)
                } else {
                    None
                }
            },
        }
    }

    fn match_arg_when_left_is_mul(&self, left_left: &Obj, left_right: &Obj, given_arg: &Obj) -> (r: Option<ArgMap>)
        ensures
            opt_wf(r),
            opt_view(r) == match_spec(ObjV::Mul(Box::new(left_left@), Box::new(left_right@)), given_arg@),
        decreases 1 + obj_size(left_left@) + obj_size(left_right@), 2nat,
    {
        match given_arg {
            Obj::Mul(gl, gr) => self.match_arg_binary_then_merge(left_left, left_right, gl, gr),
            _ => {
                if obj_is_literal_neg_one(left_left) {
                    let synthetic = Obj::Mul(Box::new(literal_neg_one_obj()), Box::new(given_arg.duplicate()));
                    self.match_arg_in_atomic_fact_in_known_forall_with_given_arg(left_right, &synthetic)
                } else if let Obj::Number(n) = left_left {
                    let zero = "0";
                    proof {
                        reveal_strlit("0");
                        assert(zero@ =~= seq!['0']);
                    }
                    if n.eq(&zero.to_string()) {
                        None
                    } else {
                        let synthetic = Obj::Div(Box::new(given_arg.duplicate()), Box::new(left_left.duplicate()));
                        self.match_arg_in_atomic_fact_in_known_forall_with_given_arg(left_right, &synthetic)
                    }
                } else if let Obj::Number(_) = left_right {
                    let new_given = Obj::Div(Box::new(given_arg.duplicate()), Box::new(left_right.duplicate()));
                    self.match_arg_in_atomic_fact_in_known_forall_with_given_arg(left_left, &new_given)
                } else {
                    None
                }
            },
        }
    }

    fn match_arg_when_left_is_div(&self, left_left: &Obj, left_right: &Obj, given_arg: &Obj) -> (r: Option<ArgMap>)
        ensures
            opt_wf(r),
            opt_view(r) == match_spec(ObjV::Div(Box::new(left_left@), Box::new(left_right@)), given_arg@),
        decreases 1 + obj_size(left_left@) + obj_size(left_right@), 2nat,
    {
        match given_arg {
            Obj::Div(gl, gr) => self.match_arg_binary_then_merge(left_left, left_right, gl, gr),
            _ => {
                if let Obj::Number(_) = left_right {
                    let new_given = Obj::Mul(Box::new(left_right.duplicate()), Box::new(given_arg.duplicate()));
                    self.match_arg_in_atomic_fact_in_known_forall_with_given_arg(left_left, &new_given)
                } else {
                    None
                }
            },
        }
    }

    /// Match two pairs and merge the bindings.
    fn match_arg_binary_then_merge(&self, left_left: &Obj, left_right: &Obj, given_left: &Obj, given_right: &Obj) -> (r: Option<ArgMap>)
        ensures
            opt_wf(r),
            opt_view(r) == merge_maps(match_spec(left_left@, given_left@), match_spec(left_right@, given_right@)),
        decreases 1 + obj_size(left_left@) + obj_size(left_right@), 0nat,
    {
        let map1 = match self.match_arg_in_atomic_fact_in_known_forall_with_given_arg(left_left, given_left) {
            Some(m) => m,
            None => return None,
        };
        let map2 = match self.match_arg_in_atomic_fact_in_known_forall_with_given_arg(left_right, given_right) {
            Some(m) => m,
            None => return None,
        };
        merge_arg_match_maps(map1, map2)
    }

    /// Match three pairs and merge the bindings.
    fn match_arg_ternary_then_merge(&self, a1: &Obj, a2: &Obj, a3: &Obj, b1: &Obj, b2: &Obj, b3: &Obj) -> (r: Option<ArgMap>)
        ensures
            opt_wf(r),
            opt_view(r) == merge_maps(merge_maps(match_spec(a1@, b1@), match_spec(a2@, b2@)), match_spec(a3@, b3@)),
        decreases 1 + obj_size(a1@) + obj_size(a2@) + obj_size(a3@), 0nat,
    {
        let map12 = match self.match_arg_binary_then_merge(a1, a2, b1, b2) {
            Some(m) => m,
            None => return None,
        };
        let map3 = match self.match_arg_in_atomic_fact_in_known_forall_with_given_arg(a3, b3) {
            Some(m) => m,
            None => return None,
        };
        merge_arg_match_maps(map12, map3)
    }

    /// Match lists of equal length element by element.
    fn match_arg_vec_then_merge(&self, left: &Vec<Obj>, given: &Vec<Obj>) -> (r: Option<ArgMap>)
        ensures
            opt_wf(r),
            opt_view(r) == match_lists(view_list(left@), view_list(given@)),
        decreases 1 + list_size(view_list(left@)), 1nat,
    {
        proof {
            lemma_view_list(left@);
            lemma_view_list(given@);
        }
        if left.len() != given.len() {
            return None;
        }
        self.match_arg_pairs_then_merge(ArgMap::new(), left, given)
    }

    /// Merge into `merged` the bindings of each pair of corresponding elements, in order.
    #[verifier::loop_isolation(false)]
    fn match_arg_pairs_then_merge(&self, merged: ArgMap, left: &Vec<Obj>, given: &Vec<Obj>) -> (r: Option<ArgMap>)
        requires
            merged.wf(),
            left.len() == given.len(),
        ensures
            opt_wf(r),
            opt_view(r) == match_list_into(Some(merged@), view_list(left@), view_list(given@)),
        decreases 1 + list_size(view_list(left@)), 0nat,
    {
        let mut merged = merged;
        let ghost init = merged@;
        let ghost ks = view_list(left@);
        let ghost gs = view_list(given@);
        proof {
            lemma_view_list(left@);
            lemma_view_list(given@);
            assert(ks.take(0) =~= Seq::<ObjV>::empty());
        }
        let mut i: usize = 0;
        while i < left.len()
            invariant
                left.len() == given.len(),
                ks == view_list(left@),
                gs == view_list(given@),
                ks.len() == left.len(),
                gs.len() == given.len(),
                forall|j: int| 0 <= j < left.len() ==> #[trigger] ks[j] == left@[j]@,
                forall|j: int| 0 <= j < given.len() ==> #[trigger] gs[j] == given@[j]@,
                i <= left.len(),
                merged.wf(),
                match_list_into(Some(init), ks.take(i as int), gs.take(i as int)) == Some(merged@),
            decreases left.len() - i,
        {
            proof {
                lemma_list_size_elem(ks, i as int);
                vstd::std_specs::vec::axiom_vec_index_decreases(*left, i as int);
                assert(ks.take(i + 1).drop_last() =~= ks.take(i as int));
                assert(gs.take(i + 1).drop_last() =~= gs.take(i as int));
                assert(ks.take(i + 1).last() == left@[i as int]@);
                assert(gs.take(i + 1).last() == given@[i as int]@);
            }
            let sub_map = match self.match_arg_in_atomic_fact_in_known_forall_with_given_arg(&left[i], &given[i]) {
                Some(m) => m,
                None => {
                    proof {
                        lemma_match_list_into_none_suffix(Some(init), ks, gs, i as int + 1);
                    }
                    return None;
                },
            };
            if !merge_arg_match_map_into(&mut merged, sub_map) {
                proof {
                    lemma_match_list_into_none_suffix(Some(init), ks, gs, i as int + 1);
                }
                return None;
            }
            i = i + 1;
        }
        proof {
            assert(ks.take(left.len() as int) =~= ks);
            assert(gs.take(given.len() as int) =~= gs);
        }
        Some(merged)
    }

    /// Match the arguments of a fact in a known universal fact against the
    /// arguments of a given fact, merging the bindings in order.
    pub fn match_args_in_fact_in_known_forall_fact_with_given_args(&self, fact_args_in_known_forall: &Vec<Obj>, given_fact_args: &Vec<Obj>) -> (r: Option<ArgMap>)
        ensures
            opt_wf(r),
            opt_view(r) == match_lists(view_list(fact_args_in_known_forall@), view_list(given_fact_args@)),
    {
        self.match_arg_vec_then_merge(fact_args_in_known_forall, given_fact_args)
    }
}

/// Once a prefix fails to match, the whole list fails.
pub proof fn lemma_match_list_into_none_suffix(acc: Option<ArgMapV>, ks: Seq<ObjV>, gs: Seq<ObjV>, n: int)
    requires
        ks.len() == gs.len(),
        0 <= n <= ks.len(),
        match_list_into(acc, ks.take(n), gs.take(n)) is None,
    ensures
        match_list_into(acc, ks, gs) is None,
    decreases ks.len() - n,
{
    if n < ks.len() {
        assert(ks.take(n + 1).drop_last() =~= ks.take(n));
        assert(gs.take(n + 1).drop_last() =~= gs.take(n));
        lemma_match_list_into_none_suffix(acc, ks, gs, n + 1);
    } else {
        assert(ks.take(n) =~= ks);
        assert(gs.take(n) =~= gs);
    }
}

/// Folding from a missing match gives no match.
pub proof fn lemma_match_list_into_none(ks: Seq<ObjV>, gs: Seq<ObjV>)
    ensures
        match_list_into(None, ks, gs) is None,
    decreases ks.len(),
{
    if ks.len() > 0 && gs.len() > 0 {
        lemma_match_list_into_none(ks.drop_last(), gs.drop_last());
    }
}

} // verus!

