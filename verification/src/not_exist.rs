//! A universal fact derived from a negated existential: from
//! `not exist x st {F1, ..., Fn}` follows `forall x: not F1 or ... or not Fn`.
use vstd::prelude::*;
use crate::obj::{Obj, ObjV, view_list, lemma_view_list};
use crate::fact::{AtomicFact, AtomicFactV, reversed_fact, law_reversed_fact_involution};
use crate::runtime::{Runtime, ParamGroup, ParamTypeV, RuntimeError, KnownForallFact};
use crate::compound::{AndFact, ChainFact, ChainRelation, chain_steps};
use crate::arg_map::{ArgMap, ArgMapV};
use crate::subst::{BoundKind, inst_fact, inst_fact_spec, inst_list, inst_list_spec};
use crate::full_check::{inst_param_type_v, flat_params, group_entries};
use crate::pipeline::inst_param_type;

verus! {

/// One conjunct of the body of an existential fact.
#[derive(Debug)]
pub enum ExistBodyFact {
    AtomicFact(AtomicFact),
    AndFact(AndFact),
    ChainFact(ChainFact),
    /// A disjunction.
    OrFact(Vec<AtomicFact>),
    /// A universal fact written inside the body.
    InlineForall(KnownForallFact),
}

/// `exist params st {facts}`, or its negation `not exist params st {facts}`.
#[derive(Debug)]
pub struct ExistFact {
    pub is_not_exist: bool,
    pub params: Vec<ParamGroup>,
    pub facts: Vec<ExistBodyFact>,
}

/// `forall params: d1 or d2 or ...`; a single disjunct stands alone.
#[derive(Debug)]
pub struct ForallOrFact {
    pub params: Vec<ParamGroup>,
    pub disjuncts: Vec<AtomicFact>,
}

/// The views of a list of facts.
pub open spec fn facts_view(s: Seq<AtomicFact>) -> Seq<AtomicFactV> {
    s.map_values(|f: AtomicFact| f@)
}

/// Each parameter bound to the universal parameter of the same name, later
/// entries written last.
pub open spec fn forall_binding(entries: Seq<(Seq<char>, ParamTypeV)>) -> ArgMapV
    decreases entries.len(),
{
    if entries.len() == 0 {
        Map::empty()
    } else {
        forall_binding(entries.drop_last()).insert(entries.last().0, ObjV::ForallParam(entries.last().0))
    }
}

/// The type of group `i`, its parameters and those of the groups before it
/// renamed to universal parameters.
pub open spec fn renamed_group_type(groups: Seq<ParamGroup>, i: int) -> ParamTypeV {
    inst_param_type_v(groups[i].param_type@, forall_binding(flat_params(groups.take(i + 1))), BoundKind::Exist)
}

/// A `$fn_eq` fact, whose negation is not derived here.
pub open spec fn is_fn_equal(f: AtomicFactV) -> bool {
    f is FnEqualFact || f is FnEqualInFact
}

/// The negation of each fact, or an error when one of them is a `$fn_eq` fact.
pub open spec fn negated_facts(fs: Seq<AtomicFactV>) -> Result<Seq<AtomicFactV>, RuntimeError> {
    if exists|i: int| 0 <= i < fs.len() && is_fn_equal(#[trigger] fs[i]) {
        Err(RuntimeError::NotExistFnEqualInBody)
    } else {
        Ok(fs.map_values(|f: AtomicFactV| reversed_fact(f)))
    }
}

/// The disjuncts that one conjunct of the body gives, its existential
/// parameters replaced as `m` says.
pub open spec fn conjunct_negation(c: ExistBodyFact, m: ArgMapV) -> Result<Seq<AtomicFactV>, RuntimeError> {
    match c {
        ExistBodyFact::AtomicFact(a) => negated_facts(seq![inst_fact_spec(a@, m, BoundKind::Exist)]),
        ExistBodyFact::AndFact(af) => if af.facts@.len() == 0 {
            Err(RuntimeError::NotExistEmptyAnd)
        } else {
            negated_facts(facts_view(af.facts@).map_values(|f: AtomicFactV| inst_fact_spec(f, m, BoundKind::Exist)))
        },
        ExistBodyFact::ChainFact(cf) => match chain_steps(
            inst_list_spec(view_list(cf.objs@), m, BoundKind::Exist),
            cf.relations@,
        ) {
            None => Err(RuntimeError::MalformedChain),
            Some(steps) => if steps.len() == 0 {
                Err(RuntimeError::NotExistEmptyChain)
            } else {
                negated_facts(steps)
            },
        },
        ExistBodyFact::OrFact(_) => Err(RuntimeError::NotExistOrInBody),
        ExistBodyFact::InlineForall(_) => Err(RuntimeError::NotExistBodyCannotBeNegated),
    }
}

/// The disjuncts of all conjuncts in order, or the error of the first
/// conjunct that fails.
pub open spec fn body_negation(cs: Seq<ExistBodyFact>, m: ArgMapV) -> Result<Seq<AtomicFactV>, RuntimeError>
    decreases cs.len(),
{
    if cs.len() == 0 {
        Ok(Seq::empty())
    } else {
        match body_negation(cs.drop_last(), m) {
            Err(e) => Err(e),
            Ok(s) => match conjunct_negation(cs.last(), m) {
                Err(e) => Err(e),
                Ok(t) => Ok(s + t),
            },
        }
    }
}

/// The disjuncts derived from `f`, or the error that refuses it.
pub open spec fn demorgan_disjuncts(f: ExistFact) -> Result<Seq<AtomicFactV>, RuntimeError> {
    if !f.is_not_exist {
        Err(RuntimeError::NotANotExistFact)
    } else if flat_params(f.params@).len() == 0 {
        Err(RuntimeError::NotExistWithoutParams)
    } else if f.facts@.len() == 0 {
        Err(RuntimeError::NotExistWithEmptyBody)
    } else {
        body_negation(f.facts@, forall_binding(flat_params(f.params@)))
    }
}

/// The atomic facts that one conjunct of the body states, its existential
/// parameters replaced as `m` says.
pub open spec fn conjunct_atoms(c: ExistBodyFact, m: ArgMapV) -> Seq<AtomicFactV> {
    match c {
        ExistBodyFact::AtomicFact(a) => seq![inst_fact_spec(a@, m, BoundKind::Exist)],
        ExistBodyFact::AndFact(af) => facts_view(af.facts@).map_values(|f: AtomicFactV| inst_fact_spec(f, m, BoundKind::Exist)),
        ExistBodyFact::ChainFact(cf) => match chain_steps(inst_list_spec(view_list(cf.objs@), m, BoundKind::Exist), cf.relations@) {
            Some(steps) => steps,
            None => Seq::empty(),
        },
        _ => Seq::empty(),
    }
}

/// The atomic facts that the body states, conjunct after conjunct.
pub open spec fn body_atoms(cs: Seq<ExistBodyFact>, m: ArgMapV) -> Seq<AtomicFactV>
    decreases cs.len(),
{
    if cs.len() == 0 {
        Seq::empty()
    } else {
        body_atoms(cs.drop_last(), m) + conjunct_atoms(cs.last(), m)
    }
}

/// Negating the facts of a list and negating again gives the list back.
proof fn lemma_negate_twice(fs: Seq<AtomicFactV>)
    ensures
        fs.map_values(|f: AtomicFactV| reversed_fact(f)).map_values(|f: AtomicFactV| reversed_fact(f)) == fs,
{
    let once = fs.map_values(|f: AtomicFactV| reversed_fact(f));
    let twice = once.map_values(|f: AtomicFactV| reversed_fact(f));
    assert forall|i: int| 0 <= i < fs.len() implies #[trigger] twice[i] == fs[i] by {
        law_reversed_fact_involution(fs[i]);
    }
    assert(twice =~= fs);
}

/// Each derived disjunct is the negation of a body fact, in order: negating
/// the disjuncts of a derived body gives back the body's facts.
proof fn lemma_body_negation_undone(cs: Seq<ExistBodyFact>, m: ArgMapV)
    requires
        body_negation(cs, m) is Ok,
    ensures
        body_negation(cs, m)->Ok_0.map_values(|f: AtomicFactV| reversed_fact(f)) == body_atoms(cs, m),
    decreases cs.len(),
{
    if cs.len() > 0 {
        let prefix = cs.drop_last();
        lemma_body_negation_undone(prefix, m);
        let s = body_negation(prefix, m)->Ok_0;
        let t = conjunct_negation(cs.last(), m)->Ok_0;
        let atoms = conjunct_atoms(cs.last(), m);
        assert(t == atoms.map_values(|f: AtomicFactV| reversed_fact(f)));
        lemma_negate_twice(atoms);
        assert((s + t).map_values(|f: AtomicFactV| reversed_fact(f)) =~= s.map_values(|f: AtomicFactV| reversed_fact(f))
            + t.map_values(|f: AtomicFactV| reversed_fact(f)));
    }
}

/// De Morgan: when `not exist x st {F1, ..., Fn}` gives `forall x: D1 or ... or Dk`,
/// negating the disjuncts `D1, ..., Dk` gives back the atomic facts of the body
/// `F1, ..., Fn`, in order, with the existential parameters renamed.
pub proof fn law_demorgan_disjuncts_negate_body(f: ExistFact)
    requires
        demorgan_disjuncts(f) is Ok,
    ensures
        demorgan_disjuncts(f)->Ok_0.map_values(|g: AtomicFactV| reversed_fact(g))
            == body_atoms(f.facts@, forall_binding(flat_params(f.params@))),
{
    lemma_body_negation_undone(f.facts@, forall_binding(flat_params(f.params@)));
}

/// Adding entries one by one to a binding.
proof fn lemma_forall_binding_push(e: Seq<(Seq<char>, ParamTypeV)>, x: (Seq<char>, ParamTypeV))
    ensures
        forall_binding(e.push(x)) == forall_binding(e).insert(x.0, ObjV::ForallParam(x.0)),
{
    assert(e.push(x).drop_last() =~= e);
}

/// The entries of the first `i + 1` groups are those of the first `i` and of group `i`.
proof fn lemma_flat_params_take(gs: Seq<ParamGroup>, i: int)
    requires
        0 <= i < gs.len(),
    ensures
        flat_params(gs.take(i + 1)) == flat_params(gs.take(i)) + group_entries(gs[i]),
{
    assert(gs.take(i + 1).drop_last() =~= gs.take(i));
}

/// Once a prefix of the body fails, every longer prefix fails the same way.
proof fn lemma_body_negation_stops(cs: Seq<ExistBodyFact>, m: ArgMapV, k: int, n: int)
    requires
        0 <= k <= n <= cs.len(),
        body_negation(cs.take(k), m) is Err,
    ensures
        body_negation(cs.take(n), m) == body_negation(cs.take(k), m),
    decreases n - k,
{
    if n > k {
        lemma_body_negation_stops(cs, m, k, n - 1);
        assert(cs.take(n).drop_last() =~= cs.take(n - 1));
    }
}

/// The negation of one atomic fact.
pub fn demorgan_negate_atomic_or_err(a: &AtomicFact) -> (r: Result<AtomicFact, RuntimeError>)
    ensures
        is_fn_equal(a@) ==> r == Err::<AtomicFact, RuntimeError>(RuntimeError::NotExistFnEqualInBody),
        !is_fn_equal(a@) ==> (r matches Ok(g) && g@ == reversed_fact(a@)),
{
    match a {
        AtomicFact::FnEqualFact(_, _) => Err(RuntimeError::NotExistFnEqualInBody),
        AtomicFact::FnEqualInFact(_, _, _) => Err(RuntimeError::NotExistFnEqualInBody),
        _ => Ok(a.make_reversed()),
    }
}

/// The negation of each fact, in order.
pub fn demorgan_negate_facts(facts: &Vec<AtomicFact>) -> (r: Result<Vec<AtomicFact>, RuntimeError>)
    ensures
        match negated_facts(facts_view(facts@)) {
            Ok(s) => r matches Ok(v) && facts_view(v@) == s,
            Err(e) => r == Err::<Vec<AtomicFact>, RuntimeError>(e),
        },
{
    let ghost fv = facts_view(facts@);
    let mut out: Vec<AtomicFact> = Vec::new();
    let mut i: usize = 0;
    while i < facts.len()
        invariant
            i <= facts.len(),
            fv == facts_view(facts@),
            out@.len() == i,
            forall|k: int| 0 <= k < i ==> !is_fn_equal(#[trigger] fv[k]),
            forall|k: int| 0 <= k < i ==> #[trigger] out@[k]@ == reversed_fact(fv[k]),
        decreases facts.len() - i,
    {
        match demorgan_negate_atomic_or_err(&facts[i]) {
            Ok(g) => out.push(g),
            Err(e) => {
                assert(is_fn_equal(fv[i as int]));
                return Err(e);
            },
        }
        i = i + 1;
    }
    assert(facts_view(out@) =~= fv.map_values(|f: AtomicFactV| reversed_fact(f)));
    Ok(out)
}

/// A copy of the relations of a chain.
fn copy_relations(rels: &Vec<ChainRelation>) -> (r: Vec<ChainRelation>)
    ensures
        r@ == rels@,
{
    let mut out: Vec<ChainRelation> = Vec::new();
    let mut i: usize = 0;
    while i < rels.len()
        invariant
            i <= rels.len(),
            out@ == rels@.take(i as int),
        decreases rels.len() - i,
    {
        out.push(rels[i]);
        i = i + 1;
        assert(out@ =~= rels@.take(i as int));
    }
    assert(rels@.take(rels@.len() as int) =~= rels@);
    out
}

/// A copy of a list of names.
fn copy_names(names: &Vec<String>) -> (r: Vec<String>)
    ensures
        r@ == names@,
{
    let mut out: Vec<String> = Vec::new();
    let mut i: usize = 0;
    while i < names.len()
        invariant
            i <= names.len(),
            out@ == names@.take(i as int),
        decreases names.len() - i,
    {
        out.push(names[i].clone());
        i = i + 1;
        assert(out@ =~= names@.take(i as int));
    }
    assert(names@.take(names@.len() as int) =~= names@);
    out
}

/// The disjuncts that one conjunct of the body gives, its existential
/// parameters first replaced as `m` says.
pub fn demorgan_negate_exist_body_conjunct(conjunct: &ExistBodyFact, m: &ArgMap) -> (r: Result<Vec<AtomicFact>, RuntimeError>)
    requires
        m.wf(),
    ensures
        match conjunct_negation(*conjunct, m@) {
            Ok(s) => r matches Ok(v) && facts_view(v@) == s,
            Err(e) => r == Err::<Vec<AtomicFact>, RuntimeError>(e),
        },
{
    match conjunct {
        ExistBodyFact::AtomicFact(a) => {
            let mut one: Vec<AtomicFact> = Vec::new();
            one.push(inst_fact(a, m, BoundKind::Exist));
            assert(facts_view(one@) =~= seq![inst_fact_spec(a@, m@, BoundKind::Exist)]);
            demorgan_negate_facts(&one)
        },
        ExistBodyFact::AndFact(af) => {
            if af.facts.len() == 0 {
                return Err(RuntimeError::NotExistEmptyAnd);
            }
            let ghost target = facts_view(af.facts@).map_values(|f: AtomicFactV| inst_fact_spec(f, m@, BoundKind::Exist));
            let mut insts: Vec<AtomicFact> = Vec::new();
            let mut i: usize = 0;
            while i < af.facts.len()
                invariant
                    m.wf(),
                    i <= af.facts.len(),
                    insts@.len() == i,
                    target == facts_view(af.facts@).map_values(|f: AtomicFactV| inst_fact_spec(f, m@, BoundKind::Exist)),
                    forall|k: int| 0 <= k < i ==> #[trigger] insts@[k]@ == target[k],
                decreases af.facts.len() - i,
            {
                insts.push(inst_fact(&af.facts[i], m, BoundKind::Exist));
                i = i + 1;
            }
            assert(facts_view(insts@) =~= target);
            demorgan_negate_facts(&insts)
        },
        ExistBodyFact::ChainFact(cf) => {
            let chain = ChainFact { objs: inst_list(&cf.objs, m, BoundKind::Exist), relations: copy_relations(&cf.relations) };
            match chain.facts() {
                Err(e) => Err(e),
                Ok(atomics) => {
                    if atomics.len() == 0 {
                        return Err(RuntimeError::NotExistEmptyChain);
                    }
                    demorgan_negate_facts(&atomics)
                },
            }
        },
        ExistBodyFact::OrFact(_) => Err(RuntimeError::NotExistOrInBody),
        ExistBodyFact::InlineForall(_) => Err(RuntimeError::NotExistBodyCannotBeNegated),
    }
}

/// The parameter groups with their types renamed to universal parameters,
/// the binding of every parameter, and whether there is any parameter.
pub fn demorgan_param_groups(params: &Vec<ParamGroup>) -> (r: (Vec<ParamGroup>, ArgMap, bool))
    ensures
        r.1.wf(),
        r.1@ == forall_binding(flat_params(params@)),
        r.2 <==> flat_params(params@).len() > 0,
        r.0@.len() == params@.len(),
        forall|i: int| 0 <= i < params@.len() ==> (#[trigger] r.0@[i]).params@ == params@[i].params@
            && r.0@[i].param_type@ == renamed_group_type(params@, i),
{
    let ghost gs = params@;
    let mut binding = ArgMap::new();
    let mut groups: Vec<ParamGroup> = Vec::new();
    let mut any_param = false;
    let mut gi: usize = 0;
    while gi < params.len()
        invariant
            gi <= params.len(),
            gs == params@,
            binding.wf(),
            binding@ == forall_binding(flat_params(gs.take(gi as int))),
            any_param <==> flat_params(gs.take(gi as int)).len() > 0,
            groups@.len() == gi,
            forall|i: int| 0 <= i < gi ==> (#[trigger] groups@[i]).params@ == gs[i].params@
                && groups@[i].param_type@ == renamed_group_type(gs, i),
        decreases params.len() - gi,
    {
        let g = &params[gi];
        let ghost before = flat_params(gs.take(gi as int));
        let mut j: usize = 0;
        while j < g.params.len()
            invariant
                j <= g.params.len(),
                binding.wf(),
                binding@ == forall_binding(before + group_entries(*g).take(j as int)),
            decreases g.params.len() - j,
        {
            let name = g.params[j].clone();
            let param = Obj::ForallParam(g.params[j].clone());
            proof {
                let e = before + group_entries(*g).take(j as int);
                assert(before + group_entries(*g).take(j + 1) =~= e.push(group_entries(*g)[j as int]));
                lemma_forall_binding_push(e, group_entries(*g)[j as int]);
            }
            binding.insert(name, param);
            j = j + 1;
        }
        proof {
            lemma_flat_params_take(gs, gi as int);
            assert(group_entries(*g).take(g.params@.len() as int) =~= group_entries(*g));
        }
        if g.params.len() > 0 {
            any_param = true;
        }
        let t = inst_param_type(&g.param_type, &binding, BoundKind::Exist);
        groups.push(ParamGroup { params: copy_names(&g.params), param_type: t });
        gi = gi + 1;
    }
    proof {
        assert(gs.take(gs.len() as int) =~= gs);
    }
    (groups, binding, any_param)
}

/// The disjuncts of all conjuncts of the body in order, each conjunct's
/// existential parameters replaced as `m` says.
pub fn demorgan_negate_body(facts: &Vec<ExistBodyFact>, m: &ArgMap) -> (r: Result<Vec<AtomicFact>, RuntimeError>)
    requires
        m.wf(),
    ensures
        match body_negation(facts@, m@) {
            Ok(s) => r matches Ok(v) && facts_view(v@) == s,
            Err(e) => r == Err::<Vec<AtomicFact>, RuntimeError>(e),
        },
{
    let ghost cs = facts@;
    let mut disjuncts: Vec<AtomicFact> = Vec::new();
    let mut ci: usize = 0;
    proof {
        assert(cs.take(0) =~= Seq::<ExistBodyFact>::empty());
        assert(facts_view(disjuncts@) =~= Seq::<AtomicFactV>::empty());
    }
    while ci < facts.len()
        invariant
            ci <= facts.len(),
            cs == facts@,
            m.wf(),
            body_negation(cs.take(ci as int), m@) == Ok::<Seq<AtomicFactV>, RuntimeError>(facts_view(disjuncts@)),
        decreases facts.len() - ci,
    {
        proof {
            assert(cs.take(ci + 1).drop_last() =~= cs.take(ci as int));
        }
        match demorgan_negate_exist_body_conjunct(&facts[ci], m) {
            Err(e) => {
                proof {
                    lemma_body_negation_stops(cs, m@, ci + 1, cs.len() as int);
                    assert(cs.take(cs.len() as int) =~= cs);
                }
                return Err(e);
            },
            Ok(part) => {
                let mut part = part;
                let ghost before = disjuncts@;
                let ghost added = part@;
                disjuncts.append(&mut part);
                assert(facts_view(disjuncts@) =~= facts_view(before) + facts_view(added));
            },
        }
        ci = ci + 1;
    }
    proof {
        assert(cs.take(cs.len() as int) =~= cs);
    }
    Ok(disjuncts)
}

impl Runtime {
    /// From `not exist x st {F1, ..., Fn}` derive `forall x: not F1 or ... or not Fn`:
    /// the existential parameters become universal ones, and each conjunct
    /// of the body gives the negations of its atomic facts.
    pub fn build_not_exist_demorgan_forall_fact(&self, not_exist: &ExistFact) -> (r: Result<ForallOrFact, RuntimeError>)
        ensures
            match demorgan_disjuncts(*not_exist) {
                Err(e) => r == Err::<ForallOrFact, RuntimeError>(e),
                Ok(s) => r matches Ok(g) && facts_view(g.disjuncts@) == s
                    && g.params@.len() == not_exist.params@.len()
                    && forall|i: int| 0 <= i < g.params@.len() ==> (#[trigger] g.params@[i]).params@ == not_exist.params@[i].params@
                        && g.params@[i].param_type@ == renamed_group_type(not_exist.params@, i),
            },
    {
        if !not_exist.is_not_exist {
            return Err(RuntimeError::NotANotExistFact);
        }
        let (groups, binding, any_param) = demorgan_param_groups(&not_exist.params);
        if !any_param {
            return Err(RuntimeError::NotExistWithoutParams);
        }
        if not_exist.facts.len() == 0 {
            return Err(RuntimeError::NotExistWithEmptyBody);
        }
        match demorgan_negate_body(&not_exist.facts, &binding) {
            Err(e) => Err(e),
            Ok(disjuncts) => Ok(ForallOrFact { params: groups, disjuncts }),
        }
    }
}

} // verus!
