//! What the full check of an atomic fact gives: the known facts, the
//! builtin rules, and then the known universal facts, whose requirements
//! (parameter types and domain facts) are checked one level deeper.
//!
//! The recursive definitions are closed; each comes with a lemma that
//! unfolds it once.
use vstd::prelude::*;
use crate::obj::ObjV;
use crate::fact::{AtomicFactV, same_relation, fact_args};
use crate::runtime::{
    Runtime, StmtResult, VerifiedBy, ParamTypeV, ParamGroup, KnownForallFact, is_known,
};
use crate::arg_map::ArgMapV;
use crate::subst::{inst_obj_spec, inst_fact_spec, BoundKind};
use crate::builtin::{known_equal, builtin_result, rule_result};
use crate::equality::equality_rule;
use crate::known_forall_match::{match_spec, match_lists};
use crate::standard_sets::standard_set_subset;
use crate::known_forall_profile::{KnownForallProfile, counters_consistent};

verus! {

/// A disabled profile stays as it is, counting never turns a profile on or
/// off, and counters that agree with one another keep agreeing.
pub open spec fn profile_kept(before: KnownForallProfile, after: KnownForallProfile) -> bool {
    &&& after.enabled == before.enabled
    &&& !before.enabled ==> after == before
    &&& counters_consistent(before.counters) ==> counters_consistent(after.counters)
}

/// The parameters of one group, each with the group's type.
pub open spec fn group_entries(g: ParamGroup) -> Seq<(Seq<char>, ParamTypeV)> {
    Seq::new(g.params@.len(), |i: int| (g.params@[i]@, g.param_type@))
}

/// All parameters in order, each with its type.
pub open spec fn flat_params(gs: Seq<ParamGroup>) -> Seq<(Seq<char>, ParamTypeV)>
    decreases gs.len(),
{
    if gs.len() == 0 {
        Seq::empty()
    } else {
        flat_params(gs.drop_last()) + group_entries(gs.last())
    }
}

/// Every parameter is bound.
pub open spec fn params_bound(flat: Seq<(Seq<char>, ParamTypeV)>, m: ArgMapV) -> bool {
    forall|i: int| 0 <= i < flat.len() ==> m.contains_key(#[trigger] flat[i].0)
}

/// The object bound to each parameter, in order.
pub open spec fn args_for(flat: Seq<(Seq<char>, ParamTypeV)>, m: ArgMapV) -> Seq<ObjV> {
    Seq::new(flat.len(), |i: int| m[flat[i].0])
}

/// The first `n` parameters bound to the first `n` arguments.
pub open spec fn bind_first(flat: Seq<(Seq<char>, ParamTypeV)>, args: Seq<ObjV>, n: nat) -> ArgMapV
    decreases n,
{
    if n == 0 {
        Map::empty()
    } else {
        bind_first(flat, args, (n - 1) as nat).insert(flat[n - 1].0, args[n - 1])
    }
}

/// A parameter type with its parameters instantiated.
pub open spec fn inst_param_type_v(t: ParamTypeV, m: ArgMapV, k: BoundKind) -> ParamTypeV {
    match t {
        ParamTypeV::Obj(o) => ParamTypeV::Obj(inst_obj_spec(o, m, k)),
        _ => t,
    }
}

/// The fact that an object has a parameter type.
pub open spec fn param_type_fact_v(t: ParamTypeV, obj: ObjV) -> AtomicFactV {
    match t {
        ParamTypeV::Obj(s) => AtomicFactV::InFact(obj, s),
        ParamTypeV::AnySet => AtomicFactV::IsSetFact(obj),
        ParamTypeV::NonemptySet => AtomicFactV::IsNonemptySetFact(obj),
        ParamTypeV::FiniteSet => AtomicFactV::IsFiniteSetFact(obj),
    }
}

/// The smaller of two lengths.
pub open spec fn min_len(a: nat, b: nat) -> nat {
    if a <= b {
        a
    } else {
        b
    }
}

/// Matching a membership in a standard set against a known universal
/// membership: `Some(None)` when the two do not match, `None` when the facts
/// are not both memberships in standard sets.
pub open spec fn in_fact_standard_set_target(rt: &Runtime, k: AtomicFactV, g: AtomicFactV) -> Option<Option<ArgMapV>> {
    match (k, g) {
        (AtomicFactV::InFact(ke, ObjV::StandardSet(ks)), AtomicFactV::InFact(ge, ObjV::StandardSet(gs))) =>
            match match_spec(ke, ge) {
                None => Some(None),
                Some(m) => if standard_set_subset(ks, gs) {
                    Some(Some(m))
                } else if standard_set_subset(gs, ks) && is_known(rt, g) {
                    Some(Some(m))
                } else {
                    Some(None)
                },
            },
        _ => None,
    }
}

/// The binding that matches the fact inside a known universal fact against
/// the given fact.
pub open spec fn forall_arg_match(rt: &Runtime, k: AtomicFactV, g: AtomicFactV) -> Option<ArgMapV> {
    match in_fact_standard_set_target(rt, k, g) {
        Some(r) => r,
        None => match_lists(fact_args(k), fact_args(g)),
    }
}

/// The requirements of a known universal fact hold under a binding: every
/// parameter is bound, the bound objects have the parameter types, and the
/// domain facts hold once instantiated, each checked one level deeper.
pub closed spec fn requirements_hold(rt: &Runtime, kf: KnownForallFact, m: ArgMapV, d: nat) -> bool
    decreases d, 1nat,
{
    let flat = flat_params(kf.params@);
    params_bound(flat, m) && d > 0
        && param_types_result(rt, kf.params@, args_for(flat, m), (d - 1) as nat).spec_is_true()
        && forall|j: int| 0 <= j < kf.dom@.len() ==> atomic_fact_result(
            rt,
            inst_fact_spec(#[trigger] kf.dom@[j]@, m, BoundKind::Forall),
            (d - 1) as nat,
        ).spec_is_true()
}

/// The given fact is an instance of the known universal fact.
pub closed spec fn candidate_holds(rt: &Runtime, kf: KnownForallFact, f: AtomicFactV, d: nat) -> bool
    decreases d, 2nat,
{
    same_relation(kf.then_fact@, f) && match forall_arg_match(rt, kf.then_fact@, f) {
        Some(m) => requirements_hold(rt, kf, m, d),
        None => false,
    }
}

/// The given fact is an instance of a known universal fact of the environment.
pub closed spec fn env_forall_holds(rt: &Runtime, i: int, f: AtomicFactV, d: nat) -> bool
    decreases d, 3nat,
{
    exists|j: int| 0 <= j < rt.environment_stack@[i].known_forall_facts@.len() && candidate_holds(
        rt,
        #[trigger] rt.environment_stack@[i].known_forall_facts@[j],
        f,
        d,
    )
}

/// The given fact is an instance of some known universal fact.
pub closed spec fn forall_holds(rt: &Runtime, f: AtomicFactV, d: nat) -> bool
    decreases d, 4nat,
{
    exists|i: int| #![trigger rt.environment_stack@[i]] 0 <= i < rt.environment_stack@.len() && env_forall_holds(rt, i, f, d)
}

/// The check by known universal facts; an equality may also be an instance
/// with its sides swapped.
pub closed spec fn known_forall_result(rt: &Runtime, f: AtomicFactV, d: nat) -> StmtResult
    decreases d, 5nat,
{
    if forall_holds(rt, f, d) {
        StmtResult::FactualStmtSuccess(VerifiedBy::KnownForallFact)
    } else {
        match f {
            AtomicFactV::EqualFact(l, r) => if forall_holds(rt, AtomicFactV::EqualFact(r, l), d) {
                StmtResult::FactualStmtSuccess(VerifiedBy::KnownForallFact)
            } else {
                StmtResult::StmtUnknown
            },
            _ => StmtResult::StmtUnknown,
        }
    }
}

/// The full check of an atomic fact: known, then builtin, then an instance
/// of a known universal fact.
pub closed spec fn atomic_fact_result(rt: &Runtime, f: AtomicFactV, d: nat) -> StmtResult
    decreases d, 6nat,
{
    match f {
        AtomicFactV::EqualFact(l, r) => if known_equal(rt, l, r) {
            StmtResult::FactualStmtSuccess(VerifiedBy::KnownFact)
        } else if equality_rule(rt, l, r, d) is Some {
            rule_result(equality_rule(rt, l, r, d))
        } else {
            known_forall_result(rt, f, d)
        },
        _ => if is_known(rt, f) {
            StmtResult::FactualStmtSuccess(VerifiedBy::KnownFact)
        } else if builtin_result(rt, f, d).spec_is_true() {
            builtin_result(rt, f, d)
        } else {
            known_forall_result(rt, f, d)
        },
    }
}

/// Each argument has the type of its parameter, the types instantiated with
/// the parameters bound to the arguments.
pub closed spec fn param_types_result(rt: &Runtime, groups: Seq<ParamGroup>, args: Seq<ObjV>, d: nat) -> StmtResult
    decreases d, 7nat,
{
    let flat = flat_params(groups);
    let n = min_len(flat.len(), args.len());
    let b = bind_first(flat, args, n);
    if forall|i: int| 0 <= i < n ==> atomic_fact_result(
        rt,
        param_type_fact_v(inst_param_type_v((#[trigger] flat[i]).1, b, BoundKind::Forall), args[i]),
        d,
    ).spec_is_true() {
        StmtResult::NonFactualStmtSuccess
    } else {
        StmtResult::StmtUnknown
    }
}


/// Unfolds [`requirements_hold`] once.
pub proof fn lemma_requirements_hold(rt: &Runtime, kf: KnownForallFact, m: ArgMapV, d: nat)
    ensures
        requirements_hold(rt, kf, m, d) == (params_bound(flat_params(kf.params@), m) && d > 0
            && param_types_result(rt, kf.params@, args_for(flat_params(kf.params@), m), (d - 1) as nat).spec_is_true()
            && forall|j: int| 0 <= j < kf.dom@.len() ==> atomic_fact_result(
                rt,
                inst_fact_spec(#[trigger] kf.dom@[j]@, m, BoundKind::Forall),
                (d - 1) as nat,
            ).spec_is_true()),
{
}

/// Unfolds [`candidate_holds`] once.
pub proof fn lemma_candidate_holds(rt: &Runtime, kf: KnownForallFact, f: AtomicFactV, d: nat)
    ensures
        candidate_holds(rt, kf, f, d) == (same_relation(kf.then_fact@, f) && match forall_arg_match(rt, kf.then_fact@, f) {
            Some(m) => requirements_hold(rt, kf, m, d),
            None => false,
        }),
{
}

/// Unfolds [`env_forall_holds`] once.
pub proof fn lemma_env_forall_holds(rt: &Runtime, i: int, f: AtomicFactV, d: nat)
    ensures
        env_forall_holds(rt, i, f, d) == exists|j: int| 0 <= j < rt.environment_stack@[i].known_forall_facts@.len()
            && candidate_holds(rt, #[trigger] rt.environment_stack@[i].known_forall_facts@[j], f, d),
{
}

/// Unfolds [`forall_holds`] once.
pub proof fn lemma_forall_holds(rt: &Runtime, f: AtomicFactV, d: nat)
    ensures
        forall_holds(rt, f, d) == exists|i: int| #![trigger rt.environment_stack@[i]] 0 <= i < rt.environment_stack@.len() && env_forall_holds(rt, i, f, d),
{
    if exists|i: int| #![trigger rt.environment_stack@[i]] 0 <= i < rt.environment_stack@.len() && env_forall_holds(rt, i, f, d) {
        let i = choose|i: int| #![trigger rt.environment_stack@[i]] 0 <= i < rt.environment_stack@.len() && env_forall_holds(rt, i, f, d);
        assert(env_forall_holds(rt, i, f, d));
    }
}

/// Unfolds [`known_forall_result`] once.
pub proof fn lemma_known_forall_result(rt: &Runtime, f: AtomicFactV, d: nat)
    ensures
        known_forall_result(rt, f, d) == (if forall_holds(rt, f, d) {
            StmtResult::FactualStmtSuccess(VerifiedBy::KnownForallFact)
        } else {
            match f {
                AtomicFactV::EqualFact(l, r) => if forall_holds(rt, AtomicFactV::EqualFact(r, l), d) {
                    StmtResult::FactualStmtSuccess(VerifiedBy::KnownForallFact)
                } else {
                    StmtResult::StmtUnknown
                },
                _ => StmtResult::StmtUnknown,
            }
        }),
{
}

/// Unfolds [`atomic_fact_result`] once.
pub proof fn lemma_atomic_fact_result(rt: &Runtime, f: AtomicFactV, d: nat)
    ensures
        atomic_fact_result(rt, f, d) == match f {
            AtomicFactV::EqualFact(l, r) => if known_equal(rt, l, r) {
                StmtResult::FactualStmtSuccess(VerifiedBy::KnownFact)
            } else if equality_rule(rt, l, r, d) is Some {
                rule_result(equality_rule(rt, l, r, d))
            } else {
                known_forall_result(rt, f, d)
            },
            _ => if is_known(rt, f) {
                StmtResult::FactualStmtSuccess(VerifiedBy::KnownFact)
            } else if builtin_result(rt, f, d).spec_is_true() {
                builtin_result(rt, f, d)
            } else {
                known_forall_result(rt, f, d)
            },
        },
{
}

/// Unfolds [`param_types_result`] once.
pub proof fn lemma_param_types_result(rt: &Runtime, groups: Seq<ParamGroup>, args: Seq<ObjV>, d: nat)
    ensures
        param_types_result(rt, groups, args, d) == (if forall|i: int| 0 <= i < min_len(flat_params(groups).len(), args.len())
            ==> atomic_fact_result(
            rt,
            param_type_fact_v(
                inst_param_type_v((#[trigger] flat_params(groups)[i]).1, bind_first(flat_params(groups), args, min_len(flat_params(groups).len(), args.len())), BoundKind::Forall),
                args[i],
            ),
            d,
        ).spec_is_true() {
            StmtResult::NonFactualStmtSuccess
        } else {
            StmtResult::StmtUnknown
        }),
{
}

/// An equality is an instance of the known universal facts exactly when its
/// reversed form is: equalities are searched both ways round.
pub proof fn law_known_forall_equality_either_way(rt: &Runtime, a: ObjV, b: ObjV, d: nat)
    ensures
        known_forall_result(rt, AtomicFactV::EqualFact(a, b), d) == known_forall_result(rt, AtomicFactV::EqualFact(b, a), d),
{
    lemma_known_forall_result(rt, AtomicFactV::EqualFact(a, b), d);
    lemma_known_forall_result(rt, AtomicFactV::EqualFact(b, a), d);
}

/// A known fact holds by the full check: a known atomic fact, or a known
/// equality in either direction.
pub proof fn law_known_fact_holds(rt: &Runtime, f: AtomicFactV, d: nat)
    requires
        match f {
            AtomicFactV::EqualFact(l, r) => known_equal(rt, l, r),
            _ => is_known(rt, f),
        },
    ensures
        atomic_fact_result(rt, f, d) == StmtResult::FactualStmtSuccess(VerifiedBy::KnownFact),
{
}

/// Whatever the builtin rules prove, the full check proves too.
pub proof fn law_builtin_fact_holds(rt: &Runtime, f: AtomicFactV, d: nat)
    requires
        !(f is EqualFact),
        builtin_result(rt, f, d).spec_is_true(),
    ensures
        atomic_fact_result(rt, f, d).spec_is_true(),
{
}

} // verus!
