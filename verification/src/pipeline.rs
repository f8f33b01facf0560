//! The full check of an atomic fact: the known facts, the builtin rules, and
//! then the known universal facts, whose requirements (parameter types and
//! domain facts) are checked in turn one level deeper.
use vstd::prelude::*;
use crate::obj::{Obj, ObjV, view_list, lemma_view_list};
use crate::fact::{AtomicFact, AtomicFactV, facts_same_relation};
use crate::runtime::{
    Runtime, StmtResult, VerifiedBy, RuntimeError, VerifyState, ParamType, ParamGroup,
    KnownForallFact, FILE_INDEX_FOR_BUILTIN,
};
use crate::arg_map::{ArgMap, opt_view, opt_wf};
use crate::subst::{inst_fact_spec, inst_obj, inst_fact, BoundKind};
use crate::standard_sets::standard_set_is_subset_eq;
use crate::full_check::{
    profile_kept, params_bound, group_entries, flat_params, args_for, bind_first, inst_param_type_v,
    param_type_fact_v, min_len, in_fact_standard_set_target, forall_arg_match, requirements_hold,
    candidate_holds, env_forall_holds, forall_holds, known_forall_result, atomic_fact_result,
    param_types_result, lemma_requirements_hold, lemma_candidate_holds, lemma_env_forall_holds,
    lemma_forall_holds, lemma_known_forall_result, lemma_atomic_fact_result,
    lemma_param_types_result,
};
use crate::known_forall_profile::{
    KnownForallProfile, KnownForallEnvKind, KnownForallSearchPhase, record_entry, record_success,
    record_unknown, record_candidate_attempt, record_arg_match, record_requirement_failure,
};

verus! {

/// The entries of a prefix of the groups, one group longer.
pub proof fn lemma_flat_params_take(gs: Seq<ParamGroup>, k: int)
    requires
        0 <= k < gs.len(),
    ensures
        flat_params(gs.take(k + 1)) == flat_params(gs.take(k)) + group_entries(gs[k]),
{
    assert(gs.take(k + 1).drop_last() =~= gs.take(k));
    assert(gs.take(k + 1).last() == gs[k]);
}

/// All parameters of the groups, each with its type.
pub fn flat_param_types(groups: &Vec<ParamGroup>) -> (r: Vec<(String, ParamType)>)
    ensures
        r@.len() == flat_params(groups@).len(),
        r@.map_values(|p: (String, ParamType)| (p.0@, p.1@)) == flat_params(groups@),
{
    let mut out: Vec<(String, ParamType)> = Vec::new();
    let mut gi: usize = 0;
    proof {
        assert(groups@.take(0) =~= Seq::<ParamGroup>::empty());
    }
    while gi < groups.len()
        invariant
            gi <= groups.len(),
            out@.len() == flat_params(groups@.take(gi as int)).len(),
            forall|i: int| 0 <= i < out@.len() ==> #[trigger] out@[i].0@ == flat_params(groups@.take(gi as int))[i].0
                && out@[i].1@ == flat_params(groups@.take(gi as int))[i].1,
        decreases groups.len() - gi,
    {
        let g = &groups[gi];
        let ghost before = flat_params(groups@.take(gi as int));
        proof {
            lemma_flat_params_take(groups@, gi as int);
        }
        let mut ni: usize = 0;
        while ni < g.params.len()
            invariant
                ni <= g.params.len(),
                g == groups@[gi as int],
                before == flat_params(groups@.take(gi as int)),
                out@.len() == before.len() + ni,
                forall|i: int| 0 <= i < before.len() ==> #[trigger] out@[i].0@ == before[i].0 && out@[i].1@ == before[i].1,
                forall|i: int| before.len() <= i < out@.len() ==> #[trigger] out@[i].0@ == group_entries(*g)[i - before.len()].0
                    && out@[i].1@ == group_entries(*g)[i - before.len()].1,
            decreases g.params.len() - ni,
        {
            out.push((g.params[ni].clone(), g.param_type.duplicate()));
            ni = ni + 1;
        }
        proof {
            let after = flat_params(groups@.take(gi + 1));
            assert(after == before + group_entries(*g));
            assert forall|i: int| 0 <= i < out@.len() implies #[trigger] out@[i].0@ == after[i].0
                && out@[i].1@ == after[i].1 by {
                if i >= before.len() {
                    assert(after[i] == group_entries(*g)[i - before.len()]);
                } else {
                    assert(after[i] == before[i]);
                }
            }
        }
        gi = gi + 1;
    }
    proof {
        assert(gi == groups.len());
        assert(groups@.take(gi as int) =~= groups@);
        assert(out@.map_values(|p: (String, ParamType)| (p.0@, p.1@)) =~= flat_params(groups@));
    }
    out
}

/// The parameter type with its parameters instantiated.
pub fn inst_param_type(t: &ParamType, m: &ArgMap, k: BoundKind) -> (r: ParamType)
    requires
        m.wf(),
    ensures
        r@ == inst_param_type_v(t@, m@, k),
{
    match t {
        ParamType::Obj(o) => ParamType::Obj(inst_obj(o, m, k)),
        ParamType::AnySet => ParamType::AnySet,
        ParamType::NonemptySet => ParamType::NonemptySet,
        ParamType::FiniteSet => ParamType::FiniteSet,
    }
}

/// The fact that `obj` has the parameter type.
pub fn param_type_fact(obj: Obj, t: &ParamType) -> (r: AtomicFact)
    ensures
        r@ == param_type_fact_v(t@, obj@),
{
    match t {
        ParamType::Obj(s) => AtomicFact::InFact(obj, s.duplicate()),
        ParamType::AnySet => AtomicFact::IsSetFact(obj),
        ParamType::NonemptySet => AtomicFact::IsNonemptySetFact(obj),
        ParamType::FiniteSet => AtomicFact::IsFiniteSetFact(obj),
    }
}

/// Bind the first parameters to the arguments, as many as there are of both.
pub fn bind_params_to_args(flat: &Vec<(String, ParamType)>, args: &Vec<Obj>) -> (r: ArgMap)
    ensures
        r.wf(),
        r@ == bind_first(
            flat@.map_values(|p: (String, ParamType)| (p.0@, p.1@)),
            view_list(args@),
            min_len(flat@.len(), args@.len()),
        ),
{
    let ghost fv = flat@.map_values(|p: (String, ParamType)| (p.0@, p.1@));
    proof {
        lemma_view_list(args@);
    }
    let n = if flat.len() <= args.len() {
        flat.len()
    } else {
        args.len()
    };
    let mut m = ArgMap::new();
    let mut i: usize = 0;
    while i < n
        invariant
            i <= n,
            n == min_len(flat@.len(), args@.len()),
            n <= flat@.len(),
            n <= args@.len(),
            fv == flat@.map_values(|p: (String, ParamType)| (p.0@, p.1@)),
            view_list(args@).len() == args@.len(),
            forall|j: int| 0 <= j < args@.len() ==> #[trigger] view_list(args@)[j] == args@[j]@,
            m.wf(),
            m@ == bind_first(fv, view_list(args@), i as nat),
        decreases n - i,
    {
        m.insert(flat[i].0.clone(), args[i].duplicate());
        proof {
            assert(fv[i as int].0 == flat@[i as int].0@);
        }
        i = i + 1;
    }
    m
}

/// The object bound to each parameter, in order, or `None` when some
/// parameter is not bound.
pub fn bound_args_for_params(flat: &Vec<(String, ParamType)>, arg_map: &ArgMap) -> (r: Option<Vec<Obj>>)
    requires
        arg_map.wf(),
    ensures
        r is Some <==> params_bound(flat@.map_values(|p: (String, ParamType)| (p.0@, p.1@)), arg_map@),
        r matches Some(v) ==> view_list(v@) == args_for(flat@.map_values(|p: (String, ParamType)| (p.0@, p.1@)), arg_map@),
{
    let ghost fv = flat@.map_values(|p: (String, ParamType)| (p.0@, p.1@));
    let mut args_for_params: Vec<Obj> = Vec::new();
    let mut i: usize = 0;
    while i < flat.len()
        invariant
            arg_map.wf(),
            i <= flat.len(),
            fv == flat@.map_values(|p: (String, ParamType)| (p.0@, p.1@)),
            args_for_params@.len() == i,
            forall|k: int| 0 <= k < i ==> arg_map@.contains_key(#[trigger] fv[k].0)
                && args_for_params@[k]@ == arg_map@[fv[k].0],
        decreases flat.len() - i,
    {
        match arg_map.get(&flat[i].0) {
            Some(obj) => args_for_params.push(obj.duplicate()),
            None => {
                assert(!arg_map@.contains_key(fv[i as int].0));
                return None;
            },
        }
        i = i + 1;
    }
    proof {
        lemma_view_list(args_for_params@);
        assert(view_list(args_for_params@) =~= args_for(fv, arg_map@));
    }
    Some(args_for_params)
}

impl Runtime {
    /// Which kind of environment the index names.
    pub fn known_forall_env_kind(&self, stack_idx: usize) -> (r: KnownForallEnvKind)
        ensures
            r == (if stack_idx == FILE_INDEX_FOR_BUILTIN {
                KnownForallEnvKind::Builtin
            } else {
                KnownForallEnvKind::User
            }),
    {
        if stack_idx == FILE_INDEX_FOR_BUILTIN {
            return KnownForallEnvKind::Builtin;
        }
        KnownForallEnvKind::User
    }

    /// Match a membership in a standard set against a known universal
    /// membership: a narrower known set gives a broader one directly; a
    /// broader known set gives a narrower one only when the given fact is
    /// itself known.
    pub fn match_in_fact_standard_set_target(&self, atomic_fact_in_known_forall: &AtomicFact, given_fact: &AtomicFact) -> (r: Option<Option<ArgMap>>)
        ensures
            r matches Some(x) ==> opt_wf(x),
            r matches Some(x) ==> in_fact_standard_set_target(self, atomic_fact_in_known_forall@, given_fact@) == Some(opt_view(x)),
            r is None <==> in_fact_standard_set_target(self, atomic_fact_in_known_forall@, given_fact@) is None,
    {
        match (atomic_fact_in_known_forall, given_fact) {
            (AtomicFact::InFact(ke, kset), AtomicFact::InFact(ge, gset)) => match (kset, gset) {
                (Obj::StandardSet(ks), Obj::StandardSet(gs)) => {
                    let element_map = match self.match_arg_in_atomic_fact_in_known_forall_with_given_arg(ke, ge) {
                        Some(m) => m,
                        None => return Some(None),
                    };
                    if standard_set_is_subset_eq(ks, gs) {
                        return Some(Some(element_map));
                    }
                    if standard_set_is_subset_eq(gs, ks) && self.fact_is_known(given_fact) {
                        return Some(Some(element_map));
                    }
                    Some(None)
                },
                _ => None,
            },
            _ => None,
        }
    }

    /// The binding that matches the fact inside a known universal fact
    /// against the given fact.
    pub fn match_atomic_fact_args_against_known_forall_ordered_args(&self, atomic_fact_in_known_forall: &AtomicFact, given_fact: &AtomicFact) -> (r: Option<ArgMap>)
        ensures
            opt_wf(r),
            opt_view(r) == forall_arg_match(self, atomic_fact_in_known_forall@, given_fact@),
    {
        if let Some(result) = self.match_in_fact_standard_set_target(atomic_fact_in_known_forall, given_fact) {
            return result;
        }
        let known_args = atomic_fact_in_known_forall.args();
        let given_args = given_fact.args();
        self.match_args_in_fact_in_known_forall_fact_with_given_args(&known_args, &given_args)
    }

    /// Whether each domain fact holds once instantiated with the binding.
    pub fn verify_instantiated_dom_facts(
        &self,
        profile: &mut KnownForallProfile,
        dom: &Vec<AtomicFact>,
        arg_map: &ArgMap,
        verify_state: &VerifyState,
    ) -> (r: bool)
        requires
            arg_map.wf(),
        ensures
            r == forall|k: int| 0 <= k < dom@.len() ==> atomic_fact_result(
                self,
                inst_fact_spec(#[trigger] dom@[k]@, arg_map@, BoundKind::Forall),
                verify_state.subgoal_depth as nat,
            ).spec_is_true(),
            profile_kept(*old(profile), *final(profile)),
        decreases verify_state.subgoal_depth, 7nat,
    {
        let mut j: usize = 0;
        while j < dom.len()
            invariant
                arg_map.wf(),
                j <= dom.len(),
                profile_kept(*old(profile), *profile),
                forall|k: int| 0 <= k < j ==> atomic_fact_result(
                    self,
                    inst_fact_spec(#[trigger] dom@[k]@, arg_map@, BoundKind::Forall),
                    verify_state.subgoal_depth as nat,
                ).spec_is_true(),
            decreases dom.len() - j,
        {
            let instantiated = inst_fact(&dom[j], arg_map, BoundKind::Forall);
            let result = match self.verify_atomic_fact(profile, &instantiated, verify_state) {
                Ok(r) => r,
                Err(_) => return false,
            };
            if result.is_unknown() {
                return false;
            }
            j = j + 1;
        }
        true
    }

    /// Whether the requirements of the known universal fact hold under the
    /// binding: every parameter bound, the types, then the domain facts.
    pub fn verify_args_satisfy_forall_requirements(
        &self,
        profile: &mut KnownForallProfile,
        known_forall: &KnownForallFact,
        arg_map: &ArgMap,
        verify_state: &VerifyState,
    ) -> (r: bool)
        requires
            arg_map.wf(),
        ensures
            r == requirements_hold(self, *known_forall, arg_map@, verify_state.subgoal_depth as nat),
            profile_kept(*old(profile), *final(profile)),
        decreases verify_state.subgoal_depth, 1nat,
    {
        proof {
            lemma_requirements_hold(self, *known_forall, arg_map@, verify_state.subgoal_depth as nat);
        }
        let flat = flat_param_types(&known_forall.params);
        let args_for_params = match bound_args_for_params(&flat, arg_map) {
            Some(v) => v,
            None => return false,
        };
        if verify_state.subgoal_depth == 0 {
            return false;
        }
        let next = verify_state.deeper();
        let types = match self.verify_args_satisfy_param_def_flat_types(profile, &known_forall.params, &args_for_params, &next) {
            Ok(t) => t,
            Err(_) => return false,
        };
        if types.is_unknown() {
            return false;
        }
        self.verify_instantiated_dom_facts(profile, &known_forall.dom, arg_map, &next)
    }

    /// Try one known universal fact on the given fact, counting the attempt.
    pub fn try_verify_known_forall_candidate(
        &self,
        profile: &mut KnownForallProfile,
        env_kind: KnownForallEnvKind,
        known_forall: &KnownForallFact,
        given_atomic_fact: &AtomicFact,
        verify_state: &VerifyState,
    ) -> (r: bool)
        ensures
            r == candidate_holds(self, *known_forall, given_atomic_fact@, verify_state.subgoal_depth as nat),
            profile_kept(*old(profile), *final(profile)),
        decreases verify_state.subgoal_depth, 2nat,
    {
        proof {
            lemma_candidate_holds(self, *known_forall, given_atomic_fact@, verify_state.subgoal_depth as nat);
        }
        if !facts_same_relation(&known_forall.then_fact, given_atomic_fact) {
            return false;
        }
        record_candidate_attempt(profile, KnownForallSearchPhase::Fallback, env_kind);
        match self.match_atomic_fact_args_against_known_forall_ordered_args(&known_forall.then_fact, given_atomic_fact) {
            Some(arg_map) => {
                record_arg_match(profile);
                let ok = self.verify_args_satisfy_forall_requirements(profile, known_forall, &arg_map, verify_state);
                if !ok {
                    record_requirement_failure(profile);
                }
                ok
            },
            None => false,
        }
    }

    /// Try the known universal facts of one environment, newest first.
    #[verifier::loop_isolation(false)]
    pub fn try_verify_with_known_forall_facts_in_env(
        &self,
        profile: &mut KnownForallProfile,
        stack_idx: usize,
        given_atomic_fact: &AtomicFact,
        verify_state: &VerifyState,
    ) -> (r: bool)
        requires
            stack_idx < self.environment_stack@.len(),
        ensures
            r == env_forall_holds(self, stack_idx as int, given_atomic_fact@, verify_state.subgoal_depth as nat),
            profile_kept(*old(profile), *final(profile)),
        decreases verify_state.subgoal_depth, 3nat,
    {
        proof {
            lemma_env_forall_holds(self, stack_idx as int, given_atomic_fact@, verify_state.subgoal_depth as nat);
        }
        let env = &self.environment_stack[stack_idx];
        let env_kind = self.known_forall_env_kind(stack_idx);
        let count = env.known_forall_facts.len();
        let mut j: usize = 0;
        while j < count
            invariant
                j <= count,
                count == env.known_forall_facts@.len(),
                *env == self.environment_stack@[stack_idx as int],
                profile_kept(*old(profile), *profile),
                forall|b: int| count - j <= b < count ==> !candidate_holds(
                    self,
                    #[trigger] env.known_forall_facts@[b],
                    given_atomic_fact@,
                    verify_state.subgoal_depth as nat,
                ),
            decreases count - j,
        {
            let entry_idx = count - 1 - j;
            if self.try_verify_known_forall_candidate(profile, env_kind, &env.known_forall_facts[entry_idx], given_atomic_fact, verify_state) {
                return true;
            }
            j = j + 1;
        }
        false
    }

    /// Try the known universal facts of every environment, innermost first.
    #[verifier::loop_isolation(false)]
    pub fn try_verify_with_known_forall_facts_in_envs(
        &self,
        profile: &mut KnownForallProfile,
        given_atomic_fact: &AtomicFact,
        verify_state: &VerifyState,
    ) -> (r: bool)
        ensures
            r == forall_holds(self, given_atomic_fact@, verify_state.subgoal_depth as nat),
            profile_kept(*old(profile), *final(profile)),
        decreases verify_state.subgoal_depth, 4nat,
    {
        proof {
            lemma_forall_holds(self, given_atomic_fact@, verify_state.subgoal_depth as nat);
        }
        let envs_count = self.environment_stack.len();
        let mut i: usize = 0;
        while i < envs_count
            invariant
                i <= envs_count,
                envs_count == self.environment_stack@.len(),
                profile_kept(*old(profile), *profile),
                forall|a: int| envs_count - i <= a < envs_count ==> !#[trigger] env_forall_holds(
                    self,
                    a,
                    given_atomic_fact@,
                    verify_state.subgoal_depth as nat,
                ),
            decreases envs_count - i,
        {
            let stack_idx = envs_count - 1 - i;
            if self.try_verify_with_known_forall_facts_in_env(profile, stack_idx, given_atomic_fact, verify_state) {
                proof {
                    // The environment at `stack_idx` witnesses the existential.
                    let witness = self.environment_stack@[stack_idx as int];
                }
                return true;
            }
            i = i + 1;
        }
        false
    }

    /// The check by known universal facts, counted in the profile; an
    /// equality may also be an instance with its sides swapped.
    pub fn verify_atomic_fact_with_known_forall(
        &self,
        profile: &mut KnownForallProfile,
        atomic_fact: &AtomicFact,
        verify_state: &VerifyState,
    ) -> (r: Result<StmtResult, RuntimeError>)
        ensures
            r == Ok::<StmtResult, RuntimeError>(known_forall_result(self, atomic_fact@, verify_state.subgoal_depth as nat)),
            profile_kept(*old(profile), *final(profile)),
        decreases verify_state.subgoal_depth, 5nat,
    {
        proof {
            lemma_known_forall_result(self, atomic_fact@, verify_state.subgoal_depth as nat);
        }
        record_entry(profile);
        if self.try_verify_with_known_forall_facts_in_envs(profile, atomic_fact, verify_state) {
            record_success(profile);
            return Ok(StmtResult::FactualStmtSuccess(VerifiedBy::KnownForallFact));
        }
        if let AtomicFact::EqualFact(l, r) = atomic_fact {
            let reversed = AtomicFact::EqualFact(r.duplicate(), l.duplicate());
            if self.try_verify_with_known_forall_facts_in_envs(profile, &reversed, verify_state) {
                record_success(profile);
                return Ok(StmtResult::FactualStmtSuccess(VerifiedBy::KnownForallFact));
            }
        }
        record_unknown(profile);
        Ok(StmtResult::StmtUnknown)
    }

    /// The full check of an atomic fact: known, then builtin, then an
    /// instance of a known universal fact.
    pub fn verify_atomic_fact(
        &self,
        profile: &mut KnownForallProfile,
        fact: &AtomicFact,
        verify_state: &VerifyState,
    ) -> (r: Result<StmtResult, RuntimeError>)
        ensures
            r == Ok::<StmtResult, RuntimeError>(atomic_fact_result(self, fact@, verify_state.subgoal_depth as nat)),
            profile_kept(*old(profile), *final(profile)),
        decreases verify_state.subgoal_depth, 6nat,
    {
        proof {
            lemma_atomic_fact_result(self, fact@, verify_state.subgoal_depth as nat);
        }
        match fact {
            AtomicFact::EqualFact(l, r) => {
                if self.objs_known_equal(l, r) {
                    return Ok(StmtResult::FactualStmtSuccess(VerifiedBy::KnownFact));
                }
                let builtin = match self.verify_equality_by_builtin_rules(l, r, verify_state) {
                    Ok(b) => b,
                    Err(e) => return Err(e),
                };
                if builtin.is_true() {
                    return Ok(builtin);
                }
                self.verify_atomic_fact_with_known_forall(profile, fact, verify_state)
            },
            _ => {
                if self.fact_is_known(fact) {
                    return Ok(StmtResult::FactualStmtSuccess(VerifiedBy::KnownFact));
                }
                let builtin = match self.verify_non_equational_atomic_fact_with_builtin_rules(fact, verify_state) {
                    Ok(b) => b,
                    Err(e) => return Err(e),
                };
                if builtin.is_true() {
                    return Ok(builtin);
                }
                self.verify_atomic_fact_with_known_forall(profile, fact, verify_state)
            },
        }
    }

    /// Whether the object has the parameter type, by the full check.
    pub fn verify_obj_satisfies_param_type(
        &self,
        profile: &mut KnownForallProfile,
        obj: Obj,
        param_type: &ParamType,
        verify_state: &VerifyState,
    ) -> (r: Result<StmtResult, RuntimeError>)
        ensures
            r == Ok::<StmtResult, RuntimeError>(atomic_fact_result(self, param_type_fact_v(param_type@, obj@), verify_state.subgoal_depth as nat)),
            profile_kept(*old(profile), *final(profile)),
        decreases verify_state.subgoal_depth, 7nat,
    {
        let fact = param_type_fact(obj, param_type);
        self.verify_atomic_fact(profile, &fact, verify_state)
    }

    /// Whether each argument has the type of its parameter, the types
    /// instantiated with the parameters bound to the arguments.
    #[verifier::loop_isolation(false)]
    pub fn verify_args_satisfy_param_def_flat_types(
        &self,
        profile: &mut KnownForallProfile,
        param_defs: &Vec<ParamGroup>,
        args: &Vec<Obj>,
        verify_state: &VerifyState,
    ) -> (r: Result<StmtResult, RuntimeError>)
        ensures
            r == Ok::<StmtResult, RuntimeError>(param_types_result(self, param_defs@, view_list(args@), verify_state.subgoal_depth as nat)),
            profile_kept(*old(profile), *final(profile)),
        decreases verify_state.subgoal_depth, 8nat,
    {
        proof {
            lemma_param_types_result(self, param_defs@, view_list(args@), verify_state.subgoal_depth as nat);
        }
        let flat = flat_param_types(param_defs);
        let ghost fv = flat_params(param_defs@);
        proof {
            assert forall|k: int| 0 <= k < flat@.len() implies #[trigger] flat@[k].0@ == fv[k].0 && flat@[k].1@ == fv[k].1 by {
                assert(flat@.map_values(|p: (String, ParamType)| (p.0@, p.1@))[k] == fv[k]);
            }
            lemma_view_list(args@);
        }
        let bound = bind_params_to_args(&flat, args);
        let n = if flat.len() <= args.len() {
            flat.len()
        } else {
            args.len()
        };
        let ghost av = view_list(args@);
        let mut i: usize = 0;
        while i < n
            invariant
                i <= n,
                n == min_len(fv.len(), av.len()),
                n <= flat@.len(),
                n <= args@.len(),
                flat@.len() == fv.len(),
                forall|k: int| 0 <= k < flat@.len() ==> #[trigger] flat@[k].0@ == fv[k].0 && flat@[k].1@ == fv[k].1,
                av == view_list(args@),
                av.len() == args@.len(),
                forall|k: int| 0 <= k < args@.len() ==> #[trigger] av[k] == args@[k]@,
                bound.wf(),
                bound@ == bind_first(fv, av, n as nat),
                profile_kept(*old(profile), *profile),
                forall|k: int| 0 <= k < i ==> atomic_fact_result(
                    self,
                    param_type_fact_v(inst_param_type_v((#[trigger] fv[k]).1, bound@, BoundKind::Forall), av[k]),
                    verify_state.subgoal_depth as nat,
                ).spec_is_true(),
            decreases n - i,
        {
            let t = inst_param_type(&flat[i].1, &bound, BoundKind::Forall);
            let result = match self.verify_obj_satisfies_param_type(profile, args[i].duplicate(), &t, verify_state) {
                Ok(r) => r,
                Err(e) => return Err(e),
            };
            if result.is_unknown() {
                assert(!atomic_fact_result(
                    self,
                    param_type_fact_v(inst_param_type_v(fv[i as int].1, bound@, BoundKind::Forall), av[i as int]),
                    verify_state.subgoal_depth as nat,
                ).spec_is_true());
                return Ok(StmtResult::StmtUnknown);
            }
            i = i + 1;
        }
        Ok(StmtResult::NonFactualStmtSuccess)
    }

    /// Whether a fact other than an equality holds by the full check.
    pub fn non_equational_atomic_fact_holds_by_full_verify_pipeline(
        &self,
        profile: &mut KnownForallProfile,
        atomic_fact: &AtomicFact,
        verify_state: &VerifyState,
    ) -> (r: Result<bool, RuntimeError>)
        ensures
            r == Ok::<bool, RuntimeError>(atomic_fact_result(self, atomic_fact@, verify_state.subgoal_depth as nat).spec_is_true()),
            profile_kept(*old(profile), *final(profile)),
    {
        match self.verify_atomic_fact(profile, atomic_fact, verify_state) {
            Ok(r) => Ok(r.is_true()),
            Err(e) => Err(e),
        }
    }
}

} // verus!
