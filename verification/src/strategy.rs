//! Proving a fact by the strategy put in use for its relation: the
//! strategy's universal fact, instantiated by matching its conclusion.
use vstd::prelude::*;
use crate::obj::view_list;
use crate::fact::{AtomicFact, AtomicFactV, same_relation, facts_same_relation, fact_args};
use crate::runtime::{Runtime, Environment, StrategyUse, StrategyDefinition, KnownForallFact, StmtResult,
    VerifiedBy, RuntimeError, VerifyState};
use crate::known_forall_match::match_lists;
use crate::arg_map::{ArgMap, opt_view};
use crate::full_check::requirements_hold;
use crate::known_forall_profile::KnownForallProfile;

verus! {

broadcast use vstd::string::group_string_axioms;

/// The strategy named by the first entry for the relation of `f`.
pub open spec fn first_use(uses: Seq<StrategyUse>, f: AtomicFactV) -> Option<Seq<char>>
    decreases uses.len(),
{
    if uses.len() == 0 {
        None
    } else if same_relation(uses[0].relation@, f) {
        Some(uses[0].strategy_name@)
    } else {
        first_use(uses.drop_first(), f)
    }
}

/// Walking the environments from the innermost outward, the first strategy
/// in use for the relation of `f` that is not stopped there or further in.
pub open spec fn active_strategy(envs: Seq<Environment>, f: AtomicFactV, stopped: Seq<Seq<char>>) -> Option<Seq<char>>
    decreases envs.len(),
{
    if envs.len() == 0 {
        None
    } else {
        let env = envs.last();
        let st = match first_use(env.stopped_strategies@, f) {
            Some(n) => stopped.push(n),
            None => stopped,
        };
        match first_use(env.used_strategies@, f) {
            Some(n) => if st.contains(n) {
                active_strategy(envs.drop_last(), f, st)
            } else {
                Some(n)
            },
            None => active_strategy(envs.drop_last(), f, st),
        }
    }
}

/// The first definition with the name.
pub open spec fn definition_in(defs: Seq<StrategyDefinition>, name: Seq<char>) -> Option<KnownForallFact>
    decreases defs.len(),
{
    if defs.len() == 0 {
        None
    } else if defs[0].name@ == name {
        Some(defs[0].forall_fact)
    } else {
        definition_in(defs.drop_first(), name)
    }
}

/// The definition of the named strategy, from the innermost environment outward.
pub open spec fn strategy_definition(envs: Seq<Environment>, name: Seq<char>) -> Option<KnownForallFact>
    decreases envs.len(),
{
    if envs.len() == 0 {
        None
    } else {
        match definition_in(envs.last().strategy_definitions@, name) {
            Some(k) => Some(k),
            None => strategy_definition(envs.drop_last(), name),
        }
    }
}

/// The outcome of the check of `f` by its strategy.
pub open spec fn strategy_result(rt: &Runtime, f: AtomicFactV, d: nat) -> StmtResult {
    match active_strategy(rt.environment_stack@, f, Seq::empty()) {
        None => StmtResult::StmtUnknown,
        Some(name) => match strategy_definition(rt.environment_stack@, name) {
            None => StmtResult::StmtUnknown,
            Some(kf) => match match_lists(fact_args(kf.then_fact@), fact_args(f)) {
                None => StmtResult::StmtUnknown,
                Some(m) => if requirements_hold(rt, kf, m, d) {
                    StmtResult::FactualStmtSuccess(VerifiedBy::Strategy)
                } else {
                    StmtResult::StmtUnknown
                },
            },
        },
    }
}

/// The strategy named by the first entry for the relation of the fact.
pub fn first_strategy_use<'a>(uses: &'a Vec<StrategyUse>, f: &AtomicFact) -> (r: Option<&'a String>)
    ensures
        r matches Some(n) ==> first_use(uses@, f@) == Some(n@),
        r is None <==> first_use(uses@, f@) is None,
{
    let ghost us = uses@;
    let mut i: usize = 0;
    proof {
        assert(us.skip(0) =~= us);
    }
    while i < uses.len()
        invariant
            i <= uses.len(),
            us == uses@,
            first_use(us, f@) == first_use(us.skip(i as int), f@),
        decreases uses.len() - i,
    {
        if facts_same_relation(&uses[i].relation, f) {
            return Some(&uses[i].strategy_name);
        }
        proof {
            assert(us.skip(i as int).drop_first() =~= us.skip(i + 1));
        }
        i = i + 1;
    }
    None
}

/// The views of a list of names.
pub open spec fn names_view(v: Seq<String>) -> Seq<Seq<char>> {
    v.map_values(|s: String| s@)
}

/// Whether the name is in the list.
fn names_contain(v: &Vec<String>, n: &String) -> (r: bool)
    ensures
        r == names_view(v@).contains(n@),
{
    let mut i: usize = 0;
    while i < v.len()
        invariant
            i <= v.len(),
            forall|j: int| 0 <= j < i ==> names_view(v@)[j] != n@,
        decreases v.len() - i,
    {
        if v[i].eq(n) {
            assert(names_view(v@)[i as int] == n@);
            return true;
        }
        i = i + 1;
    }
    false
}

impl Runtime {
    /// The strategy in use for the relation of the fact, if any.
    pub fn active_strategy_name_for_atomic_fact(&self, atomic_fact: &AtomicFact) -> (r: Option<String>)
        ensures
            r matches Some(n) ==> active_strategy(self.environment_stack@, atomic_fact@, Seq::empty()) == Some(n@),
            r is None <==> active_strategy(self.environment_stack@, atomic_fact@, Seq::empty()) is None,
    {
        let ghost envs = self.environment_stack@;
        let mut stopped: Vec<String> = Vec::new();
        let mut i: usize = self.environment_stack.len();
        proof {
            assert(envs.take(envs.len() as int) =~= envs);
            assert(names_view(stopped@) =~= Seq::<Seq<char>>::empty());
        }
        while i > 0
            invariant
                i <= self.environment_stack.len(),
                envs == self.environment_stack@,
                active_strategy(envs, atomic_fact@, Seq::empty())
                    == active_strategy(envs.take(i as int), atomic_fact@, names_view(stopped@)),
            decreases i,
        {
            let env = &self.environment_stack[i - 1];
            proof {
                assert(envs.take(i as int).last() == envs[i - 1]);
                assert(envs.take(i as int).drop_last() =~= envs.take(i - 1));
            }
            match first_strategy_use(&env.stopped_strategies, atomic_fact) {
                Some(n) => {
                    let ghost before = stopped@;
                    stopped.push(n.clone());
                    assert(names_view(stopped@) =~= names_view(before).push(n@));
                },
                None => {},
            }
            match first_strategy_use(&env.used_strategies, atomic_fact) {
                Some(n) => {
                    if !names_contain(&stopped, n) {
                        return Some(n.clone());
                    }
                },
                None => {},
            }
            i = i - 1;
        }
        None
    }

    /// The definition of the named strategy, from the innermost environment outward.
    pub fn get_strategy_definition_by_name(&self, name: &String) -> (r: Option<&KnownForallFact>)
        ensures
            r matches Some(k) ==> strategy_definition(self.environment_stack@, name@) == Some(*k),
            r is None <==> strategy_definition(self.environment_stack@, name@) is None,
    {
        let ghost envs = self.environment_stack@;
        let mut i: usize = self.environment_stack.len();
        proof {
            assert(envs.take(envs.len() as int) =~= envs);
        }
        while i > 0
            invariant
                i <= self.environment_stack.len(),
                envs == self.environment_stack@,
                strategy_definition(envs, name@) == strategy_definition(envs.take(i as int), name@),
            decreases i,
        {
            let defs = &self.environment_stack[i - 1].strategy_definitions;
            proof {
                assert(envs.take(i as int).last() == envs[i - 1]);
                assert(envs.take(i as int).drop_last() =~= envs.take(i - 1));
            }
            let ghost ds = defs@;
            let mut j: usize = 0;
            proof {
                assert(ds.skip(0) =~= ds);
            }
            while j < defs.len()
                invariant
                    j <= defs.len(),
                    0 < i <= self.environment_stack.len(),
                    envs == self.environment_stack@,
                    ds == defs@,
                    ds == envs[i - 1].strategy_definitions@,
                    envs.take(i as int).last() == envs[i - 1],
                    envs.take(i as int).drop_last() == envs.take(i - 1),
                    strategy_definition(envs, name@) == strategy_definition(envs.take(i as int), name@),
                    definition_in(ds, name@) == definition_in(ds.skip(j as int), name@),
                decreases defs.len() - j,
            {
                if defs[j].name.eq(name) {
                    return Some(&defs[j].forall_fact);
                }
                proof {
                    assert(ds.skip(j as int).drop_first() =~= ds.skip(j + 1));
                }
                j = j + 1;
            }
            proof {
                assert(ds.skip(ds.len() as int) =~= Seq::<StrategyDefinition>::empty());
            }
            i = i - 1;
        }
        None
    }

    /// Whether the strategy's requirements hold under the binding of its
    /// parameters: the types of the bound objects, then its domain facts.
    pub fn verify_atomic_fact_with_strategy_args(
        &self,
        strategy: &KnownForallFact,
        arg_map: &ArgMap,
        verify_state: &VerifyState,
    ) -> (r: Result<StmtResult, RuntimeError>)
        requires
            arg_map.wf(),
        ensures
            r == Ok::<StmtResult, RuntimeError>(if requirements_hold(self, *strategy, arg_map@, verify_state.subgoal_depth as nat) {
                StmtResult::FactualStmtSuccess(VerifiedBy::Strategy)
            } else {
                StmtResult::StmtUnknown
            }),
    {
        let mut profile = KnownForallProfile::new(false);
        if self.verify_args_satisfy_forall_requirements(&mut profile, strategy, arg_map, verify_state) {
            Ok(StmtResult::FactualStmtSuccess(VerifiedBy::Strategy))
        } else {
            Ok(StmtResult::StmtUnknown)
        }
    }

    /// Prove a fact other than an equality by the strategy in use for its
    /// relation: the strategy's conclusion is matched against the fact and
    /// its requirements are checked under the binding.
    pub fn verify_non_equational_atomic_fact_with_strategy(
        &self,
        atomic_fact: &AtomicFact,
        verify_state: &VerifyState,
    ) -> (r: Result<StmtResult, RuntimeError>)
        ensures
            r == Ok::<StmtResult, RuntimeError>(strategy_result(self, atomic_fact@, verify_state.subgoal_depth as nat)),
    {
        let strategy_name = match self.active_strategy_name_for_atomic_fact(atomic_fact) {
            Some(n) => n,
            None => return Ok(StmtResult::StmtUnknown),
        };
        let strategy = match self.get_strategy_definition_by_name(&strategy_name) {
            Some(s) => s,
            None => return Ok(StmtResult::StmtUnknown),
        };
        let then_args = strategy.then_fact.args();
        let atomic_args = atomic_fact.args();
        let arg_map = match self.match_args_in_fact_in_known_forall_fact_with_given_args(&then_args, &atomic_args) {
            Some(m) => m,
            None => return Ok(StmtResult::StmtUnknown),
        };
        self.verify_atomic_fact_with_strategy_args(strategy, &arg_map, verify_state)
    }
}

} // verus!
