use lib::arg_map::ArgMap;
use lib::compound::{AndFact, ChainFact, ChainRelation};
use lib::fact::AtomicFact;
use lib::known_forall_profile::{enabled, reset, snapshot, KnownForallProfile};
use lib::not_exist::{ExistBodyFact, ExistFact};
use lib::obj::{objs_equal, Obj, StandardSet};
use lib::runtime::{
    Environment, ImportedModule, KnownForallFact, ParamGroup, ParamType, Runtime, RuntimeError, StmtResult,
    StrategyDefinition, StrategyUse, VerifiedBy, VerifyState,
};
use lib::subst::{inst_obj, BoundKind};

fn id(name: &str) -> Obj {
    Obj::Identifier(name.to_string())
}

fn num(value: &str) -> Obj {
    Obj::Number(value.to_string())
}

fn fp(name: &str) -> Obj {
    Obj::ForallParam(name.to_string())
}

fn ep(name: &str) -> Obj {
    Obj::ExistParam(name.to_string())
}

fn group(names: &[&str], t: ParamType) -> ParamGroup {
    ParamGroup { params: names.iter().map(|n| n.to_string()).collect(), param_type: t }
}

/// `forall x in N: p(x)` in a user environment.
fn runtime_with_forall_p_on_n() -> Runtime {
    let mut rt = Runtime::new();
    let forall = KnownForallFact {
        params: vec![group(&["x"], ParamType::Obj(Obj::StandardSet(StandardSet::N)))],
        dom: Vec::new(),
        then_fact: AtomicFact::NormalAtomicFact("p".to_string(), vec![fp("x")]),
    };
    rt.environment_stack.push(Environment {
        known_atomic_facts: Vec::new(),
        known_forall_facts: vec![forall],
        strategy_definitions: Vec::new(),
        used_strategies: Vec::new(),
        stopped_strategies: Vec::new(),
    });
    rt
}

fn p_of(o: Obj) -> AtomicFact {
    AtomicFact::NormalAtomicFact("p".to_string(), vec![o])
}

#[test]
fn known_forall_instance_with_typed_parameter() {
    let rt = runtime_with_forall_p_on_n();
    let vs = VerifyState::new(3);
    let mut profile = KnownForallProfile::new(false);
    assert_eq!(
        rt.verify_atomic_fact_with_known_forall(&mut profile, &p_of(num("3")), &vs).unwrap(),
        StmtResult::FactualStmtSuccess(VerifiedBy::KnownForallFact)
    );
    // -1 is not in N, so the parameter's type is not met.
    assert_eq!(
        rt.verify_atomic_fact_with_known_forall(&mut profile, &p_of(num("-1")), &vs).unwrap(),
        StmtResult::StmtUnknown
    );
    // Another proposition does not match.
    let q = AtomicFact::NormalAtomicFact("q".to_string(), vec![num("3")]);
    assert_eq!(rt.verify_atomic_fact(&mut profile, &q, &vs).unwrap(), StmtResult::StmtUnknown);
    // A disabled profile never counts.
    assert_eq!(snapshot(&profile).entries, 0);
    assert!(!enabled(&profile));
}

#[test]
fn full_check_tries_known_then_builtin_then_forall() {
    let mut rt = runtime_with_forall_p_on_n();
    rt.environment_stack[1].known_atomic_facts.push(p_of(id("a")));
    let vs = VerifyState::new(3);
    let mut profile = KnownForallProfile::new(true);
    assert_eq!(
        rt.verify_atomic_fact(&mut profile, &p_of(id("a")), &vs).unwrap(),
        StmtResult::FactualStmtSuccess(VerifiedBy::KnownFact)
    );
    assert_eq!(
        rt.verify_atomic_fact(&mut profile, &AtomicFact::LessFact(num("1"), num("2")), &vs).unwrap(),
        StmtResult::FactualStmtSuccess(VerifiedBy::Builtin(lib::runtime::BuiltinRule::NumberComparison))
    );
    assert_eq!(
        rt.verify_atomic_fact(&mut profile, &p_of(num("7")), &vs).unwrap(),
        StmtResult::FactualStmtSuccess(VerifiedBy::KnownForallFact)
    );
    assert!(rt.non_equational_atomic_fact_holds_by_full_verify_pipeline(&mut profile, &p_of(num("0")), &vs).unwrap());
    assert!(!rt.non_equational_atomic_fact_holds_by_full_verify_pipeline(&mut profile, &p_of(num("1.5")), &vs).unwrap());
    assert!(enabled(&profile));
    assert!(snapshot(&profile).entries > 0);
    let s = snapshot(&profile);
    assert_eq!(
        s.candidate_attempts,
        s.exact_candidate_attempts.wrapping_add(s.fallback_candidate_attempts).wrapping_add(s.other_candidate_attempts)
    );
    assert_eq!(s.candidate_attempts, s.builtin_candidate_attempts.wrapping_add(s.user_candidate_attempts));
    reset(&mut profile);
    assert_eq!(snapshot(&profile).entries, 0);
    assert_eq!(snapshot(&profile).successes, 0);
}

#[test]
fn param_types_are_checked_in_order() {
    let rt = Runtime::new();
    let vs = VerifyState::new(3);
    let mut profile = KnownForallProfile::new(false);
    let defs = vec![group(&["x", "y"], ParamType::Obj(Obj::StandardSet(StandardSet::Z)))];
    assert_eq!(
        rt.verify_args_satisfy_param_def_flat_types(&mut profile, &defs, &vec![num("1"), num("-4")], &vs).unwrap(),
        StmtResult::NonFactualStmtSuccess
    );
    assert_eq!(
        rt.verify_args_satisfy_param_def_flat_types(&mut profile, &defs, &vec![num("1"), num("0.5")], &vs).unwrap(),
        StmtResult::StmtUnknown
    );
    assert_eq!(
        rt.verify_obj_satisfies_param_type(&mut profile, num("2"), &ParamType::Obj(Obj::StandardSet(StandardSet::NPos)), &vs)
            .unwrap(),
        StmtResult::FactualStmtSuccess(VerifiedBy::Builtin(lib::runtime::BuiltinRule::StandardSetMembership))
    );
}

#[test]
fn and_and_chain_facts() {
    let rt = Runtime::new();
    let vs = VerifyState::new(3);
    let mut profile = KnownForallProfile::new(false);
    let chain = ChainFact { objs: vec![num("1"), num("2"), num("3")], relations: vec![ChainRelation::Less, ChainRelation::LessEqual] };
    assert_eq!(rt.verify_chain_fact(&mut profile, &chain, &vs).unwrap(), StmtResult::FactualStmtSuccess(VerifiedBy::EachPart));
    let falling = ChainFact { objs: vec![num("3"), num("2")], relations: vec![ChainRelation::Less] };
    assert_eq!(rt.verify_chain_fact(&mut profile, &falling, &vs).unwrap(), StmtResult::StmtUnknown);
    let malformed = ChainFact { objs: vec![num("1"), num("2")], relations: Vec::new() };
    assert_eq!(rt.verify_chain_fact(&mut profile, &malformed, &vs), Err(RuntimeError::MalformedChain));
    assert!(rt.unverified_chain_step(&mut profile, &chain, &vs).unwrap().is_none());
    let broken = ChainFact {
        objs: vec![num("1"), num("2"), num("0"), num("5")],
        relations: vec![ChainRelation::Less, ChainRelation::Less, ChainRelation::Less],
    };
    match rt.unverified_chain_step(&mut profile, &broken, &vs).unwrap() {
        Some(AtomicFact::LessFact(a, b)) => {
            assert!(objs_equal(&a, &num("2")));
            assert!(objs_equal(&b, &num("0")));
        }
        other => panic!("expected the step 2 < 0, got {:?}", other),
    }
    assert!(rt.unverified_chain_step(&mut profile, &malformed, &vs).is_err());
    let parts = rt.chain_fact_part_results(&mut profile, &broken, &vs).unwrap();
    assert_eq!(parts.len(), 2);
    assert!(parts[0].is_true());
    assert_eq!(parts[1], StmtResult::StmtUnknown);
    assert_eq!(rt.chain_fact_part_results(&mut profile, &chain, &vs).unwrap().len(), 2);
    assert!(rt.chain_fact_part_results(&mut profile, &malformed, &vs).is_err());
    let and_true = AndFact { facts: vec![AtomicFact::LessFact(num("1"), num("2")), AtomicFact::InFact(num("2"), Obj::StandardSet(StandardSet::N))] };
    assert_eq!(rt.verify_and_fact(&mut profile, &and_true, &vs).unwrap(), StmtResult::FactualStmtSuccess(VerifiedBy::EachPart));
    let and_false = AndFact { facts: vec![AtomicFact::LessFact(num("1"), num("2")), AtomicFact::LessFact(num("2"), num("1"))] };
    assert_eq!(rt.verify_and_fact(&mut profile, &and_false, &vs).unwrap(), StmtResult::StmtUnknown);
    let and_parts = rt.and_fact_part_results(&mut profile, &and_false, &vs).unwrap();
    assert_eq!(and_parts.len(), 2);
    assert!(and_parts[0].is_true());
    assert_eq!(and_parts[1], StmtResult::StmtUnknown);
    assert_eq!(rt.and_fact_part_results(&mut profile, &and_true, &vs).unwrap().len(), 2);
    let empty = AndFact { facts: Vec::new() };
    assert_eq!(rt.verify_and_fact(&mut profile, &empty, &vs).unwrap(), StmtResult::FactualStmtSuccess(VerifiedBy::EachPart));
}

#[test]
fn literal_equality_through_imported_modules() {
    let mut rt = Runtime::new();
    rt.imported_modules.push(ImportedModule { name: "m1".to_string(), absolute_path: "/lib/a".to_string() });
    rt.imported_modules.push(ImportedModule { name: "m2".to_string(), absolute_path: "/lib/a".to_string() });
    rt.imported_modules.push(ImportedModule { name: "m3".to_string(), absolute_path: "/lib/b".to_string() });
    let with_mod = |m: &str, n: &str| Obj::IdentifierWithMod(m.to_string(), n.to_string());
    assert!(rt.equal_literally(&with_mod("m1", "x"), &with_mod("m2", "x")));
    assert!(!rt.equal_literally(&with_mod("m1", "x"), &with_mod("m2", "y")));
    assert!(!rt.equal_literally(&with_mod("m1", "x"), &with_mod("m3", "x")));
    assert!(!rt.equal_literally(&with_mod("m1", "x"), &with_mod("m9", "x")));
    assert!(rt.equal_literally(&with_mod("m9", "x"), &with_mod("m9", "x")));
    assert!(!rt.equal_literally(&with_mod("m1", "x"), &id("x")));
    assert!(rt.equal_literally(&num("2"), &num("2")));
    assert!(!rt.equal_literally(&num("2"), &num("2.0")));
}

#[test]
fn matching_known_forall_arguments() {
    let rt = Runtime::new();
    // x + 1 against 5 + 1 binds x to 5.
    let known = vec![Obj::Add(Box::new(fp("x")), Box::new(num("1")))];
    let given = vec![Obj::Add(Box::new(num("5")), Box::new(num("1")))];
    let m = rt.match_args_in_fact_in_known_forall_fact_with_given_args(&known, &given).unwrap();
    assert!(objs_equal(m.get(&"x".to_string()).unwrap(), &num("5")));
    // x against two different objects fails.
    let known2 = vec![fp("x"), fp("x")];
    assert!(rt.match_args_in_fact_in_known_forall_fact_with_given_args(&known2, &vec![num("1"), num("2")]).is_none());
    assert!(rt.match_args_in_fact_in_known_forall_fact_with_given_args(&known2, &vec![id("a"), id("a")]).is_some());
    // Different lengths never match.
    assert!(rt.match_args_in_fact_in_known_forall_fact_with_given_args(&known2, &vec![id("a")]).is_none());
}

#[test]
fn instantiating_objects() {
    let m = ArgMap::single("x".to_string(), num("4"));
    let o = Obj::Mul(Box::new(fp("x")), Box::new(ep("x")));
    let forall_inst = inst_obj(&o, &m, BoundKind::Forall);
    assert!(objs_equal(&forall_inst, &Obj::Mul(Box::new(num("4")), Box::new(ep("x")))));
    let exist_inst = inst_obj(&o, &m, BoundKind::Exist);
    assert!(objs_equal(&exist_inst, &Obj::Mul(Box::new(fp("x")), Box::new(num("4")))));
    let untouched = inst_obj(&o, &ArgMap::new(), BoundKind::Forall);
    assert!(objs_equal(&untouched, &o));
}

#[test]
fn not_exist_gives_forall_of_negations() {
    let rt = Runtime::new();
    let not_exist = ExistFact {
        is_not_exist: true,
        params: vec![group(&["x"], ParamType::Obj(Obj::StandardSet(StandardSet::R)))],
        facts: vec![
            ExistBodyFact::AtomicFact(AtomicFact::LessFact(ep("x"), num("0"))),
            ExistBodyFact::ChainFact(ChainFact { objs: vec![num("1"), ep("x"), num("2")], relations: vec![ChainRelation::Less, ChainRelation::Less] }),
        ],
    };
    let forall = rt.build_not_exist_demorgan_forall_fact(&not_exist).unwrap();
    assert_eq!(forall.params.len(), 1);
    assert_eq!(forall.params[0].params, vec!["x".to_string()]);
    assert_eq!(forall.disjuncts.len(), 3);
    match &forall.disjuncts[0] {
        AtomicFact::NotLessFact(a, b) => {
            assert!(objs_equal(a, &fp("x")));
            assert!(objs_equal(b, &num("0")));
        }
        other => panic!("unexpected disjunct {:?}", other),
    }
    match &forall.disjuncts[2] {
        AtomicFact::NotLessFact(a, b) => {
            assert!(objs_equal(a, &fp("x")));
            assert!(objs_equal(b, &num("2")));
        }
        other => panic!("unexpected disjunct {:?}", other),
    }
}

#[test]
fn not_exist_refusals() {
    let rt = Runtime::new();
    let body = || vec![ExistBodyFact::AtomicFact(AtomicFact::LessFact(ep("x"), num("0")))];
    let r_group = || vec![group(&["x"], ParamType::Obj(Obj::StandardSet(StandardSet::R)))];
    let positive = ExistFact { is_not_exist: false, params: r_group(), facts: body() };
    assert_eq!(rt.build_not_exist_demorgan_forall_fact(&positive).unwrap_err(), RuntimeError::NotANotExistFact);
    let no_params = ExistFact { is_not_exist: true, params: vec![group(&[], ParamType::AnySet)], facts: body() };
    assert_eq!(rt.build_not_exist_demorgan_forall_fact(&no_params).unwrap_err(), RuntimeError::NotExistWithoutParams);
    let no_body = ExistFact { is_not_exist: true, params: r_group(), facts: Vec::new() };
    assert_eq!(rt.build_not_exist_demorgan_forall_fact(&no_body).unwrap_err(), RuntimeError::NotExistWithEmptyBody);
    let empty_and = ExistFact { is_not_exist: true, params: r_group(), facts: vec![ExistBodyFact::AndFact(AndFact { facts: Vec::new() })] };
    assert_eq!(rt.build_not_exist_demorgan_forall_fact(&empty_and).unwrap_err(), RuntimeError::NotExistEmptyAnd);
    let with_or = ExistFact { is_not_exist: true, params: r_group(), facts: vec![ExistBodyFact::OrFact(Vec::new())] };
    assert_eq!(rt.build_not_exist_demorgan_forall_fact(&with_or).unwrap_err(), RuntimeError::NotExistOrInBody);
    let fn_eq = ExistFact {
        is_not_exist: true,
        params: r_group(),
        facts: vec![ExistBodyFact::AtomicFact(AtomicFact::FnEqualFact(ep("x"), id("g")))],
    };
    assert_eq!(rt.build_not_exist_demorgan_forall_fact(&fn_eq).unwrap_err(), RuntimeError::NotExistFnEqualInBody);
    let one_obj_chain = ExistFact {
        is_not_exist: true,
        params: r_group(),
        facts: vec![ExistBodyFact::ChainFact(ChainFact { objs: vec![ep("x")], relations: Vec::new() })],
    };
    assert_eq!(rt.build_not_exist_demorgan_forall_fact(&one_obj_chain).unwrap_err(), RuntimeError::NotExistEmptyChain);
    let bad_chain = ExistFact {
        is_not_exist: true,
        params: r_group(),
        facts: vec![ExistBodyFact::ChainFact(ChainFact { objs: vec![ep("x")], relations: vec![ChainRelation::Less] })],
    };
    assert_eq!(rt.build_not_exist_demorgan_forall_fact(&bad_chain).unwrap_err(), RuntimeError::MalformedChain);
}

fn empty_env() -> Environment {
    Environment {
        known_atomic_facts: Vec::new(),
        known_forall_facts: Vec::new(),
        strategy_definitions: Vec::new(),
        used_strategies: Vec::new(),
        stopped_strategies: Vec::new(),
    }
}

fn p_on_n_strategy() -> StrategyDefinition {
    StrategyDefinition {
        name: "s".to_string(),
        forall_fact: KnownForallFact {
            params: vec![group(&["x"], ParamType::Obj(Obj::StandardSet(StandardSet::N)))],
            dom: Vec::new(),
            then_fact: AtomicFact::NormalAtomicFact("p".to_string(), vec![fp("x")]),
        },
    }
}

fn use_s_for_p() -> StrategyUse {
    StrategyUse { relation: p_of(id("anything")), strategy_name: "s".to_string() }
}

#[test]
fn strategy_in_use_proves_instances() {
    let mut rt = Runtime::new();
    let mut env = empty_env();
    env.strategy_definitions.push(p_on_n_strategy());
    env.used_strategies.push(use_s_for_p());
    rt.environment_stack.push(env);
    let vs = VerifyState::new(3);
    assert_eq!(rt.active_strategy_name_for_atomic_fact(&p_of(num("3"))), Some("s".to_string()));
    assert_eq!(
        rt.verify_non_equational_atomic_fact_with_strategy(&p_of(num("3")), &vs).unwrap(),
        StmtResult::FactualStmtSuccess(VerifiedBy::Strategy)
    );
    // The parameter's type fails.
    assert_eq!(rt.verify_non_equational_atomic_fact_with_strategy(&p_of(num("-1")), &vs).unwrap(), StmtResult::StmtUnknown);
    // No strategy is in use for q, nor for the negation of p.
    let q = AtomicFact::NormalAtomicFact("q".to_string(), vec![num("3")]);
    assert_eq!(rt.verify_non_equational_atomic_fact_with_strategy(&q, &vs).unwrap(), StmtResult::StmtUnknown);
    let not_p = AtomicFact::NotNormalAtomicFact("p".to_string(), vec![num("3")]);
    assert_eq!(rt.active_strategy_name_for_atomic_fact(&not_p), None);
}

#[test]
fn stopped_or_undefined_strategies_prove_nothing() {
    let mut rt = Runtime::new();
    let mut outer = empty_env();
    outer.strategy_definitions.push(p_on_n_strategy());
    outer.used_strategies.push(use_s_for_p());
    rt.environment_stack.push(outer);
    let mut inner = empty_env();
    inner.stopped_strategies.push(use_s_for_p());
    rt.environment_stack.push(inner);
    let vs = VerifyState::new(3);
    assert_eq!(rt.active_strategy_name_for_atomic_fact(&p_of(num("3"))), None);
    assert_eq!(rt.verify_non_equational_atomic_fact_with_strategy(&p_of(num("3")), &vs).unwrap(), StmtResult::StmtUnknown);

    let mut rt2 = Runtime::new();
    let mut env = empty_env();
    env.used_strategies.push(use_s_for_p());
    rt2.environment_stack.push(env);
    assert!(rt2.get_strategy_definition_by_name(&"s".to_string()).is_none());
    assert_eq!(rt2.verify_non_equational_atomic_fact_with_strategy(&p_of(num("3")), &vs).unwrap(), StmtResult::StmtUnknown);
}
