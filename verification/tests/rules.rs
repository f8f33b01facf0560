use lib::fact::AtomicFact;
use lib::obj::{objs_equal, Obj, StandardSet};
use lib::order_normalize::normalize_positive_order_atomic_fact;
use lib::runtime::{BuiltinRule, Environment, Runtime, StmtResult, VerifiedBy, VerifyState};

fn id(name: &str) -> Obj {
    Obj::Identifier(name.to_string())
}

fn num(value: &str) -> Obj {
    Obj::Number(value.to_string())
}

fn set(s: StandardSet) -> Obj {
    Obj::StandardSet(s)
}

fn add(a: Obj, b: Obj) -> Obj {
    Obj::Add(Box::new(a), Box::new(b))
}

fn sub(a: Obj, b: Obj) -> Obj {
    Obj::Sub(Box::new(a), Box::new(b))
}

fn runtime_knowing(facts: Vec<AtomicFact>) -> Runtime {
    let mut rt = Runtime::new();
    rt.environment_stack.push(Environment {
        known_atomic_facts: facts,
        known_forall_facts: Vec::new(),
        strategy_definitions: Vec::new(),
        used_strategies: Vec::new(),
        stopped_strategies: Vec::new(),
    });
    rt
}

fn by(rule: BuiltinRule) -> StmtResult {
    StmtResult::FactualStmtSuccess(VerifiedBy::Builtin(rule))
}

fn check(rt: &Runtime, fact: &AtomicFact) -> StmtResult {
    rt.verify_non_equational_known_then_builtin_rules_only(fact, &VerifyState::new(3))
}

#[test]
fn normalize_order_facts() {
    let g = normalize_positive_order_atomic_fact(&AtomicFact::GreaterFact(id("a"), id("b"))).unwrap();
    match g {
        AtomicFact::LessFact(l, r) => {
            assert!(objs_equal(&l, &id("b")));
            assert!(objs_equal(&r, &id("a")));
        }
        _ => panic!("expected a < fact"),
    }
    let h = normalize_positive_order_atomic_fact(&AtomicFact::NotLessFact(id("a"), id("b"))).unwrap();
    assert!(matches!(h, AtomicFact::LessEqualFact(_, _)));
    assert!(normalize_positive_order_atomic_fact(&AtomicFact::InFact(id("a"), id("b"))).is_none());
}

#[test]
fn known_fact_is_found() {
    let rt = runtime_knowing(vec![AtomicFact::LessFact(id("a"), id("b"))]);
    assert_eq!(
        rt.verify_non_equational_atomic_fact_with_known_atomic_facts(&AtomicFact::LessFact(id("a"), id("b"))),
        StmtResult::FactualStmtSuccess(VerifiedBy::KnownFact)
    );
    assert_eq!(
        rt.verify_non_equational_atomic_fact_with_known_atomic_facts(&AtomicFact::LessFact(id("b"), id("a"))),
        StmtResult::StmtUnknown
    );
}

#[test]
fn subset_by_standard_sets_and_duality() {
    let rt = runtime_knowing(vec![AtomicFact::SupersetFact(id("B"), id("A"))]);
    let vs = VerifyState::new(1);
    assert_eq!(
        rt.verify_subset_fact_with_builtin_rules(&set(StandardSet::N), &set(StandardSet::R), &vs).unwrap(),
        by(BuiltinRule::StandardSetSubset)
    );
    assert_eq!(
        rt.verify_subset_fact_with_builtin_rules(&id("A"), &id("B"), &vs).unwrap(),
        by(BuiltinRule::SubsetSupersetDuality)
    );
    assert_eq!(
        rt.verify_subset_fact_with_builtin_rules(&id("B"), &id("A"), &vs).unwrap(),
        StmtResult::StmtUnknown
    );
    assert_eq!(
        rt.verify_subset_fact_with_builtin_rules(&id("C"), &id("C"), &vs).unwrap(),
        by(BuiltinRule::SubsetSupersetDuality)
    );
    assert_eq!(
        rt.verify_superset_fact_with_builtin_rules(&set(StandardSet::Q), &set(StandardSet::Z), &vs).unwrap(),
        by(BuiltinRule::StandardSetSuperset)
    );
    assert_eq!(
        rt.verify_superset_fact_with_builtin_rules(&set(StandardSet::Z), &set(StandardSet::Q), &vs).unwrap(),
        StmtResult::StmtUnknown
    );
}

#[test]
fn negated_subset_by_duality() {
    let rt = runtime_knowing(vec![AtomicFact::NotSupersetFact(id("B"), id("A"))]);
    let vs = VerifyState::new(1);
    assert_eq!(
        rt.verify_not_subset_fact_with_builtin_rules(&id("A"), &id("B"), &vs).unwrap(),
        by(BuiltinRule::SubsetSupersetDuality)
    );
    assert_eq!(
        rt.verify_not_superset_fact_with_builtin_rules(&id("A"), &id("B"), &vs).unwrap(),
        StmtResult::StmtUnknown
    );
}

#[test]
fn nonempty_sets() {
    let rt = runtime_knowing(vec![
        AtomicFact::IsNonemptySetFact(id("A")),
        AtomicFact::LessEqualFact(id("lo"), id("hi")),
    ]);
    assert_eq!(check(&rt, &AtomicFact::IsNonemptySetFact(set(StandardSet::Z))), by(BuiltinRule::NonemptyStandardSet));
    assert_eq!(check(&rt, &AtomicFact::IsNonemptySetFact(Obj::ListSet(vec![num("1")]))), by(BuiltinRule::NonemptyListSet));
    assert_eq!(check(&rt, &AtomicFact::IsNonemptySetFact(Obj::ListSet(vec![]))), StmtResult::StmtUnknown);
    assert_eq!(
        check(&rt, &AtomicFact::IsNonemptySetFact(Obj::Union(Box::new(id("B")), Box::new(id("A"))))),
        by(BuiltinRule::NonemptyUnionRight)
    );
    assert_eq!(
        check(&rt, &AtomicFact::IsNonemptySetFact(Obj::ClosedRange(Box::new(id("lo")), Box::new(id("hi"))))),
        by(BuiltinRule::NonemptyClosedRange)
    );
    assert_eq!(
        check(&rt, &AtomicFact::IsNonemptySetFact(Obj::Cart(vec![id("A"), set(StandardSet::R)]))),
        by(BuiltinRule::NonemptyCart)
    );
    assert_eq!(
        check(&rt, &AtomicFact::IsNonemptySetFact(Obj::Cart(vec![id("A"), id("B")]))),
        StmtResult::StmtUnknown
    );
    // `0 <= 2` is proved by comparing the literals.
    assert_eq!(
        check(&rt, &AtomicFact::IsNonemptySetFact(Obj::ClosedRange(Box::new(num("0")), Box::new(num("2"))))),
        by(BuiltinRule::NonemptyClosedRange)
    );
}

#[test]
fn nonempty_needs_a_level_for_subgoals() {
    let rt = runtime_knowing(vec![AtomicFact::LessEqualFact(id("lo"), id("hi"))]);
    let known = AtomicFact::IsNonemptySetFact(Obj::ClosedRange(Box::new(id("lo")), Box::new(id("hi"))));
    assert_eq!(
        rt.verify_non_equational_known_then_builtin_rules_only(&known, &VerifyState::new(0)),
        by(BuiltinRule::NonemptyClosedRange)
    );
    let literal = AtomicFact::IsNonemptySetFact(Obj::ClosedRange(Box::new(num("1")), Box::new(num("2"))));
    assert_eq!(
        rt.verify_non_equational_known_then_builtin_rules_only(&literal, &VerifyState::new(0)),
        StmtResult::StmtUnknown
    );
    assert_eq!(
        rt.verify_non_equational_known_then_builtin_rules_only(&literal, &VerifyState::new(1)),
        by(BuiltinRule::NonemptyClosedRange)
    );
}

#[test]
fn finite_sets() {
    let rt = runtime_knowing(vec![AtomicFact::IsFiniteSetFact(id("A"))]);
    assert_eq!(check(&rt, &AtomicFact::IsFiniteSetFact(Obj::ListSet(vec![]))), by(BuiltinRule::FiniteListSet));
    assert_eq!(
        check(&rt, &AtomicFact::IsFiniteSetFact(Obj::SetMinus(Box::new(id("A")), Box::new(id("B"))))),
        by(BuiltinRule::FiniteSetMinus)
    );
    assert_eq!(
        check(&rt, &AtomicFact::IsFiniteSetFact(Obj::Union(Box::new(id("A")), Box::new(id("B"))))),
        StmtResult::StmtUnknown
    );
    assert_eq!(
        check(&rt, &AtomicFact::IsFiniteSetFact(Obj::Cart(vec![id("A"), Obj::ListSet(vec![num("1")])]))),
        by(BuiltinRule::FiniteCart)
    );
}

#[test]
fn type_predicates() {
    let rt = runtime_knowing(vec![AtomicFact::EqualFact(id("S"), Obj::ListSet(vec![]))]);
    assert_eq!(check(&rt, &AtomicFact::IsSetFact(num("3"))), by(BuiltinRule::EveryObjectIsASet));
    assert_eq!(check(&rt, &AtomicFact::IsCartFact(Obj::Cart(vec![id("A")]))), by(BuiltinRule::CartIsCart));
    assert_eq!(check(&rt, &AtomicFact::IsTupleFact(Obj::Tuple(vec![num("1"), num("2")]))), by(BuiltinRule::TupleIsTuple));
    assert_eq!(check(&rt, &AtomicFact::IsTupleFact(Obj::Tuple(vec![num("1")]))), StmtResult::StmtUnknown);
    assert_eq!(
        check(&rt, &AtomicFact::NotIsNonemptySetFact(Obj::ListSet(vec![]))),
        by(BuiltinRule::NotNonemptyEmptyListSet)
    );
    assert_eq!(
        check(&rt, &AtomicFact::NotIsNonemptySetFact(id("S"))),
        by(BuiltinRule::NotNonemptyFromEqualEmptySet)
    );
}

#[test]
fn order_of_literals() {
    let rt = Runtime::new();
    assert_eq!(rt.verify_number_comparison_builtin_rule(&AtomicFact::LessFact(num("1"), num("2"))), Some(true));
    assert_eq!(rt.verify_number_comparison_builtin_rule(&AtomicFact::GreaterFact(num("1"), num("2"))), Some(false));
    assert_eq!(rt.verify_number_comparison_builtin_rule(&AtomicFact::NotLessFact(num("2"), num("2"))), Some(true));
    assert_eq!(rt.verify_number_comparison_builtin_rule(&AtomicFact::LessFact(id("a"), num("2"))), None);
    assert_eq!(rt.verify_number_comparison_builtin_rule(&AtomicFact::InFact(num("1"), num("2"))), None);
    assert_eq!(check(&rt, &AtomicFact::GreaterEqualFact(num("2.5"), num("-1"))), by(BuiltinRule::NumberComparison));
    assert_eq!(check(&rt, &AtomicFact::LessFact(num("3"), num("2"))), StmtResult::StmtUnknown);
}

#[test]
fn order_rules_from_known_facts() {
    let x = id("x");
    let rt = runtime_knowing(vec![
        AtomicFact::InFact(id("n"), set(StandardSet::N)),
        AtomicFact::NotLessEqualFact(id("a"), id("b")),
        AtomicFact::LessEqualFact(id("c"), id("d")),
        AtomicFact::EqualFact(id("e"), id("f")),
        AtomicFact::LessFact(id("g"), id("h")),
    ]);
    assert_eq!(
        check(&rt, &AtomicFact::LessEqualFact(num("0"), id("n"))),
        by(BuiltinRule::NonnegativeFromMembershipInN)
    );
    assert_eq!(check(&rt, &AtomicFact::GreaterFact(id("a"), id("b"))), by(BuiltinRule::OrderFromKnownNegatedComplement));
    assert_eq!(check(&rt, &AtomicFact::NotLessFact(id("d"), id("c"))), by(BuiltinRule::NegatedOrderFromKnownEquivalentOrder));
    assert_eq!(check(&rt, &AtomicFact::LessEqualFact(num("0"), Obj::Abs(Box::new(x)))), by(BuiltinRule::ZeroLeAbs));
    assert_eq!(check(&rt, &AtomicFact::LessEqualFact(id("e"), id("f"))), by(BuiltinRule::LessEqualFromKnownEquality));
    assert_eq!(check(&rt, &AtomicFact::LessEqualFact(id("g"), id("h"))), by(BuiltinRule::LessEqualFromKnownStrictOrder));
    assert_eq!(check(&rt, &AtomicFact::GreaterEqualFact(id("q"), id("q"))), by(BuiltinRule::GreaterEqualFromSameObject));
    assert_eq!(check(&rt, &AtomicFact::LessFact(id("a"), id("q"))), StmtResult::StmtUnknown);
}

#[test]
fn order_rules_on_sums_and_differences() {
    let rt = runtime_knowing(vec![
        AtomicFact::LessEqualFact(id("a"), id("b")),
        AtomicFact::LessEqualFact(num("0"), id("c")),
        AtomicFact::LessFact(num("0"), id("p")),
    ]);
    // u + a <= u + b from a <= b.
    assert_eq!(
        check(&rt, &AtomicFact::LessEqualFact(add(id("u"), id("a")), add(id("u"), id("b")))),
        by(BuiltinRule::AlgebraAddCommonTerm)
    );
    // a - c <= b from a <= b and 0 <= c.
    assert_eq!(
        check(&rt, &AtomicFact::LessEqualFact(sub(id("a"), id("c")), id("b"))),
        by(BuiltinRule::AlgebraSubtractNonnegative)
    );
    // 0 <= u - v from v <= u.
    assert_eq!(
        check(&rt, &AtomicFact::LessEqualFact(num("0"), sub(id("b"), id("a")))),
        by(BuiltinRule::ZeroLeSubFromOrder)
    );
    // 0 < p + c from 0 < p and 0 <= c.
    assert_eq!(
        check(&rt, &AtomicFact::LessFact(num("0"), add(id("p"), id("c")))),
        by(BuiltinRule::AlgebraAddNonnegative)
    );
    // a <= a + c from 0 <= c.
    assert_eq!(
        check(&rt, &AtomicFact::LessEqualFact(id("a"), add(id("a"), id("c")))),
        by(BuiltinRule::AlgebraSelfPlusNonnegative)
    );
}

#[test]
fn absolute_value_rules() {
    let x = id("x");
    let y = id("y");
    let rt = runtime_knowing(vec![
        AtomicFact::LessEqualFact(id("x"), id("b")),
        AtomicFact::LessEqualFact(Obj::Mul(Box::new(num("-1")), Box::new(id("x"))), id("b")),
    ]);
    assert_eq!(
        check(&rt, &AtomicFact::LessEqualFact(id("x"), Obj::Abs(Box::new(id("x"))))),
        by(BuiltinRule::AbsLowerBound)
    );
    let triangle = AtomicFact::LessEqualFact(
        Obj::Abs(Box::new(add(x, y))),
        add(Obj::Abs(Box::new(id("x"))), Obj::Abs(Box::new(id("y")))),
    );
    assert_eq!(check(&rt, &triangle), by(BuiltinRule::AbsTriangle));
    assert_eq!(
        check(&rt, &AtomicFact::LessEqualFact(Obj::Abs(Box::new(id("x"))), id("b"))),
        by(BuiltinRule::AbsUpperBound)
    );
    assert_eq!(
        check(&rt, &AtomicFact::LessFact(Obj::Abs(Box::new(id("x"))), id("b"))),
        StmtResult::StmtUnknown
    );
}

#[test]
fn membership_of_literals() {
    let rt = Runtime::new();
    assert_eq!(check(&rt, &AtomicFact::InFact(num("3"), set(StandardSet::NPos))), by(BuiltinRule::StandardSetMembership));
    assert_eq!(check(&rt, &AtomicFact::InFact(num("0"), set(StandardSet::NPos))), StmtResult::StmtUnknown);
    assert_eq!(check(&rt, &AtomicFact::InFact(num("-2.5"), set(StandardSet::QNeg))), by(BuiltinRule::StandardSetMembership));
    assert_eq!(check(&rt, &AtomicFact::InFact(num("-2.5"), set(StandardSet::Z))), StmtResult::StmtUnknown);
    assert_eq!(check(&rt, &AtomicFact::NotInFact(num("-2.5"), set(StandardSet::Z))), by(BuiltinRule::NotInStandardSet));
    assert_eq!(check(&rt, &AtomicFact::NotInFact(num("7"), set(StandardSet::R))), StmtResult::StmtUnknown);
}

#[test]
fn membership_by_structure() {
    let rt = runtime_knowing(vec![
        AtomicFact::InFact(id("a"), id("A")),
        AtomicFact::InFact(id("m"), set(StandardSet::N)),
        AtomicFact::EqualFact(id("k"), num("2")),
    ]);
    let tuple_in_cart = AtomicFact::InFact(
        Obj::Tuple(vec![id("a"), num("1")]),
        Obj::Cart(vec![id("A"), set(StandardSet::Z)]),
    );
    assert_eq!(check(&rt, &tuple_in_cart), by(BuiltinRule::TupleInCart));
    assert_eq!(
        check(&rt, &AtomicFact::InFact(add(id("m"), num("4")), set(StandardSet::N))),
        by(BuiltinRule::AddInNFromSummands)
    );
    let list = Obj::ListSet(vec![num("1"), num("2")]);
    assert_eq!(check(&rt, &AtomicFact::InFact(num("2"), list.duplicate())), by(BuiltinRule::ListSetMembership));
    assert_eq!(check(&rt, &AtomicFact::InFact(id("k"), list.duplicate())), by(BuiltinRule::ListSetMembership));
    assert_eq!(check(&rt, &AtomicFact::NotInFact(num("5"), list.duplicate())), by(BuiltinRule::NotInListSet));
    assert_eq!(check(&rt, &AtomicFact::InFact(id("z"), list)), StmtResult::StmtUnknown);
}

#[test]
fn inequality_rules() {
    let rt = runtime_knowing(vec![
        AtomicFact::GreaterFact(id("a"), id("b")),
        AtomicFact::NotEqualFact(id("x"), num("2")),
        AtomicFact::IsNonemptySetFact(id("S")),
    ]);
    assert_eq!(check(&rt, &AtomicFact::NotEqualFact(num("1"), num("2"))), by(BuiltinRule::NotEqualByCalculation));
    assert_eq!(
        check(&rt, &AtomicFact::NotEqualFact(Obj::ListSet(vec![num("1")]), Obj::ListSet(vec![]))),
        by(BuiltinRule::NotEqualListSetsOfDifferentLength)
    );
    assert_eq!(
        check(&rt, &AtomicFact::NotEqualFact(id("S"), Obj::ListSet(vec![]))),
        by(BuiltinRule::NotEqualEmptySetFromNonempty)
    );
    assert_eq!(check(&rt, &AtomicFact::NotEqualFact(id("b"), id("a"))), by(BuiltinRule::NotEqualFromKnownStrictOrder));
    assert_eq!(
        check(&rt, &AtomicFact::NotEqualFact(sub(id("x"), num("2")), num("0"))),
        by(BuiltinRule::SubNotEqualZeroFromOperandNotEqual)
    );
    assert_eq!(check(&rt, &AtomicFact::NotEqualFact(id("c"), id("d"))), StmtResult::StmtUnknown);
}

#[test]
fn sign_helpers() {
    let rt = runtime_knowing(vec![
        AtomicFact::LessFact(id("a"), num("0")),
        AtomicFact::LessFact(num("0"), id("b")),
    ]);
    let vs = VerifyState::new(2);
    assert_eq!(
        rt.mul_product_negative_when_factors_have_strict_opposite_sign_by_non_equational_verify(&id("a"), &id("b"), &vs),
        Ok(true)
    );
    assert_eq!(
        rt.mul_product_negative_when_factors_have_strict_opposite_sign_by_non_equational_verify(&id("b"), &id("a"), &vs),
        Ok(true)
    );
    assert_eq!(
        rt.mul_product_negative_when_factors_have_strict_opposite_sign_by_non_equational_verify(&id("a"), &id("a"), &vs),
        Ok(false)
    );
    assert_eq!(rt.both_operands_strictly_positive_by_non_equational_verify(&id("b"), &num("3"), &vs), Ok(true));
    assert_eq!(rt.both_operands_strictly_negative_by_non_equational_verify(&id("a"), &id("b"), &vs), Ok(false));
}

#[test]
fn inequality_of_numbers_goes_by_value() {
    let rt = runtime_knowing(Vec::new());
    assert_eq!(check(&rt, &AtomicFact::NotEqualFact(num("1.0"), num("1"))), StmtResult::StmtUnknown);
    assert_eq!(check(&rt, &AtomicFact::NotEqualFact(num("1.5"), num("1"))), by(BuiltinRule::NotEqualByCalculation));
    let eq = rt.verify_equality_by_builtin_rules(&num("1.0"), &num("1"), &VerifyState::new(3)).unwrap();
    assert!(eq.is_true());
}

#[test]
fn inequality_rules_on_operands_and_zero() {
    let mul = |a: Obj, b: Obj| Obj::Mul(Box::new(a), Box::new(b));
    let pow = |a: Obj, b: Obj| Obj::Pow(Box::new(a), Box::new(b));
    let rt = runtime_knowing(vec![
        AtomicFact::NotEqualFact(sub(id("a"), id("b")), num("0")),
        AtomicFact::NotEqualFact(add(id("x"), id("c")), num("0")),
        AtomicFact::InFact(id("n"), set(StandardSet::N)),
        AtomicFact::LessEqualFact(num("1"), id("n")),
        AtomicFact::NotEqualFact(id("y"), num("0")),
        AtomicFact::NotEqualFact(id("z"), num("0")),
        AtomicFact::LessFact(num("0"), id("p")),
        AtomicFact::LessFact(num("0"), id("q")),
        AtomicFact::LessFact(id("m"), num("0")),
    ]);
    assert_eq!(check(&rt, &AtomicFact::NotEqualFact(id("a"), id("b"))), by(BuiltinRule::OperandNotEqualFromSubNotEqualZero));
    assert_eq!(check(&rt, &AtomicFact::NotEqualFact(id("b"), id("a"))), by(BuiltinRule::OperandNotEqualFromSubNotEqualZero));
    assert_eq!(
        check(&rt, &AtomicFact::NotEqualFact(id("x"), mul(num("-1"), id("c")))),
        by(BuiltinRule::OperandNotEqualNegationFromAddNotEqualZero)
    );
    assert_eq!(check(&rt, &AtomicFact::NotEqualFact(id("n"), num("0"))), by(BuiltinRule::NotEqualZeroFromNAndOneLe));
    assert_eq!(check(&rt, &AtomicFact::NotEqualFact(pow(id("y"), num("3")), num("0"))), by(BuiltinRule::NotEqualPowFromNonzeroBase));
    assert_eq!(
        check(&rt, &AtomicFact::NotEqualFact(num("0"), Obj::Div(Box::new(id("y")), Box::new(id("z"))))),
        by(BuiltinRule::DivNotEqualZeroFromNonzeroParts)
    );
    assert_eq!(
        check(&rt, &AtomicFact::NotEqualFact(add(pow(id("y"), num("2")), mul(id("w"), id("w"))), num("0"))),
        by(BuiltinRule::SquareSumNotEqualZero)
    );
    assert_eq!(check(&rt, &AtomicFact::NotEqualFact(add(id("p"), id("q")), num("0"))), by(BuiltinRule::NotEqualZeroFromOperandSigns));
    assert_eq!(check(&rt, &AtomicFact::NotEqualFact(mul(id("y"), id("z")), num("0"))), by(BuiltinRule::NotEqualZeroFromOperandSigns));
    assert_eq!(check(&rt, &AtomicFact::NotEqualFact(sub(id("p"), id("m")), num("0"))), by(BuiltinRule::NotEqualZeroFromOperandSigns));
    assert_eq!(check(&rt, &AtomicFact::NotEqualFact(sub(id("p"), id("q")), num("0"))), StmtResult::StmtUnknown);
    assert_eq!(check(&rt, &AtomicFact::NotEqualFact(mul(id("y"), id("w")), num("0"))), StmtResult::StmtUnknown);
}

#[test]
fn equality_rules_on_sizes_sums_and_quotients() {
    let vs = VerifyState::new(3);
    let count = |a: Obj| Obj::Count(Box::new(a));
    let mul = |a: Obj, b: Obj| Obj::Mul(Box::new(a), Box::new(b));
    let div = |a: Obj, b: Obj| Obj::Div(Box::new(a), Box::new(b));
    let empty = runtime_knowing(Vec::new());
    let cart = Obj::Cart(vec![id("A"), id("B"), id("C")]);
    let sizes = mul(mul(count(id("A")), count(id("B"))), count(id("C")));
    assert_eq!(
        empty.verify_equality_by_builtin_rules(&count(cart.duplicate()), &sizes, &vs).unwrap(),
        by(BuiltinRule::CartCountProduct)
    );
    assert_eq!(
        empty.verify_equality_by_builtin_rules(&sizes, &count(cart.duplicate()), &vs).unwrap(),
        by(BuiltinRule::CartCountProduct)
    );
    assert_eq!(
        empty.verify_equality_by_builtin_rules(&count(cart), &mul(count(id("A")), count(id("B"))), &vs).unwrap(),
        StmtResult::StmtUnknown
    );
    let rt = runtime_knowing(vec![
        AtomicFact::EqualFact(add(id("a"), id("b")), id("c")),
        AtomicFact::EqualFact(div(id("u"), id("v")), id("w")),
        AtomicFact::NotEqualFact(id("v"), num("0")),
        AtomicFact::NotIsNonemptySetFact(id("S")),
    ]);
    assert_eq!(
        rt.verify_equality_by_builtin_rules(&id("a"), &sub(id("c"), id("b")), &vs).unwrap(),
        by(BuiltinRule::SubtractionFromKnownAddition)
    );
    assert_eq!(
        rt.verify_equality_by_builtin_rules(&id("u"), &mul(id("w"), id("v")), &vs).unwrap(),
        by(BuiltinRule::DivisionProductConversion)
    );
    assert_eq!(
        rt.verify_equality_by_builtin_rules(&Obj::ListSet(vec![]), &id("S"), &vs).unwrap(),
        by(BuiltinRule::EmptySetFromNotNonempty)
    );
    assert_eq!(
        rt.verify_equality_by_builtin_rules(&id("T"), &Obj::ListSet(vec![]), &vs).unwrap(),
        StmtResult::StmtUnknown
    );
}

#[test]
fn membership_by_bounds_and_shape() {
    let rt = runtime_knowing(vec![
        AtomicFact::IsFiniteSetFact(id("S")),
        AtomicFact::InFact(id("k"), set(StandardSet::NPos)),
        AtomicFact::InFact(id("j"), set(StandardSet::Z)),
        AtomicFact::LessEqualFact(num("0"), id("j")),
        AtomicFact::InFact(id("i"), set(StandardSet::Z)),
        AtomicFact::LessFact(num("0"), id("i")),
        AtomicFact::InFact(id("q"), set(StandardSet::Q)),
        AtomicFact::GreaterFact(id("q"), num("0")),
        AtomicFact::InFact(id("h"), set(StandardSet::Z)),
    ]);
    let count = Obj::Count(Box::new(id("S")));
    assert_eq!(check(&rt, &AtomicFact::InFact(count.duplicate(), set(StandardSet::N))), by(BuiltinRule::CountOfFiniteSetInNumbers));
    assert_eq!(check(&rt, &AtomicFact::InFact(count, set(StandardSet::R))), by(BuiltinRule::CountOfFiniteSetInNumbers));
    assert_eq!(
        check(&rt, &AtomicFact::InFact(Obj::Count(Box::new(id("T"))), set(StandardSet::Z))),
        StmtResult::StmtUnknown
    );
    assert_eq!(check(&rt, &AtomicFact::InFact(id("k"), set(StandardSet::N))), by(BuiltinRule::NFromNPos));
    assert_eq!(check(&rt, &AtomicFact::InFact(id("j"), set(StandardSet::N))), by(BuiltinRule::NFromNonnegativeInteger));
    assert_eq!(check(&rt, &AtomicFact::InFact(id("h"), set(StandardSet::N))), StmtResult::StmtUnknown);
    assert_eq!(check(&rt, &AtomicFact::InFact(id("i"), set(StandardSet::NPos))), by(BuiltinRule::NPosFromPositiveInteger));
    assert_eq!(check(&rt, &AtomicFact::InFact(id("j"), set(StandardSet::NPos))), StmtResult::StmtUnknown);
    assert_eq!(check(&rt, &AtomicFact::InFact(id("q"), set(StandardSet::QPos))), by(BuiltinRule::PositiveFromBaseSet));
    assert_eq!(check(&rt, &AtomicFact::InFact(id("h"), set(StandardSet::RPos))), StmtResult::StmtUnknown);
    assert_eq!(
        check(&rt, &AtomicFact::InFact(Obj::Sqrt(Box::new(id("x"))), set(StandardSet::R))),
        by(BuiltinRule::ArithmeticInR)
    );
    assert_eq!(check(&rt, &AtomicFact::InFact(id("x"), set(StandardSet::R))), StmtResult::StmtUnknown);
}

#[test]
fn closure_of_integers_and_rationals() {
    let mul = |a: Obj, b: Obj| Obj::Mul(Box::new(a), Box::new(b));
    let pow = |a: Obj, b: Obj| Obj::Pow(Box::new(a), Box::new(b));
    let div = |a: Obj, b: Obj| Obj::Div(Box::new(a), Box::new(b));
    let rt = runtime_knowing(vec![
        AtomicFact::InFact(id("a"), set(StandardSet::Z)),
        AtomicFact::InFact(id("b"), set(StandardSet::Z)),
        AtomicFact::InFact(id("n"), set(StandardSet::N)),
        AtomicFact::InFact(id("p"), set(StandardSet::Q)),
        AtomicFact::InFact(id("r"), set(StandardSet::Q)),
    ]);
    assert_eq!(check(&rt, &AtomicFact::InFact(sub(id("a"), mul(id("b"), num("3"))), set(StandardSet::Z))), by(BuiltinRule::ArithmeticInZ));
    assert_eq!(check(&rt, &AtomicFact::InFact(pow(id("a"), id("n")), set(StandardSet::Z))), by(BuiltinRule::ArithmeticInZ));
    assert_eq!(check(&rt, &AtomicFact::InFact(div(id("a"), id("b")), set(StandardSet::Z))), StmtResult::StmtUnknown);
    assert_eq!(check(&rt, &AtomicFact::InFact(add(id("a"), id("x")), set(StandardSet::Z))), StmtResult::StmtUnknown);
    assert_eq!(check(&rt, &AtomicFact::InFact(div(id("p"), id("r")), set(StandardSet::Q))), by(BuiltinRule::ArithmeticInQ));
    assert_eq!(check(&rt, &AtomicFact::InFact(pow(id("p"), id("a")), set(StandardSet::Q))), by(BuiltinRule::ArithmeticInQ));
    assert_eq!(check(&rt, &AtomicFact::InFact(pow(id("p"), id("r")), set(StandardSet::Q))), StmtResult::StmtUnknown);
}

#[test]
fn closure_of_naturals_and_ranges() {
    let mul = |a: Obj, b: Obj| Obj::Mul(Box::new(a), Box::new(b));
    let pow = |a: Obj, b: Obj| Obj::Pow(Box::new(a), Box::new(b));
    let rt = runtime_knowing(vec![
        AtomicFact::InFact(id("a"), set(StandardSet::Z)),
        AtomicFact::InFact(id("b"), set(StandardSet::Z)),
        AtomicFact::LessEqualFact(id("b"), id("a")),
        AtomicFact::InFact(id("p"), set(StandardSet::NPos)),
        AtomicFact::InFact(id("m"), set(StandardSet::N)),
        AtomicFact::InFact(id("i"), set(StandardSet::Z)),
        AtomicFact::LessEqualFact(num("2"), id("i")),
        AtomicFact::LessEqualFact(id("i"), num("5")),
    ]);
    assert_eq!(check(&rt, &AtomicFact::InFact(sub(id("a"), id("b")), set(StandardSet::N))), by(BuiltinRule::SubInNFromBound));
    assert_eq!(check(&rt, &AtomicFact::InFact(sub(id("b"), id("a")), set(StandardSet::N))), StmtResult::StmtUnknown);
    assert_eq!(check(&rt, &AtomicFact::InFact(pow(id("m"), id("m")), set(StandardSet::N))), by(BuiltinRule::PowInNaturalsFromNaturalExponent));
    assert_eq!(check(&rt, &AtomicFact::InFact(add(id("p"), id("m")), set(StandardSet::NPos))), by(BuiltinRule::AddInNPos));
    assert_eq!(check(&rt, &AtomicFact::InFact(mul(id("p"), id("p")), set(StandardSet::NPos))), by(BuiltinRule::MulInNPos));
    assert_eq!(check(&rt, &AtomicFact::InFact(mul(id("p"), id("m")), set(StandardSet::NPos))), StmtResult::StmtUnknown);
    let closed = Obj::ClosedRange(Box::new(num("2")), Box::new(num("5")));
    let open = Obj::Range(Box::new(num("2")), Box::new(num("6")));
    assert_eq!(check(&rt, &AtomicFact::InFact(id("i"), closed.duplicate())), by(BuiltinRule::InClosedRangeFromBounds));
    assert_eq!(check(&rt, &AtomicFact::InFact(id("i"), open)), by(BuiltinRule::InRangeFromBounds));
    assert_eq!(
        check(&rt, &AtomicFact::InFact(id("i"), Obj::Range(Box::new(num("2")), Box::new(num("5"))))),
        StmtResult::StmtUnknown
    );
    assert_eq!(check(&rt, &AtomicFact::InFact(id("j"), closed)), StmtResult::StmtUnknown);
}

#[test]
fn products_of_opposite_signs_are_negative() {
    let mul = |a: Obj, b: Obj| Obj::Mul(Box::new(a), Box::new(b));
    let rt = runtime_knowing(vec![
        AtomicFact::LessFact(id("a"), num("0")),
        AtomicFact::LessFact(num("0"), id("b")),
        AtomicFact::InFact(id("a"), set(StandardSet::Z)),
        AtomicFact::InFact(id("b"), set(StandardSet::Z)),
        AtomicFact::LessFact(num("0"), id("c")),
    ]);
    assert_eq!(check(&rt, &AtomicFact::InFact(mul(id("b"), id("a")), set(StandardSet::RNeg))), by(BuiltinRule::MulOppositeSignsInNegativeSet));
    assert_eq!(check(&rt, &AtomicFact::InFact(mul(id("a"), id("b")), set(StandardSet::ZNeg))), by(BuiltinRule::MulOppositeSignsInNegativeSet));
    assert_eq!(check(&rt, &AtomicFact::InFact(mul(id("a"), id("c")), set(StandardSet::ZNeg))), StmtResult::StmtUnknown);
    assert_eq!(check(&rt, &AtomicFact::InFact(mul(id("b"), id("c")), set(StandardSet::RNeg))), StmtResult::StmtUnknown);
}

#[test]
fn max_and_min_of_members() {
    let max = |a: Obj, b: Obj| Obj::Max(Box::new(a), Box::new(b));
    let min = |a: Obj, b: Obj| Obj::Min(Box::new(a), Box::new(b));
    let rt = runtime_knowing(vec![
        AtomicFact::InFact(id("a"), set(StandardSet::NPos)),
        AtomicFact::InFact(id("b"), set(StandardSet::NPos)),
    ]);
    assert_eq!(check(&rt, &AtomicFact::InFact(max(id("a"), id("b")), set(StandardSet::NPos))), by(BuiltinRule::MaxMinOfMembers));
    assert_eq!(check(&rt, &AtomicFact::InFact(min(id("a"), num("3")), set(StandardSet::NPos))), by(BuiltinRule::MaxMinOfMembers));
    assert_eq!(check(&rt, &AtomicFact::InFact(min(id("a"), id("c")), set(StandardSet::NPos))), StmtResult::StmtUnknown);
}
