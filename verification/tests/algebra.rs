use lib::fact::AtomicFact;
use lib::int_literal::{i128_to_string, parse_i128_literal};
use lib::obj::{Obj, StandardSet};
use lib::algebra_special::obj_plus_nonnegative_integer_offset;
use lib::order_algebra::{obj_is_positive_even_integer_number, obj_is_positive_odd_integer_number};
use lib::runtime::{BuiltinRule, Environment, Runtime, StmtResult, VerifiedBy, VerifyState};

fn id(name: &str) -> Obj {
    Obj::Identifier(name.to_string())
}

fn num(value: &str) -> Obj {
    Obj::Number(value.to_string())
}

fn bx(o: Obj) -> Box<Obj> {
    Box::new(o)
}

fn lt(a: Obj, b: Obj) -> AtomicFact {
    AtomicFact::LessFact(a, b)
}

fn le(a: Obj, b: Obj) -> AtomicFact {
    AtomicFact::LessEqualFact(a, b)
}

fn runtime_knowing(facts: Vec<AtomicFact>) -> Runtime {
    let mut rt = Runtime::new();
    rt.environment_stack.push(Environment {
        known_atomic_facts: facts,
        known_forall_facts: Vec::new(),
        strategy_definitions: Vec::new(),
        used_strategies: Vec::new(),
        stopped_strategies: Vec::new(),
    });
    rt
}

fn check_at(rt: &Runtime, fact: &AtomicFact, depth: u32) -> StmtResult {
    rt.verify_non_equational_known_then_builtin_rules_only(fact, &VerifyState::new(depth))
}

fn by(rule: BuiltinRule) -> StmtResult {
    StmtResult::FactualStmtSuccess(VerifiedBy::Builtin(rule))
}

#[test]
fn integer_literals() {
    assert_eq!(parse_i128_literal("42"), Some(42));
    assert_eq!(parse_i128_literal("-007"), Some(-7));
    assert_eq!(parse_i128_literal("+5"), Some(5));
    assert_eq!(parse_i128_literal("1.5"), None);
    assert_eq!(parse_i128_literal("-"), None);
    assert_eq!(parse_i128_literal(""), None);
    assert_eq!(parse_i128_literal("170141183460469231731687303715884105727"), Some(i128::MAX));
    assert_eq!(parse_i128_literal("-170141183460469231731687303715884105728"), Some(i128::MIN));
    assert_eq!(parse_i128_literal("170141183460469231731687303715884105728"), None);
    assert_eq!(i128_to_string(-120), "-120".to_string());
    assert_eq!(i128_to_string(0), "0".to_string());
    assert_eq!(i128_to_string(i128::MIN), i128::MIN.to_string());
    assert!(obj_is_positive_odd_integer_number(&num("3")));
    assert!(!obj_is_positive_odd_integer_number(&num("4")));
    assert!(obj_is_positive_even_integer_number(&num("4")));
    assert!(!obj_is_positive_even_integer_number(&num("-4")));
}

#[test]
fn integer_offsets() {
    assert!(matches!(obj_plus_nonnegative_integer_offset(&num("3"), 2), Obj::Number(s) if s == "5"));
    assert!(matches!(obj_plus_nonnegative_integer_offset(&id("a"), 0), Obj::Identifier(s) if s == "a"));
    match obj_plus_nonnegative_integer_offset(&id("a"), 2) {
        Obj::Add(l, r) => {
            assert!(matches!(*l, Obj::Identifier(ref s) if s == "a"));
            assert!(matches!(*r, Obj::Number(ref s) if s == "2"));
        }
        _ => panic!("expected a sum"),
    }
}

#[test]
fn powers_with_a_common_exponent() {
    let pow = |b: Obj, e: &str| Obj::Pow(bx(b), bx(num(e)));
    let rt = runtime_knowing(vec![le(num("0"), id("a")), le(id("a"), id("b"))]);
    assert_eq!(check_at(&rt, &le(pow(id("a"), "2"), pow(id("b"), "2")), 2), by(BuiltinRule::PowMonotoneNonnegativeBase));
    let rt = runtime_knowing(vec![lt(id("a"), id("b"))]);
    assert_eq!(check_at(&rt, &lt(pow(id("a"), "3"), pow(id("b"), "3")), 2), by(BuiltinRule::PowMonotoneOddExponent));
    assert_eq!(check_at(&rt, &lt(pow(id("a"), "2"), pow(id("b"), "2")), 2), StmtResult::StmtUnknown);
    let abs = |o: Obj| Obj::Abs(bx(o));
    let rt = runtime_knowing(vec![lt(abs(id("a")), abs(id("b")))]);
    assert_eq!(check_at(&rt, &lt(pow(id("a"), "2"), pow(id("b"), "2")), 2), by(BuiltinRule::PowEvenExponentFromAbs));
}

#[test]
fn differences_and_quotients() {
    let sub = |a: Obj, b: Obj| Obj::Sub(bx(a), bx(b));
    let abs = |o: Obj| Obj::Abs(bx(o));
    let rt = runtime_knowing(vec![lt(num("0"), id("x")), le(num("0"), sub(id("x"), num("1")))]);
    assert_eq!(
        check_at(&rt, &lt(abs(sub(id("x"), num("1"))), abs(id("x"))), 2),
        by(BuiltinRule::AbsOfSubtractedPositiveInteger)
    );
    let rt = Runtime::new();
    // With subgoals, a - 3 < a comes from a <= a and 0 < 3; without, from the literal.
    assert_eq!(check_at(&rt, &lt(sub(id("a"), num("3")), id("a")), 2), by(BuiltinRule::AlgebraSubtractPositive));
    assert_eq!(check_at(&rt, &lt(sub(id("a"), num("3")), id("a")), 0), by(BuiltinRule::SubtractIntegerLiteral));
    assert_eq!(check_at(&rt, &le(sub(id("a"), num("0")), id("a")), 0), by(BuiltinRule::SubtractIntegerLiteral));
    let div = |a: Obj, b: Obj| Obj::Div(bx(a), bx(b));
    let rt = runtime_knowing(vec![lt(num("0"), id("a")), lt(num("1"), id("b")), lt(num("0"), id("c")), lt(id("p"), id("q"))]);
    assert_eq!(check_at(&rt, &lt(div(id("a"), id("b")), id("a")), 2), by(BuiltinRule::DivByGreaterThanOne));
    assert_eq!(check_at(&rt, &lt(div(id("p"), id("c")), div(id("q"), id("c"))), 2), by(BuiltinRule::DivSameDenominatorPositive));
    // `a / b < a` claims the fact's shape: without its subgoals nothing else is tried.
    assert_eq!(check_at(&rt, &lt(div(id("q"), id("b")), id("q")), 2), StmtResult::StmtUnknown);
    let rt = runtime_knowing(vec![le(id("n5"), id("x"))]);
    let n5 = runtime_knowing(vec![le(num("5"), id("x"))]);
    assert_eq!(check_at(&n5, &le(num("3"), sub(id("x"), num("2"))), 2), by(BuiltinRule::MoveRightIntegerSubtractor));
    assert_eq!(check_at(&rt, &le(num("3"), sub(id("x"), num("2"))), 2), StmtResult::StmtUnknown);
}

#[test]
fn products_and_componentwise_sums() {
    let mul = |a: Obj, b: Obj| Obj::Mul(bx(a), bx(b));
    let add = |a: Obj, b: Obj| Obj::Add(bx(a), bx(b));
    let rt = runtime_knowing(vec![
        lt(id("a"), num("0")),
        lt(num("0"), id("b")),
        lt(id("c"), num("0")),
        lt(num("0"), id("k")),
        lt(id("u"), id("v")),
        lt(num("1"), id("m")),
        lt(id("j"), num("0")),
    ]);
    assert_eq!(check_at(&rt, &lt(mul(id("a"), id("b")), num("0")), 2), by(BuiltinRule::MulNegativeBySigns));
    assert_eq!(check_at(&rt, &lt(num("0"), mul(id("a"), id("c"))), 2), by(BuiltinRule::MulPositiveBySigns));
    assert_eq!(check_at(&rt, &lt(id("k"), mul(id("m"), id("k"))), 2), by(BuiltinRule::SelfTimesGreaterThanOne));
    assert_eq!(check_at(&rt, &lt(mul(id("k"), id("u")), mul(id("k"), id("v"))), 2), by(BuiltinRule::MulSharedFactorPositive));
    assert_eq!(check_at(&rt, &lt(mul(id("j"), id("v")), mul(id("j"), id("u"))), 2), by(BuiltinRule::MulSharedFactorNegative));
    assert_eq!(check_at(&rt, &lt(add(id("u"), id("a")), add(id("v"), num("0"))), 2), by(BuiltinRule::AddComponentwise));
    let rt = runtime_knowing(vec![
        le(num("0"), id("x1")),
        le(num("0"), id("x2")),
        le(num("0"), id("y1")),
        le(num("0"), id("y2")),
        le(id("x1"), id("y1")),
        le(id("x2"), id("y2")),
    ]);
    assert_eq!(
        check_at(&rt, &le(mul(id("x1"), id("x2")), mul(id("y2"), id("y1"))), 2),
        by(BuiltinRule::MulComponentwiseNonnegative)
    );
    // `a + c <= b + d` claims the fact's shape: it needs both `a <= b` and `c <= d`.
    assert_eq!(check_at(&rt, &le(add(id("x1"), id("q")), add(id("y1"), id("r"))), 2), StmtResult::StmtUnknown);
}

#[test]
fn one_roots_and_signs_of_products() {
    let n = id("n");
    let rt = runtime_knowing(vec![
        AtomicFact::InFact(n.duplicate(), Obj::StandardSet(StandardSet::N)),
        AtomicFact::NotEqualFact(n.duplicate(), num("0")),
    ]);
    assert_eq!(check_at(&rt, &le(num("1"), n.duplicate()), 2), by(BuiltinRule::OneLeFromMembershipInNAndNonzero));
    assert_eq!(check_at(&rt, &AtomicFact::GreaterEqualFact(n.duplicate(), num("1")), 2), by(BuiltinRule::OneLeFromMembershipInNAndNonzero));
    let bare = runtime_knowing(vec![AtomicFact::InFact(n.duplicate(), Obj::StandardSet(StandardSet::N))]);
    assert_eq!(check_at(&bare, &le(num("1"), n.duplicate()), 2), StmtResult::StmtUnknown);

    let (a, b) = (id("a"), id("b"));
    let ordered = runtime_knowing(vec![le(num("0"), a.duplicate()), le(num("0"), b.duplicate()), le(a.duplicate(), b.duplicate())]);
    let roots = le(Obj::Sqrt(bx(a.duplicate())), Obj::Sqrt(bx(b.duplicate())));
    assert_eq!(check_at(&ordered, &roots, 2), by(BuiltinRule::SqrtMonotone));
    let unsigned = runtime_knowing(vec![le(a.duplicate(), b.duplicate())]);
    assert_eq!(check_at(&unsigned, &roots, 2), StmtResult::StmtUnknown);

    let signs = runtime_knowing(vec![le(num("0"), a.duplicate()), lt(num("0"), b.duplicate())]);
    assert_eq!(check_at(&signs, &le(num("0"), Obj::Mul(bx(a.duplicate()), bx(b.duplicate()))), 2), by(BuiltinRule::MulPositiveBySigns));
    assert_eq!(check_at(&signs, &le(num("0"), Obj::Div(bx(a.duplicate()), bx(b.duplicate()))), 2), by(BuiltinRule::ZeroLeDiv));
    assert_eq!(check_at(&signs, &lt(num("0"), Obj::Div(bx(a.duplicate()), bx(b.duplicate()))), 2), StmtResult::StmtUnknown);
    let positive = runtime_knowing(vec![lt(num("0"), a.duplicate()), lt(num("0"), b.duplicate())]);
    assert_eq!(check_at(&positive, &lt(num("0"), Obj::Div(bx(a.duplicate()), bx(b.duplicate()))), 2), by(BuiltinRule::ZeroLtDiv));
}

#[test]
fn signs_of_powers() {
    let pow = |b: Obj, e: &str| Obj::Pow(bx(b), bx(num(e)));
    let (a, n, m) = (id("a"), id("n"), id("m"));
    let integers = runtime_knowing(vec![
        AtomicFact::InFact(n.duplicate(), Obj::StandardSet(StandardSet::Z)),
        lt(num("0"), n.duplicate()),
    ]);
    assert_eq!(check_at(&integers, &le(num("1"), n.duplicate()), 0), by(BuiltinRule::OneLeFromMembershipInZAndPositive));
    assert_eq!(check_at(&integers, &le(num("1"), n.duplicate()), 2), by(BuiltinRule::OneLeFromMembershipInNPos));
    let rt = runtime_knowing(Vec::new());
    assert_eq!(check_at(&rt, &le(num("0"), Obj::Mul(bx(a.duplicate()), bx(a.duplicate()))), 2), by(BuiltinRule::ZeroLeEvenPower));
    assert_eq!(check_at(&rt, &le(num("0"), pow(a.duplicate(), "4")), 2), by(BuiltinRule::ZeroLeEvenPower));
    assert_eq!(check_at(&rt, &lt(num("0"), pow(a.duplicate(), "2")), 2), StmtResult::StmtUnknown);
    let nonzero = runtime_knowing(vec![AtomicFact::NotEqualFact(a.duplicate(), num("0"))]);
    assert_eq!(check_at(&nonzero, &lt(num("0"), pow(a.duplicate(), "2")), 2), by(BuiltinRule::ZeroLtEvenPowerFromNonzeroBase));
    let positive = runtime_knowing(vec![
        lt(num("0"), a.duplicate()),
        AtomicFact::InFact(m.duplicate(), Obj::StandardSet(StandardSet::R)),
    ]);
    let real_power = Obj::Pow(bx(a.duplicate()), bx(m.duplicate()));
    assert_eq!(check_at(&positive, &lt(num("0"), real_power.duplicate()), 2), by(BuiltinRule::ZeroLtPowerFromPositiveBase));
    assert_eq!(check_at(&positive, &le(num("0"), real_power.duplicate()), 2), by(BuiltinRule::ZeroLePowerFromPositiveBase));
    let nonnegative = runtime_knowing(vec![
        le(num("0"), a.duplicate()),
        AtomicFact::InFact(m.duplicate(), Obj::StandardSet(StandardSet::NPos)),
    ]);
    assert_eq!(check_at(&nonnegative, &le(num("0"), real_power.duplicate()), 2), by(BuiltinRule::ZeroLePowerFromNonnegativeBasePositiveExponent));
    assert_eq!(check_at(&nonnegative, &le(num("0"), pow(a.duplicate(), "0")), 2), by(BuiltinRule::ZeroLeEvenPower));
    assert_eq!(check_at(&positive, &le(num("0"), pow(a.duplicate(), "-1")), 0), by(BuiltinRule::ZeroLePowerWithIntegerExponent));
    assert_eq!(check_at(&nonnegative, &le(num("0"), pow(a.duplicate(), "-1")), 2), StmtResult::StmtUnknown);
}

#[test]
fn integer_lower_bounds() {
    let x = id("x");
    let above_four = runtime_knowing(vec![lt(num("4"), x.duplicate())]);
    assert_eq!(check_at(&above_four, &le(num("2"), x.duplicate()), 2), by(BuiltinRule::LowerBoundFromKnownLowerBound));
    assert_eq!(check_at(&above_four, &lt(num("4"), x.duplicate()), 2), StmtResult::FactualStmtSuccess(VerifiedBy::KnownFact));
    assert_eq!(check_at(&above_four, &AtomicFact::GreaterFact(x.duplicate(), num("3")), 2), by(BuiltinRule::LowerBoundFromKnownLowerBound));
    assert_eq!(check_at(&above_four, &le(num("5"), x.duplicate()), 2), StmtResult::StmtUnknown);
    let integer = runtime_knowing(vec![
        AtomicFact::GreaterFact(x.duplicate(), num("4")),
        AtomicFact::InFact(x.duplicate(), Obj::StandardSet(StandardSet::Z)),
    ]);
    assert_eq!(check_at(&integer, &le(num("5"), x.duplicate()), 2), by(BuiltinRule::IntegerLowerBoundFromStrictPredecessor));
    assert_eq!(check_at(&integer, &le(num("6"), x.duplicate()), 2), StmtResult::StmtUnknown);
    let at_least_four = runtime_knowing(vec![le(num("4"), x.duplicate())]);
    assert_eq!(check_at(&at_least_four, &lt(num("3"), x.duplicate()), 2), by(BuiltinRule::LowerBoundFromKnownLowerBound));
    assert_eq!(check_at(&at_least_four, &lt(num("4"), x.duplicate()), 2), StmtResult::StmtUnknown);
}

#[test]
fn logarithm_orders() {
    let (a, b, x, y) = (id("a"), id("b"), id("x"), id("y"));
    let log = |base: &Obj, arg: &Obj| Obj::Log(bx(base.duplicate()), bx(arg.duplicate()));
    let growing = runtime_knowing(vec![lt(num("1"), a.duplicate()), lt(x.duplicate(), y.duplicate())]);
    assert_eq!(check_at(&growing, &lt(log(&a, &x), log(&a, &y)), 2), by(BuiltinRule::LogOrderBaseAboveOne));
    assert_eq!(check_at(&growing, &AtomicFact::GreaterFact(log(&a, &y), log(&a, &x)), 2), by(BuiltinRule::LogOrderBaseAboveOne));
    assert_eq!(check_at(&growing, &lt(log(&a, &y), log(&a, &x)), 2), StmtResult::StmtUnknown);
    assert_eq!(check_at(&growing, &lt(log(&a, &x), log(&b, &y)), 2), StmtResult::StmtUnknown);
    let same_base = runtime_knowing(vec![
        lt(num("1"), a.duplicate()),
        lt(x.duplicate(), y.duplicate()),
        AtomicFact::EqualFact(b.duplicate(), a.duplicate()),
    ]);
    assert_eq!(check_at(&same_base, &lt(log(&a, &x), log(&b, &y)), 2), by(BuiltinRule::LogOrderBaseAboveOne));
    let shrinking = runtime_knowing(vec![lt(a.duplicate(), num("1")), lt(x.duplicate(), y.duplicate())]);
    assert_eq!(check_at(&shrinking, &lt(log(&a, &y), log(&a, &x)), 2), by(BuiltinRule::LogOrderBaseBelowOne));
    let signs = runtime_knowing(vec![
        lt(num("1"), a.duplicate()),
        lt(num("1"), x.duplicate()),
        lt(y.duplicate(), num("1")),
        lt(num("0"), y.duplicate()),
    ]);
    assert_eq!(check_at(&signs, &lt(num("0"), log(&a, &x)), 2), by(BuiltinRule::LogPositive));
    assert_eq!(check_at(&signs, &lt(log(&a, &y), num("0")), 2), by(BuiltinRule::LogNegative));
    assert_eq!(check_at(&signs, &lt(num("0"), log(&a, &y)), 2), StmtResult::StmtUnknown);
}

#[test]
fn known_subgoals_hold_at_depth_zero() {
    let x = id("x");
    let integer = runtime_knowing(vec![
        AtomicFact::GreaterFact(x.duplicate(), num("4")),
        AtomicFact::InFact(x.duplicate(), Obj::StandardSet(StandardSet::Z)),
    ]);
    assert_eq!(check_at(&integer, &le(num("5"), x.duplicate()), 0), by(BuiltinRule::IntegerLowerBoundFromStrictPredecessor));
    assert_eq!(check_at(&integer, &le(num("2"), x.duplicate()), 0), by(BuiltinRule::LowerBoundFromKnownLowerBound));
}

#[test]
fn number_expressions_are_evaluated() {
    let rt = runtime_knowing(Vec::new());
    let add = |a: Obj, b: Obj| Obj::Add(bx(a), bx(b));
    let mul = |a: Obj, b: Obj| Obj::Mul(bx(a), bx(b));
    let div = |a: Obj, b: Obj| Obj::Div(bx(a), bx(b));
    assert_eq!(check_at(&rt, &lt(add(num("1"), num("1")), num("3")), 0), by(BuiltinRule::NumberComparison));
    assert_eq!(check_at(&rt, &lt(add(num("1"), num("1")), num("2.5")), 0), by(BuiltinRule::NumberComparison));
    assert_eq!(check_at(&rt, &lt(num("3"), add(num("1"), num("1"))), 0), StmtResult::StmtUnknown);
    assert_eq!(rt.verify_number_comparison_builtin_rule(&lt(add(num("1"), num("1")), num("2"))), Some(false));
    assert_eq!(rt.try_verify_numeric_order_via_div_elimination(&div(add(num("1"), num("1")), num("2")), &num("0"), false), Some(false));
    assert_eq!(rt.try_verify_numeric_order_via_div_elimination(&num("0"), &div(add(num("1"), num("1")), num("2")), false), Some(true));
    assert_eq!(
        rt.try_verify_numeric_order_via_div_elimination(&div(num("1"), mul(num("2"), num("3"))), &div(num("1"), num("5")), false),
        Some(true)
    );
    assert_eq!(rt.try_verify_numeric_order_via_div_elimination(&div(num("1"), Obj::Sub(bx(num("2")), bx(num("2")))), &num("0"), false), None);
    assert_eq!(check_at(&rt, &AtomicFact::NotEqualFact(add(num("1"), num("1")), num("3")), 0), by(BuiltinRule::NotEqualByCalculation));
    assert_eq!(check_at(&rt, &AtomicFact::NotEqualFact(add(num("1"), num("1")), num("2.0")), 0), StmtResult::StmtUnknown);
    assert!(rt.verify_equality_by_builtin_rules(&mul(num("2"), num("3")), &num("6.0"), &VerifyState::new(0)).unwrap().is_true());
    assert!(!rt.verify_equality_by_builtin_rules(&mul(num("2"), num("3")), &num("7"), &VerifyState::new(0)).unwrap().is_true());
}

#[test]
fn membership_in_real_intervals() {
    let x = id("x");
    let rt = runtime_knowing(vec![
        AtomicFact::InFact(x.duplicate(), Obj::StandardSet(StandardSet::R)),
        lt(num("0"), x.duplicate()),
        le(x.duplicate(), num("1")),
    ]);
    let open_closed = Obj::Interval(bx(num("0")), bx(num("1")), false, true);
    let closed_open = Obj::Interval(bx(num("0")), bx(num("1")), true, false);
    assert_eq!(check_at(&rt, &AtomicFact::InFact(x.duplicate(), open_closed), 0), by(BuiltinRule::InIntervalFromBounds));
    assert_eq!(check_at(&rt, &AtomicFact::InFact(x.duplicate(), closed_open), 0), StmtResult::StmtUnknown);
}
