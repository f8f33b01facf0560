//! The state of the checker: a stack of environments holding known facts,
//! the imported modules, and the results that verification produces.
use vstd::prelude::*;
use crate::obj::{Obj, ObjV, StandardSet};
use crate::fact::{AtomicFact, AtomicFactV, facts_equal};

verus! {

/// The rules by which a builtin check can succeed.
#[derive(PartialEq, Eq, Structural, Debug, Clone, Copy)]
pub enum BuiltinRule {
    StandardSetSubset,
    StandardSetSuperset,
    SubsetSupersetDuality,
    EveryObjectIsASet,
    NumberComparison,
    LessEqualFromSameObject,
    LessEqualFromKnownEquality,
    LessEqualFromKnownStrictOrder,
    GreaterEqualFromSameObject,
    GreaterEqualFromKnownEquality,
    GreaterEqualFromKnownStrictOrder,
    AbsLowerBound,
    AbsUpperBound,
    AbsUpperBoundStrict,
    AbsLowerBoundFromAbsCompare,
    AbsTriangle,
    AbsReverseTriangle,
    OrderFromKnownNegatedComplement,
    NegatedOrderFromKnownEquivalentOrder,
    StandardSetMembership,
    NotInStandardSet,
    ListSetMembership,
    NotInListSet,
    UnionCommutative,
    UnionAssociative,
    UnionIdempotent,
    UnionEmptyIdentity,
    IntersectCommutative,
    IntersectAssociative,
    IntersectUnionDistributive,
    SetMinusUnionDeMorgan,
    SetMinusIntersectDeMorgan,
    EqualityFromTwoSidedWeakOrder,
    CartCountProduct,
    SubtractionFromKnownAddition,
    DivisionProductConversion,
    EmptySetFromNotNonempty,
    EqualityByLiteral,
    EqualityByCalculation,
    NonemptyStandardSet,
    NonemptyListSet,
    FiniteListSet,
    CartIsCart,
    TupleIsTuple,
    NotEqualByCalculation,
    NotEqualFromKnownStrictOrder,
    NotEqualListSetsOfDifferentLength,
    NotEqualEmptySetFromNonempty,
    SubNotEqualZeroFromOperandNotEqual,
    AddNotEqualZeroFromOperandNotEqualNegation,
    OperandNotEqualFromSubNotEqualZero,
    OperandNotEqualNegationFromAddNotEqualZero,
    NotEqualZeroFromNAndOneLe,
    NotEqualPowFromNonzeroBase,
    DivNotEqualZeroFromNonzeroParts,
    SquareSumNotEqualZero,
    NotEqualZeroFromOperandSigns,
    NonemptyFromNotEqualEmptySet,
    NonemptyPowerSet,
    NonemptyClosedRange,
    NonemptyInterval,
    NonemptyUnionLeft,
    NonemptyUnionRight,
    NonemptyCart,
    NonemptyFiniteSeqSet,
    NonemptySeqSet,
    NonemptyMatrixSet,
    FiniteClosedRange,
    FiniteRange,
    FiniteUnion,
    FiniteIntersect,
    FiniteSetMinus,
    FiniteSetDiff,
    FiniteCart,
    NotNonemptyEmptyListSet,
    NotNonemptyFromEqualEmptySet,
    NonnegativeFromMembershipInN,
    OneLeFromMembershipInNPos,
    ZeroLeAbs,
    ZeroLeSqrt,
    ZeroLtSqrt,
    ZeroLeSubFromOrder,
    ZeroLtSubFromOrder,
    ZeroLeAdd,
    ZeroLtAddStrictLeft,
    ZeroLtAddStrictRight,
    AbsNegAbsBoundFromAbsCompare,
    AbsNegBoundFromAbsCompareAndSign,
    AbsBoundFromAbsCompare,
    AbsNegArgBoundFromAbsCompare,
    AbsLowerFromAbsCompareAndSign,
    AbsNegUpperFromAbsCompareAndSign,
    AbsUpperFromAbsCompareAndSign,
    AlgebraAddCommonTerm,
    AlgebraSubtractNonnegative,
    AlgebraSubtractPositive,
    AlgebraMoveLeftSubtractor,
    AlgebraSelfPlusNonnegative,
    AlgebraAddNonnegative,
    AlgebraMoveRightSubtractor,
    AlgebraSubComponentwise,
    PowMonotoneNonnegativeBase,
    PowMonotoneOddExponent,
    PowEvenExponentFromAbs,
    AbsOfSubtractedPositiveInteger,
    SubtractIntegerLiteral,
    MoveRightIntegerSubtractor,
    DivByGreaterThanOne,
    MulNegativeBySigns,
    MulPositiveBySigns,
    SelfTimesGreaterThanOne,
    MulComponentwiseNonnegative,
    MulSharedFactorPositive,
    MulSharedFactorNegative,
    AddComponentwise,
    DivSameDenominatorPositive,
    DivSameDenominatorNegative,
    OneLeFromMembershipInNAndNonzero,
    OneLeFromMembershipInZAndPositive,
    LowerBoundFromKnownLowerBound,
    IntegerLowerBoundFromStrictPredecessor,
    SqrtMonotone,
    LogOrderBaseAboveOne,
    LogOrderBaseBelowOne,
    LogPositive,
    LogNegative,
    ZeroLeEvenPower,
    ZeroLtEvenPowerFromNonzeroBase,
    ZeroLtPowerFromPositiveBase,
    ZeroLePowerFromPositiveBase,
    ZeroLePowerFromNonnegativeBasePositiveExponent,
    ZeroLePowerWithIntegerExponent,
    ZeroLeMul,
    ZeroLtMul,
    ZeroLeDiv,
    ZeroLtDiv,
    TupleInCart,
    AddInNFromSummands,
    MulInNFromFactors,
    CountOfFiniteSetInNumbers,
    NFromNPos,
    NFromNonnegativeInteger,
    NPosFromPositiveInteger,
    PositiveFromBaseSet,
    ArithmeticInR,
    ArithmeticInZ,
    ArithmeticInQ,
    SubInNFromBound,
    PowInNaturalsFromNaturalExponent,
    AddInNPos,
    MulInNPos,
    InClosedRangeFromBounds,
    InRangeFromBounds,
    InIntervalFromBounds,
    MulOppositeSignsInNegativeSet,
    MaxMinOfMembers,
}

/// How a fact was established.
#[derive(PartialEq, Eq, Structural, Debug, Clone, Copy)]
pub enum VerifiedBy {
    /// It is one of the known facts.
    KnownFact,
    /// It is an instance of a known universal fact.
    KnownForallFact,
    /// A builtin rule proves it.
    Builtin(BuiltinRule),
    /// Each of its parts was established in turn.
    EachPart,
    /// The strategy in use for its relation proves it.
    Strategy,
}

/// The result of checking a statement.
#[derive(PartialEq, Eq, Structural, Debug, Clone, Copy)]
pub enum StmtResult {
    FactualStmtSuccess(VerifiedBy),
    NonFactualStmtSuccess,
    StmtUnknown,
}

impl StmtResult {
    pub open spec fn spec_is_true(self) -> bool {
        !(self is StmtUnknown)
    }

    /// Whether the statement was established.
    pub fn is_true(&self) -> (r: bool)
        ensures
            r == self.spec_is_true(),
    {
        match self {
            StmtResult::StmtUnknown => false,
            _ => true,
        }
    }

    /// Whether the statement could not be established.
    pub fn is_unknown(&self) -> (r: bool)
        ensures
            r == !self.spec_is_true(),
    {
        match self {
            StmtResult::StmtUnknown => true,
            _ => false,
        }
    }
}

/// Errors raised while checking.
#[derive(PartialEq, Eq, Structural, Debug, Clone, Copy)]
pub enum RuntimeError {
    /// `not exist` was given a fact that is not a negated existential.
    NotANotExistFact,
    /// `not exist` with no parameters.
    NotExistWithoutParams,
    /// `not exist` with an empty body.
    NotExistWithEmptyBody,
    /// `not exist` over a body fact that cannot be negated here.
    NotExistBodyCannotBeNegated,
    /// An empty `and` inside a `not exist` body.
    NotExistEmptyAnd,
    /// An empty chain inside a `not exist` body.
    NotExistEmptyChain,
    /// An `or` inside a `not exist` body.
    NotExistOrInBody,
    /// A `$fn_eq` fact inside a `not exist` body.
    NotExistFnEqualInBody,
    /// A chain whose relations do not fit its objects.
    MalformedChain,
}

/// The type given to a parameter.
#[derive(Debug)]
pub enum ParamType {
    /// The parameter ranges over the elements of a set.
    Obj(Obj),
    /// The parameter is any set.
    AnySet,
    NonemptySet,
    FiniteSet,
}

/// The value of a [`ParamType`].
pub enum ParamTypeV {
    Obj(ObjV),
    AnySet,
    NonemptySet,
    FiniteSet,
}

impl View for ParamType {
    type V = ParamTypeV;

    open spec fn view(&self) -> ParamTypeV {
        match self {
            ParamType::Obj(o) => ParamTypeV::Obj(o@),
            ParamType::AnySet => ParamTypeV::AnySet,
            ParamType::NonemptySet => ParamTypeV::NonemptySet,
            ParamType::FiniteSet => ParamTypeV::FiniteSet,
        }
    }
}

impl ParamType {
    /// A copy of the type.
    pub fn duplicate(&self) -> (r: ParamType)
        ensures
            r@ == self@,
    {
        match self {
            ParamType::Obj(o) => ParamType::Obj(o.duplicate()),
            ParamType::AnySet => ParamType::AnySet,
            ParamType::NonemptySet => ParamType::NonemptySet,
            ParamType::FiniteSet => ParamType::FiniteSet,
        }
    }
}

/// Parameters that share one type.
#[derive(Debug)]
pub struct ParamGroup {
    pub params: Vec<String>,
    pub param_type: ParamType,
}

/// A known universal fact: `forall params: dom => then_fact`.
#[derive(Debug)]
pub struct KnownForallFact {
    pub params: Vec<ParamGroup>,
    pub dom: Vec<AtomicFact>,
    pub then_fact: AtomicFact,
}

/// A strategy put in use (or stopped) for the relation of a fact: only the
/// relation of `relation`, and whether it is negated, count.
#[derive(Debug)]
pub struct StrategyUse {
    pub relation: AtomicFact,
    pub strategy_name: String,
}

/// A named strategy: a universal fact whose conclusion it proves.
#[derive(Debug)]
pub struct StrategyDefinition {
    pub name: String,
    pub forall_fact: KnownForallFact,
}

/// One scope of known facts, and of the strategies defined, used and
/// stopped in it.
#[derive(Debug)]
pub struct Environment {
    pub known_atomic_facts: Vec<AtomicFact>,
    pub known_forall_facts: Vec<KnownForallFact>,
    pub strategy_definitions: Vec<StrategyDefinition>,
    pub used_strategies: Vec<StrategyUse>,
    pub stopped_strategies: Vec<StrategyUse>,
}

/// An imported module: the name it is imported under and its path.
#[derive(Debug)]
pub struct ImportedModule {
    pub name: String,
    pub absolute_path: String,
}

/// The checker's state. The bottom environment (index 0) holds the builtin facts.
#[derive(Debug)]
pub struct Runtime {
    pub environment_stack: Vec<Environment>,
    pub imported_modules: Vec<ImportedModule>,
}

/// How far a check may still go into nested subgoals: a rule that needs
/// another fact checked first spends one level.
#[derive(Debug, Clone, Copy)]
pub struct VerifyState {
    pub subgoal_depth: u32,
}

impl VerifyState {
    pub fn new(subgoal_depth: u32) -> (r: VerifyState)
        ensures
            r.subgoal_depth == subgoal_depth,
    {
        VerifyState { subgoal_depth }
    }

    /// The state for a subgoal: one level less.
    pub fn deeper(&self) -> (r: VerifyState)
        requires
            self.subgoal_depth > 0,
        ensures
            r.subgoal_depth == self.subgoal_depth - 1,
    {
        VerifyState { subgoal_depth: self.subgoal_depth - 1 }
    }
}

/// Index of the environment that holds the builtin facts.
pub const FILE_INDEX_FOR_BUILTIN: usize = 0;

/// The environment holds the fact among its known atomic facts.
pub open spec fn env_knows(env: Environment, f: AtomicFactV) -> bool {
    exists|j: int| 0 <= j < env.known_atomic_facts@.len() && #[trigger] env.known_atomic_facts@[j]@ == f
}

/// The fact is one of the known atomic facts.
pub open spec fn is_known(rt: &Runtime, f: AtomicFactV) -> bool {
    exists|i: int| 0 <= i < rt.environment_stack@.len() && env_knows(#[trigger] rt.environment_stack@[i], f)
}

/// Whether the environment holds the fact among its known atomic facts.
pub fn environment_knows(env: &Environment, atomic_fact: &AtomicFact) -> (r: bool)
    ensures
        r == env_knows(*env, atomic_fact@),
{
    let n = env.known_atomic_facts.len();
    let mut j: usize = 0;
    while j < n
        invariant
            n == env.known_atomic_facts@.len(),
            j <= n,
            forall|b: int| 0 <= b < j ==> #[trigger] env.known_atomic_facts@[b]@ != atomic_fact@,
        decreases n - j,
    {
        if facts_equal(&env.known_atomic_facts[j], atomic_fact) {
            return true;
        }
        j = j + 1;
    }
    false
}

pub open spec fn known_result(rt: &Runtime, f: AtomicFactV) -> StmtResult {
    if is_known(rt, f) {
        StmtResult::FactualStmtSuccess(VerifiedBy::KnownFact)
    } else {
        StmtResult::StmtUnknown
    }
}

impl Runtime {
    /// A runtime with one empty builtin environment.
    pub fn new() -> (r: Runtime)
        ensures
            r.environment_stack@.len() == 1,
            r.environment_stack@[0].known_atomic_facts@.len() == 0,
            r.environment_stack@[0].known_forall_facts@.len() == 0,
            r.imported_modules@.len() == 0,
    {
        let mut environment_stack: Vec<Environment> = Vec::new();
        environment_stack.push(
            Environment {
                known_atomic_facts: Vec::new(),
                known_forall_facts: Vec::new(),
                strategy_definitions: Vec::new(),
                used_strategies: Vec::new(),
                stopped_strategies: Vec::new(),
            },
        );
        Runtime { environment_stack, imported_modules: Vec::new() }
    }

    /// Look the fact up among the known atomic facts of every environment,
    /// from the innermost outward.
    pub fn verify_non_equational_atomic_fact_with_known_atomic_facts(
        &self,
        atomic_fact: &AtomicFact,
    ) -> (r: StmtResult)
        ensures
            r == known_result(self, atomic_fact@),
    {
        let envs_count = self.environment_stack.len();
        let mut i: usize = 0;
        while i < envs_count
            invariant
                envs_count == self.environment_stack@.len(),
                i <= envs_count,
                forall|a: int| envs_count - i <= a < envs_count ==> !env_knows(
                    #[trigger] self.environment_stack@[a],
                    atomic_fact@,
                ),
            decreases envs_count - i,
        {
            let stack_idx = envs_count - 1 - i;
            if environment_knows(&self.environment_stack[stack_idx], atomic_fact) {
                return StmtResult::FactualStmtSuccess(VerifiedBy::KnownFact);
            }
            i = i + 1;
        }
        StmtResult::StmtUnknown
    }
}

} // verus!
