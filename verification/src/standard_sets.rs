//! The standard number sets and the inclusions between them.
use vstd::prelude::*;
use crate::obj::StandardSet;

verus! {

/// Kinds of real numbers: integers, rationals that are not integers, and
/// irrationals.
#[derive(PartialEq, Eq, Structural, Debug, Clone, Copy)]
pub enum NumberKind {
    Integer,
    Fraction,
    Irrational,
}

/// Signs of real numbers.
#[derive(PartialEq, Eq, Structural, Debug, Clone, Copy)]
pub enum NumberSign {
    Negative,
    Zero,
    Positive,
}

/// Whether a number of the given kind and sign exists (zero is an integer).
pub open spec fn is_number_class(kind: NumberKind, sign: NumberSign) -> bool {
    sign == NumberSign::Zero ==> kind == NumberKind::Integer
}

/// Whether the standard set holds the numbers of the given kind and sign.
pub open spec fn standard_set_holds(s: StandardSet, kind: NumberKind, sign: NumberSign) -> bool {
    let rational = kind != NumberKind::Irrational;
    let integer = kind == NumberKind::Integer;
    match s {
        StandardSet::NPos => integer && sign == NumberSign::Positive,
        StandardSet::N => integer && sign != NumberSign::Negative,
        StandardSet::Z => integer,
        StandardSet::Q => rational,
        StandardSet::R => true,
        StandardSet::QPos => rational && sign == NumberSign::Positive,
        StandardSet::RPos => sign == NumberSign::Positive,
        StandardSet::QNeg => rational && sign == NumberSign::Negative,
        StandardSet::ZNeg => integer && sign == NumberSign::Negative,
        StandardSet::RNeg => sign == NumberSign::Negative,
        StandardSet::QNz => rational && sign != NumberSign::Zero,
        StandardSet::ZNz => integer && sign != NumberSign::Zero,
        StandardSet::RNz => sign != NumberSign::Zero,
    }
}

/// Every number in `subset` is in `superset`.
pub open spec fn standard_set_subset(subset: StandardSet, superset: StandardSet) -> bool {
    forall|kind: NumberKind, sign: NumberSign|
        is_number_class(kind, sign) && #[trigger] standard_set_holds(subset, kind, sign)
            ==> standard_set_holds(superset, kind, sign)
}

/// The inclusion between standard sets, read off the fixed chain
/// `N_pos ⊆ N ⊆ Z ⊆ Q ⊆ R` and its signed and nonzero variants.
pub fn standard_set_is_subset_eq(subset: &StandardSet, superset: &StandardSet) -> (r: bool)
    ensures
        r == standard_set_subset(*subset, *superset),
{
    let r = match (subset, superset) {
        (StandardSet::NPos, StandardSet::NPos)
        | (StandardSet::NPos, StandardSet::N)
        | (StandardSet::NPos, StandardSet::Z)
        | (StandardSet::NPos, StandardSet::Q)
        | (StandardSet::NPos, StandardSet::R)
        | (StandardSet::NPos, StandardSet::QPos)
        | (StandardSet::NPos, StandardSet::RPos)
        | (StandardSet::NPos, StandardSet::ZNz)
        | (StandardSet::NPos, StandardSet::QNz)
        | (StandardSet::NPos, StandardSet::RNz)
        | (StandardSet::N, StandardSet::N)
        | (StandardSet::N, StandardSet::Z)
        | (StandardSet::N, StandardSet::Q)
        | (StandardSet::N, StandardSet::R)
        | (StandardSet::ZNeg, StandardSet::ZNeg)
        | (StandardSet::ZNeg, StandardSet::Z)
        | (StandardSet::ZNeg, StandardSet::Q)
        | (StandardSet::ZNeg, StandardSet::R)
        | (StandardSet::ZNeg, StandardSet::QNeg)
        | (StandardSet::ZNeg, StandardSet::RNeg)
        | (StandardSet::ZNeg, StandardSet::ZNz)
        | (StandardSet::ZNeg, StandardSet::QNz)
        | (StandardSet::ZNeg, StandardSet::RNz)
        | (StandardSet::ZNz, StandardSet::ZNz)
        | (StandardSet::ZNz, StandardSet::Z)
        | (StandardSet::ZNz, StandardSet::Q)
        | (StandardSet::ZNz, StandardSet::R)
        | (StandardSet::ZNz, StandardSet::QNz)
        | (StandardSet::ZNz, StandardSet::RNz)
        | (StandardSet::Z, StandardSet::Z)
        | (StandardSet::Z, StandardSet::Q)
        | (StandardSet::Z, StandardSet::R)
        | (StandardSet::QPos, StandardSet::QPos)
        | (StandardSet::QPos, StandardSet::Q)
        | (StandardSet::QPos, StandardSet::R)
        | (StandardSet::QPos, StandardSet::RPos)
        | (StandardSet::QPos, StandardSet::QNz)
        | (StandardSet::QPos, StandardSet::RNz)
        | (StandardSet::QNeg, StandardSet::QNeg)
        | (StandardSet::QNeg, StandardSet::Q)
        | (StandardSet::QNeg, StandardSet::R)
        | (StandardSet::QNeg, StandardSet::RNeg)
        | (StandardSet::QNeg, StandardSet::QNz)
        | (StandardSet::QNeg, StandardSet::RNz)
        | (StandardSet::QNz, StandardSet::QNz)
        | (StandardSet::QNz, StandardSet::Q)
        | (StandardSet::QNz, StandardSet::R)
        | (StandardSet::QNz, StandardSet::RNz)
        | (StandardSet::Q, StandardSet::Q)
        | (StandardSet::Q, StandardSet::R)
        | (StandardSet::RPos, StandardSet::RPos)
        | (StandardSet::RPos, StandardSet::R)
        | (StandardSet::RPos, StandardSet::RNz)
        | (StandardSet::RNeg, StandardSet::RNeg)
        | (StandardSet::RNeg, StandardSet::R)
        | (StandardSet::RNeg, StandardSet::RNz)
        | (StandardSet::RNz, StandardSet::RNz)
        | (StandardSet::RNz, StandardSet::R)
        | (StandardSet::R, StandardSet::R) => true,
        _ => false,
    };
    proof {
        lemma_standard_set_subset_table(*subset, *superset);
    }
    r
}

/// The witnesses that separate standard sets.
proof fn lemma_standard_set_subset_table(a: StandardSet, b: StandardSet)
    ensures
        standard_set_subset(a, b) == standard_set_subset_by_table(a, b),
{
    if !standard_set_subset_by_table(a, b) {
        assert(
            (standard_set_holds(a, NumberKind::Integer, NumberSign::Positive) && !standard_set_holds(b, NumberKind::Integer, NumberSign::Positive))
            || (standard_set_holds(a, NumberKind::Integer, NumberSign::Zero) && !standard_set_holds(b, NumberKind::Integer, NumberSign::Zero))
            || (standard_set_holds(a, NumberKind::Integer, NumberSign::Negative) && !standard_set_holds(b, NumberKind::Integer, NumberSign::Negative))
            || (standard_set_holds(a, NumberKind::Fraction, NumberSign::Positive) && !standard_set_holds(b, NumberKind::Fraction, NumberSign::Positive))
            || (standard_set_holds(a, NumberKind::Fraction, NumberSign::Negative) && !standard_set_holds(b, NumberKind::Fraction, NumberSign::Negative))
            || (standard_set_holds(a, NumberKind::Irrational, NumberSign::Positive) && !standard_set_holds(b, NumberKind::Irrational, NumberSign::Positive))
            || (standard_set_holds(a, NumberKind::Irrational, NumberSign::Negative) && !standard_set_holds(b, NumberKind::Irrational, NumberSign::Negative))
        );
    } else {
        assert forall|kind: NumberKind, sign: NumberSign|
            is_number_class(kind, sign) && #[trigger] standard_set_holds(a, kind, sign)
                implies standard_set_holds(b, kind, sign) by {}
    }
}

/// The inclusion table as a spec, used only to connect the table to
/// [`standard_set_subset`].
spec fn standard_set_subset_by_table(a: StandardSet, b: StandardSet) -> bool {
    match (a, b) {
        (StandardSet::NPos, StandardSet::NPos)
        | (StandardSet::NPos, StandardSet::N)
        | (StandardSet::NPos, StandardSet::Z)
        | (StandardSet::NPos, StandardSet::Q)
        | (StandardSet::NPos, StandardSet::R)
        | (StandardSet::NPos, StandardSet::QPos)
        | (StandardSet::NPos, StandardSet::RPos)
        | (StandardSet::NPos, StandardSet::ZNz)
        | (StandardSet::NPos, StandardSet::QNz)
        | (StandardSet::NPos, StandardSet::RNz)
        | (StandardSet::N, StandardSet::N)
        | (StandardSet::N, StandardSet::Z)
        | (StandardSet::N, StandardSet::Q)
        | (StandardSet::N, StandardSet::R)
        | (StandardSet::ZNeg, StandardSet::ZNeg)
        | (StandardSet::ZNeg, StandardSet::Z)
        | (StandardSet::ZNeg, StandardSet::Q)
        | (StandardSet::ZNeg, StandardSet::R)
        | (StandardSet::ZNeg, StandardSet::QNeg)
        | (StandardSet::ZNeg, StandardSet::RNeg)
        | (StandardSet::ZNeg, StandardSet::ZNz)
        | (StandardSet::ZNeg, StandardSet::QNz)
        | (StandardSet::ZNeg, StandardSet::RNz)
        | (StandardSet::ZNz, StandardSet::ZNz)
        | (StandardSet::ZNz, StandardSet::Z)
        | (StandardSet::ZNz, StandardSet::Q)
        | (StandardSet::ZNz, StandardSet::R)
        | (StandardSet::ZNz, StandardSet::QNz)
        | (StandardSet::ZNz, StandardSet::RNz)
        | (StandardSet::Z, StandardSet::Z)
        | (StandardSet::Z, StandardSet::Q)
        | (StandardSet::Z, StandardSet::R)
        | (StandardSet::QPos, StandardSet::QPos)
        | (StandardSet::QPos, StandardSet::Q)
        | (StandardSet::QPos, StandardSet::R)
        | (StandardSet::QPos, StandardSet::RPos)
        | (StandardSet::QPos, StandardSet::QNz)
        | (StandardSet::QPos, StandardSet::RNz)
        | (StandardSet::QNeg, StandardSet::QNeg)
        | (StandardSet::QNeg, StandardSet::Q)
        | (StandardSet::QNeg, StandardSet::R)
        | (StandardSet::QNeg, StandardSet::RNeg)
        | (StandardSet::QNeg, StandardSet::QNz)
        | (StandardSet::QNeg, StandardSet::RNz)
        | (StandardSet::QNz, StandardSet::QNz)
        | (StandardSet::QNz, StandardSet::Q)
        | (StandardSet::QNz, StandardSet::R)
        | (StandardSet::QNz, StandardSet::RNz)
        | (StandardSet::Q, StandardSet::Q)
        | (StandardSet::Q, StandardSet::R)
        | (StandardSet::RPos, StandardSet::RPos)
        | (StandardSet::RPos, StandardSet::R)
        | (StandardSet::RPos, StandardSet::RNz)
        | (StandardSet::RNeg, StandardSet::RNeg)
        | (StandardSet::RNeg, StandardSet::R)
        | (StandardSet::RNeg, StandardSet::RNz)
        | (StandardSet::RNz, StandardSet::RNz)
        | (StandardSet::RNz, StandardSet::R)
        | (StandardSet::R, StandardSet::R) => true,
        _ => false,
    }
}

/// Inclusion of standard sets is reflexive and transitive.
pub proof fn law_standard_set_subset_preorder(a: StandardSet, b: StandardSet, c: StandardSet)
    ensures
        standard_set_subset(a, a),
        standard_set_subset(a, b) && standard_set_subset(b, c) ==> standard_set_subset(a, c),
{
    if standard_set_subset(a, b) && standard_set_subset(b, c) {
        assert forall|kind: NumberKind, sign: NumberSign|
            is_number_class(kind, sign) && #[trigger] standard_set_holds(a, kind, sign)
                implies standard_set_holds(c, kind, sign) by {
            assert(standard_set_holds(b, kind, sign));
        }
    }
}

/// Two different standard sets never include each other.
pub proof fn law_standard_set_subset_antisymmetric(a: StandardSet, b: StandardSet)
    requires
        standard_set_subset(a, b),
        standard_set_subset(b, a),
    ensures
        a == b,
{
    lemma_standard_set_subset_table(a, b);
    lemma_standard_set_subset_table(b, a);
}

} // verus!
