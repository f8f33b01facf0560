//! Facts built from atomic facts: conjunctions, and chains such as
//! `a < b <= c` that stand for the facts between consecutive objects.
use vstd::prelude::*;
use crate::obj::{Obj, ObjV, view_list, lemma_view_list};
use crate::fact::{AtomicFact, AtomicFactV, fact_args};
use crate::order_normalize::normalized_order;
use crate::runtime::{Runtime, StmtResult, VerifiedBy, RuntimeError, VerifyState};
use crate::known_forall_profile::KnownForallProfile;
use crate::full_check::{profile_kept, atomic_fact_result};

verus! {

/// The relation between two consecutive objects of a chain.
#[derive(PartialEq, Eq, Structural, Debug, Clone, Copy)]
pub enum ChainRelation {
    Equal,
    NotEqual,
    Less,
    LessEqual,
    Greater,
    GreaterEqual,
    In,
    Subset,
    Superset,
}

/// A chain `o0 r0 o1 r1 o2 ...`: one relation between each two consecutive objects.
#[derive(Debug)]
pub struct ChainFact {
    pub objs: Vec<Obj>,
    pub relations: Vec<ChainRelation>,
}

/// A conjunction of atomic facts.
#[derive(Debug)]
pub struct AndFact {
    pub facts: Vec<AtomicFact>,
}

/// The fact `a rel b`.
pub open spec fn relation_fact(rel: ChainRelation, a: ObjV, b: ObjV) -> AtomicFactV {
    match rel {
        ChainRelation::Equal => AtomicFactV::EqualFact(a, b),
        ChainRelation::NotEqual => AtomicFactV::NotEqualFact(a, b),
        ChainRelation::Less => AtomicFactV::LessFact(a, b),
        ChainRelation::LessEqual => AtomicFactV::LessEqualFact(a, b),
        ChainRelation::Greater => AtomicFactV::GreaterFact(a, b),
        ChainRelation::GreaterEqual => AtomicFactV::GreaterEqualFact(a, b),
        ChainRelation::In => AtomicFactV::InFact(a, b),
        ChainRelation::Subset => AtomicFactV::SubsetFact(a, b),
        ChainRelation::Superset => AtomicFactV::SupersetFact(a, b),
    }
}

/// The facts a chain stands for, or `None` when the number of relations is
/// not one less than the number of objects.
pub open spec fn chain_steps(objs: Seq<ObjV>, rels: Seq<ChainRelation>) -> Option<Seq<AtomicFactV>> {
    if objs.len() == rels.len() + 1 {
        Some(Seq::new(rels.len(), |i: int| relation_fact(rels[i], objs[i], objs[i + 1])))
    } else {
        None
    }
}

/// Every fact holds by the full check.
pub open spec fn all_facts_hold(rt: &Runtime, facts: Seq<AtomicFactV>, d: nat) -> bool {
    forall|i: int| 0 <= i < facts.len() ==> #[trigger] atomic_fact_result(rt, facts[i], d).spec_is_true()
}

/// Success when every part holds.
pub open spec fn each_part_result(holds: bool) -> StmtResult {
    if holds {
        StmtResult::FactualStmtSuccess(VerifiedBy::EachPart)
    } else {
        StmtResult::StmtUnknown
    }
}

/// The fact `a rel b`.
pub fn relation_atomic_fact(rel: ChainRelation, a: Obj, b: Obj) -> (r: AtomicFact)
    ensures
        r@ == relation_fact(rel, a@, b@),
{
    match rel {
        ChainRelation::Equal => AtomicFact::EqualFact(a, b),
        ChainRelation::NotEqual => AtomicFact::NotEqualFact(a, b),
        ChainRelation::Less => AtomicFact::LessFact(a, b),
        ChainRelation::LessEqual => AtomicFact::LessEqualFact(a, b),
        ChainRelation::Greater => AtomicFact::GreaterFact(a, b),
        ChainRelation::GreaterEqual => AtomicFact::GreaterEqualFact(a, b),
        ChainRelation::In => AtomicFact::InFact(a, b),
        ChainRelation::Subset => AtomicFact::SubsetFact(a, b),
        ChainRelation::Superset => AtomicFact::SupersetFact(a, b),
    }
}

impl ChainFact {
    /// The facts between consecutive objects, or an error when the relations
    /// do not fit the objects.
    pub fn facts(&self) -> (r: Result<Vec<AtomicFact>, RuntimeError>)
        ensures
            chain_steps(view_list(self.objs@), self.relations@) matches Some(steps) ==> (r matches Ok(v)
                && v@.map_values(|f: AtomicFact| f@) == steps),
            chain_steps(view_list(self.objs@), self.relations@) is None ==> r == Err::<Vec<AtomicFact>, RuntimeError>(RuntimeError::MalformedChain),
    {
        proof {
            lemma_view_list(self.objs@);
        }
        if self.objs.len() == 0 || self.objs.len() - 1 != self.relations.len() {
            return Err(RuntimeError::MalformedChain);
        }
        let ghost ov = view_list(self.objs@);
        let mut out: Vec<AtomicFact> = Vec::new();
        let mut i: usize = 0;
        while i < self.relations.len()
            invariant
                i <= self.relations.len(),
                self.objs@.len() == self.relations@.len() + 1,
                ov == view_list(self.objs@),
                ov.len() == self.objs@.len(),
                forall|k: int| 0 <= k < self.objs@.len() ==> #[trigger] ov[k] == self.objs@[k]@,
                out@.len() == i,
                forall|k: int| 0 <= k < i ==> #[trigger] out@[k]@ == relation_fact(self.relations@[k], ov[k], ov[k + 1]),
            decreases self.relations.len() - i,
        {
            let f = relation_atomic_fact(self.relations[i], self.objs[i].duplicate(), self.objs[i + 1].duplicate());
            out.push(f);
            i = i + 1;
        }
        proof {
            let steps = Seq::new(self.relations@.len(), |k: int| relation_fact(self.relations@[k], ov[k], ov[k + 1]));
            assert(out@.map_values(|f: AtomicFact| f@) =~= steps);
        }
        Ok(out)
    }
}

impl Runtime {
    /// Check each fact in order and give the index of the first that does not
    /// hold, or `None` when every fact holds.
    pub fn first_unverified_fact(
        &self,
        profile: &mut KnownForallProfile,
        facts: &Vec<AtomicFact>,
        verify_state: &VerifyState,
    ) -> (r: Result<Option<usize>, RuntimeError>)
        ensures
            r matches Ok(Some(i)) ==> i < facts@.len()
                && !atomic_fact_result(self, facts@[i as int]@, verify_state.subgoal_depth as nat).spec_is_true()
                && forall|k: int| 0 <= k < i ==> #[trigger] atomic_fact_result(self, facts@[k]@, verify_state.subgoal_depth as nat).spec_is_true(),
            r is Ok,
            (r == Ok::<Option<usize>, RuntimeError>(None)) == all_facts_hold(self, facts@.map_values(|f: AtomicFact| f@), verify_state.subgoal_depth as nat),
            profile_kept(*old(profile), *final(profile)),
    {
        let ghost fv = facts@.map_values(|f: AtomicFact| f@);
        let mut i: usize = 0;
        while i < facts.len()
            invariant
                i <= facts.len(),
                fv == facts@.map_values(|f: AtomicFact| f@),
                profile_kept(*old(profile), *profile),
                forall|k: int| 0 <= k < i ==> #[trigger] atomic_fact_result(self, fv[k], verify_state.subgoal_depth as nat).spec_is_true(),
            decreases facts.len() - i,
        {
            let result = match self.verify_atomic_fact(profile, &facts[i], verify_state) {
                Ok(r) => r,
                Err(e) => return Err(e),
            };
            if result.is_unknown() {
                assert(fv[i as int] == facts@[i as int]@);
                assert forall|k: int| 0 <= k < i implies #[trigger] atomic_fact_result(self, facts@[k]@, verify_state.subgoal_depth as nat).spec_is_true() by {
                    assert(fv[k] == facts@[k]@);
                }
                return Ok(Some(i));
            }
            i = i + 1;
        }
        Ok(None)
    }

    /// The result of each fact, checked in order up to and including the
    /// first that does not hold.
    pub fn part_results(
        &self,
        profile: &mut KnownForallProfile,
        facts: &Vec<AtomicFact>,
        verify_state: &VerifyState,
    ) -> (r: Result<Vec<StmtResult>, RuntimeError>)
        ensures
            r matches Ok(v) ==> {
                &&& v@.len() <= facts@.len()
                &&& forall|k: int| 0 <= k < v@.len() ==> #[trigger] v@[k] == atomic_fact_result(self, facts@[k]@, verify_state.subgoal_depth as nat)
                &&& forall|k: int| 0 <= k && k + 1 < v@.len() ==> #[trigger] v@[k].spec_is_true()
                &&& v@.len() < facts@.len() ==> v@.len() > 0 && !v@[v@.len() - 1].spec_is_true()
            },
            r is Ok,
            profile_kept(*old(profile), *final(profile)),
    {
        let mut out: Vec<StmtResult> = Vec::new();
        let mut i: usize = 0;
        while i < facts.len()
            invariant
                i <= facts.len(),
                out@.len() == i,
                profile_kept(*old(profile), *profile),
                forall|k: int| 0 <= k < i ==> #[trigger] out@[k] == atomic_fact_result(self, facts@[k]@, verify_state.subgoal_depth as nat),
                forall|k: int| 0 <= k < i ==> #[trigger] out@[k].spec_is_true(),
            decreases facts.len() - i,
        {
            let result = match self.verify_atomic_fact(profile, &facts[i], verify_state) {
                Ok(r) => r,
                Err(e) => return Err(e),
            };
            let unknown = result.is_unknown();
            out.push(result);
            if unknown {
                return Ok(out);
            }
            i = i + 1;
        }
        Ok(out)
    }

    /// Check each fact in order, stopping at the first that does not hold.
    pub fn verify_facts_in_order(
        &self,
        profile: &mut KnownForallProfile,
        facts: &Vec<AtomicFact>,
        verify_state: &VerifyState,
    ) -> (r: Result<bool, RuntimeError>)
        ensures
            r == Ok::<bool, RuntimeError>(all_facts_hold(self, facts@.map_values(|f: AtomicFact| f@), verify_state.subgoal_depth as nat)),
            profile_kept(*old(profile), *final(profile)),
    {
        match self.first_unverified_fact(profile, facts, verify_state) {
            Ok(None) => Ok(true),
            Ok(Some(_)) => Ok(false),
            Err(e) => Err(e),
        }
    }

    /// A conjunction holds when each conjunct holds, checked in order.
    pub fn verify_and_fact(
        &self,
        profile: &mut KnownForallProfile,
        and_fact: &AndFact,
        verify_state: &VerifyState,
    ) -> (r: Result<StmtResult, RuntimeError>)
        ensures
            r == Ok::<StmtResult, RuntimeError>(each_part_result(all_facts_hold(
                self,
                and_fact.facts@.map_values(|f: AtomicFact| f@),
                verify_state.subgoal_depth as nat,
            ))),
            profile_kept(*old(profile), *final(profile)),
    {
        match self.verify_facts_in_order(profile, &and_fact.facts, verify_state) {
            Ok(true) => Ok(StmtResult::FactualStmtSuccess(VerifiedBy::EachPart)),
            Ok(false) => Ok(StmtResult::StmtUnknown),
            Err(e) => Err(e),
        }
    }

    /// A chain holds when each step holds, checked in order; a chain whose
    /// relations do not fit its objects is an error.
    pub fn verify_chain_fact(
        &self,
        profile: &mut KnownForallProfile,
        chain_fact: &ChainFact,
        verify_state: &VerifyState,
    ) -> (r: Result<StmtResult, RuntimeError>)
        ensures
            r == match chain_steps(view_list(chain_fact.objs@), chain_fact.relations@) {
                Some(steps) => Ok::<StmtResult, RuntimeError>(each_part_result(all_facts_hold(self, steps, verify_state.subgoal_depth as nat))),
                None => Err(RuntimeError::MalformedChain),
            },
            profile_kept(*old(profile), *final(profile)),
    {
        let facts = match chain_fact.facts() {
            Ok(f) => f,
            Err(e) => return Err(e),
        };
        match self.verify_facts_in_order(profile, &facts, verify_state) {
            Ok(true) => Ok(StmtResult::FactualStmtSuccess(VerifiedBy::EachPart)),
            Ok(false) => Ok(StmtResult::StmtUnknown),
            Err(e) => Err(e),
        }
    }

    /// The first step of a chain that does not hold (`None` when every step
    /// holds); a chain whose relations do not fit its objects is an error.
    pub fn unverified_chain_step(
        &self,
        profile: &mut KnownForallProfile,
        chain_fact: &ChainFact,
        verify_state: &VerifyState,
    ) -> (r: Result<Option<AtomicFact>, RuntimeError>)
        ensures
            chain_steps(view_list(chain_fact.objs@), chain_fact.relations@) is None ==> r == Err::<Option<AtomicFact>, RuntimeError>(RuntimeError::MalformedChain),
            chain_steps(view_list(chain_fact.objs@), chain_fact.relations@) matches Some(steps) ==> {
                &&& r is Ok
                &&& (r == Ok::<Option<AtomicFact>, RuntimeError>(None)) == all_facts_hold(self, steps, verify_state.subgoal_depth as nat)
                &&& r matches Ok(Some(f)) ==> exists|i: int| 0 <= i < steps.len() && f@ == steps[i]
                    && !atomic_fact_result(self, steps[i], verify_state.subgoal_depth as nat).spec_is_true()
                    && forall|k: int| 0 <= k < i ==> #[trigger] atomic_fact_result(self, steps[k], verify_state.subgoal_depth as nat).spec_is_true()
            },
            profile_kept(*old(profile), *final(profile)),
    {
        let facts = match chain_fact.facts() {
            Ok(f) => f,
            Err(e) => return Err(e),
        };
        let ghost fv = facts@.map_values(|f: AtomicFact| f@);
        match self.first_unverified_fact(profile, &facts, verify_state) {
            Ok(Some(i)) => {
                let step = facts[i].duplicate();
                proof {
                    assert(fv[i as int] == facts@[i as int]@);
                    assert forall|k: int| 0 <= k < i implies #[trigger] atomic_fact_result(self, fv[k], verify_state.subgoal_depth as nat).spec_is_true() by {
                        assert(fv[k] == facts@[k]@);
                    }
                }
                Ok(Some(step))
            },
            Ok(None) => Ok(None),
            Err(e) => Err(e),
        }
    }

    /// The result of each conjunct, checked in order up to and including the
    /// first that does not hold.
    pub fn and_fact_part_results(
        &self,
        profile: &mut KnownForallProfile,
        and_fact: &AndFact,
        verify_state: &VerifyState,
    ) -> (r: Result<Vec<StmtResult>, RuntimeError>)
        ensures
            r matches Ok(v) ==> {
                &&& v@.len() <= and_fact.facts@.len()
                &&& forall|k: int| 0 <= k < v@.len() ==> #[trigger] v@[k] == atomic_fact_result(self, and_fact.facts@[k]@, verify_state.subgoal_depth as nat)
                &&& forall|k: int| 0 <= k && k + 1 < v@.len() ==> #[trigger] v@[k].spec_is_true()
                &&& v@.len() < and_fact.facts@.len() ==> v@.len() > 0 && !v@[v@.len() - 1].spec_is_true()
            },
            r is Ok,
            profile_kept(*old(profile), *final(profile)),
    {
        self.part_results(profile, &and_fact.facts, verify_state)
    }

    /// The result of each step of a chain, checked in order up to and
    /// including the first that does not hold; a chain whose relations do not
    /// fit its objects is an error.
    pub fn chain_fact_part_results(
        &self,
        profile: &mut KnownForallProfile,
        chain_fact: &ChainFact,
        verify_state: &VerifyState,
    ) -> (r: Result<Vec<StmtResult>, RuntimeError>)
        ensures
            chain_steps(view_list(chain_fact.objs@), chain_fact.relations@) is None ==> r == Err::<Vec<StmtResult>, RuntimeError>(RuntimeError::MalformedChain),
            chain_steps(view_list(chain_fact.objs@), chain_fact.relations@) matches Some(steps) ==> (r matches Ok(v) && {
                &&& v@.len() <= steps.len()
                &&& forall|k: int| 0 <= k < v@.len() ==> #[trigger] v@[k] == atomic_fact_result(self, steps[k], verify_state.subgoal_depth as nat)
                &&& forall|k: int| 0 <= k && k + 1 < v@.len() ==> #[trigger] v@[k].spec_is_true()
                &&& v@.len() < steps.len() ==> v@.len() > 0 && !v@[v@.len() - 1].spec_is_true()
            }),
            profile_kept(*old(profile), *final(profile)),
    {
        let facts = match chain_fact.facts() {
            Ok(f) => f,
            Err(e) => return Err(e),
        };
        let ghost fv = facts@.map_values(|f: AtomicFact| f@);
        let v = match self.part_results(profile, &facts, verify_state) {
            Ok(v) => v,
            Err(e) => return Err(e),
        };
        proof {
            assert forall|k: int| 0 <= k < v@.len() implies #[trigger] v@[k] == atomic_fact_result(self, fv[k], verify_state.subgoal_depth as nat) by {
                assert(fv[k] == facts@[k]@);
            }
        }
        Ok(v)
    }
}

/// The step `x rel y` of a chain is a fact about `x` and `y` in that order,
/// whatever the relation.
pub proof fn law_chain_step_arguments_in_order(rel: ChainRelation, x: ObjV, y: ObjV)
    ensures
        fact_args(relation_fact(rel, x, y)) == seq![x, y],
{
}

/// The order steps of a chain mean what they say: `x < y` and `x <= y` as
/// written, `x > y` as `y < x`, and `x >= y` as `y <= x`.
pub proof fn law_chain_order_steps(x: ObjV, y: ObjV)
    ensures
        normalized_order(relation_fact(ChainRelation::Less, x, y)) == Some(AtomicFactV::LessFact(x, y)),
        normalized_order(relation_fact(ChainRelation::LessEqual, x, y)) == Some(AtomicFactV::LessEqualFact(x, y)),
        normalized_order(relation_fact(ChainRelation::Greater, x, y)) == Some(AtomicFactV::LessFact(y, x)),
        normalized_order(relation_fact(ChainRelation::GreaterEqual, x, y)) == Some(AtomicFactV::LessEqualFact(y, x)),
{
}

/// Each step of a well-formed chain relates two consecutive objects, the
/// earlier one first.
pub proof fn law_chain_steps_connect_neighbours(objs: Seq<ObjV>, rels: Seq<ChainRelation>)
    ensures
        chain_steps(objs, rels) matches Some(steps) ==> steps.len() == rels.len() && forall|i: int|
            0 <= i < steps.len() ==> fact_args(#[trigger] steps[i]) == seq![objs[i], objs[i + 1]],
{
    if let Some(steps) = chain_steps(objs, rels) {
        assert forall|i: int| 0 <= i < steps.len() implies fact_args(#[trigger] steps[i]) == seq![objs[i], objs[i + 1]] by {
            law_chain_step_arguments_in_order(rels[i], objs[i], objs[i + 1]);
        }
    }
}

/// A two-object chain `x rel y` stands for the single fact `x rel y`; a chain
/// whose relations do not fit its objects stands for nothing.
pub proof fn law_chain_of_two_objects(rel: ChainRelation, x: ObjV, y: ObjV)
    ensures
        chain_steps(seq![x, y], seq![rel]) == Some(seq![relation_fact(rel, x, y)]),
        chain_steps(seq![x, y], Seq::<ChainRelation>::empty()) is None,
        chain_steps(seq![x], seq![rel]) is None,
{
    let steps = chain_steps(seq![x, y], seq![rel]).unwrap();
    assert(steps =~= seq![relation_fact(rel, x, y)]);
}

/// A conjunction holds exactly when each of its parts does: the empty
/// conjunction holds, a single fact holds as a conjunction exactly when it
/// holds, and joining two conjunctions gives one that holds exactly when both
/// do.
pub proof fn law_conjunction_of_parts(rt: &Runtime, f: AtomicFactV, p: Seq<AtomicFactV>, q: Seq<AtomicFactV>, d: nat)
    ensures
        all_facts_hold(rt, Seq::<AtomicFactV>::empty(), d),
        all_facts_hold(rt, seq![f], d) <==> atomic_fact_result(rt, f, d).spec_is_true(),
        all_facts_hold(rt, p + q, d) <==> all_facts_hold(rt, p, d) && all_facts_hold(rt, q, d),
{
    assert(seq![f][0] == f);
    if all_facts_hold(rt, p, d) && all_facts_hold(rt, q, d) {
        assert forall|i: int| 0 <= i < (p + q).len() implies #[trigger] atomic_fact_result(rt, (p + q)[i], d).spec_is_true() by {
            if i < p.len() {
                assert((p + q)[i] == p[i]);
            } else {
                assert((p + q)[i] == q[i - p.len()]);
            }
        }
    }
    if all_facts_hold(rt, p + q, d) {
        assert forall|i: int| 0 <= i < p.len() implies #[trigger] atomic_fact_result(rt, p[i], d).spec_is_true() by {
            assert((p + q)[i] == p[i]);
        }
        assert forall|i: int| 0 <= i < q.len() implies #[trigger] atomic_fact_result(rt, q[i], d).spec_is_true() by {
            assert((p + q)[i + p.len()] == q[i]);
        }
    }
}

} // verus!
