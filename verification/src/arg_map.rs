//! Maps from parameter names to the objects they were matched with.
use vstd::prelude::*;
use crate::obj::{Obj, ObjV, objs_equal};
use crate::decimal::{NumberCompareResult, decimal_compare, compare_number_strings};

verus! {

/// The abstract value of an argument map.
pub type ArgMapV = Map<Seq<char>, ObjV>;

/// The map denoted by a list of entries, later entries winning.
pub open spec fn map_of(s: Seq<(Seq<char>, ObjV)>) -> ArgMapV
    decreases s.len(),
{
    if s.len() == 0 {
        Map::empty()
    } else {
        map_of(s.drop_last()).insert(s.last().0, s.last().1)
    }
}

/// No key occurs twice.
pub open spec fn keys_unique(s: Seq<(Seq<char>, ObjV)>) -> bool {
    forall|i: int, j: int| 0 <= i < j < s.len() ==> #[trigger] s[i].0 != #[trigger] s[j].0
}

/// Both objects are number literals with the same value.
pub open spec fn calc_equal(a: ObjV, b: ObjV) -> bool {
    match (a, b) {
        (ObjV::Number(x), ObjV::Number(y)) => decimal_compare(x, y) == NumberCompareResult::Equal,
        _ => false,
    }
}

/// Two bindings of one parameter agree: the same object, or numbers of equal value.
pub open spec fn values_agree(a: ObjV, b: ObjV) -> bool {
    a == b || calc_equal(a, b)
}

/// Every parameter bound in both maps is bound to agreeing objects.
pub open spec fn maps_compatible(m1: ArgMapV, m2: ArgMapV) -> bool {
    forall|k: Seq<char>|
        #![trigger m1.contains_key(k), m2.contains_key(k)]
        m1.contains_key(k) && m2.contains_key(k) ==> values_agree(m1[k], m2[k])
}

/// The merge of two optional matches: `None` when either is missing or
/// they disagree, else their union with the second map's bindings winning.
pub open spec fn merge_maps(m1: Option<ArgMapV>, m2: Option<ArgMapV>) -> Option<ArgMapV> {
    match (m1, m2) {
        (Some(a), Some(b)) => if maps_compatible(a, b) {
            Some(a.union_prefer_right(b))
        } else {
            None
        },
        _ => None,
    }
}

pub proof fn lemma_map_of_keys(s: Seq<(Seq<char>, ObjV)>)
    requires
        keys_unique(s),
    ensures
        forall|k: Seq<char>|
            #![trigger map_of(s).contains_key(k)]
            map_of(s).contains_key(k) <==> exists|i: int| 0 <= i < s.len() && #[trigger] s[i].0 == k,
        forall|i: int| 0 <= i < s.len() ==> map_of(s)[#[trigger] s[i].0] == s[i].1,
    decreases s.len(),
{
    if s.len() > 0 {
        let s1 = s.drop_last();
        assert(keys_unique(s1)) by {
            assert forall|i: int, j: int| 0 <= i < j < s1.len() implies #[trigger] s1[i].0
                != #[trigger] s1[j].0 by {
                assert(s1[i] == s[i] && s1[j] == s[j]);
            }
        }
        lemma_map_of_keys(s1);
        assert forall|k: Seq<char>| #![trigger map_of(s).contains_key(k)]
            map_of(s).contains_key(k) <==> exists|i: int| 0 <= i < s.len() && #[trigger] s[i].0 == k by {
            if map_of(s).contains_key(k) {
                if k == s.last().0 {
                    assert(s[s.len() - 1].0 == k);
                } else {
                    assert(map_of(s1).contains_key(k));
                    let i = choose|i: int| 0 <= i < s1.len() && #[trigger] s1[i].0 == k;
                    assert(s[i].0 == k);
                }
            }
            if exists|i: int| 0 <= i < s.len() && #[trigger] s[i].0 == k {
                let i = choose|i: int| 0 <= i < s.len() && #[trigger] s[i].0 == k;
                if i < s.len() - 1 {
                    assert(s1[i].0 == k);
                }
            }
        }
        assert forall|i: int| 0 <= i < s.len() implies map_of(s)[#[trigger] s[i].0] == s[i].1 by {
            if i < s.len() - 1 {
                assert(s1[i] == s[i]);
                assert(s[i].0 != s[s.len() - 1].0);
            }
        }
    }
}

/// Replacing the object bound to a key.
pub proof fn lemma_map_of_update(s: Seq<(Seq<char>, ObjV)>, i: int, v: ObjV)
    requires
        keys_unique(s),
        0 <= i < s.len(),
    ensures
        map_of(s.update(i, (s[i].0, v))) == map_of(s).insert(s[i].0, v),
        keys_unique(s.update(i, (s[i].0, v))),
    decreases s.len(),
{
    let t = s.update(i, (s[i].0, v));
    assert(keys_unique(t)) by {
        assert forall|a: int, b: int| 0 <= a < b < t.len() implies #[trigger] t[a].0
            != #[trigger] t[b].0 by {
            assert(t[a].0 == s[a].0 && t[b].0 == s[b].0);
        }
    }
    let s1 = s.drop_last();
    if i == s.len() - 1 {
        assert(t.drop_last() =~= s1);
        assert(map_of(t) =~= map_of(s).insert(s[i].0, v));
    } else {
        assert(keys_unique(s1)) by {
            assert forall|a: int, b: int| 0 <= a < b < s1.len() implies #[trigger] s1[a].0
                != #[trigger] s1[b].0 by {
                assert(s1[a] == s[a] && s1[b] == s[b]);
            }
        }
        lemma_map_of_update(s1, i, v);
        assert(t.drop_last() =~= s1.update(i, (s1[i].0, v)));
        assert(s[i].0 != s.last().0) by {
            assert(s.last() == s[s.len() - 1]);
        }
        assert(map_of(t) =~= map_of(s).insert(s[i].0, v));
    }
}

/// A binding of parameter names to objects.
#[derive(Debug)]
pub struct ArgMap {
    pub entries: Vec<(String, Obj)>,
}

impl ArgMap {
    pub open spec fn entries_v(&self) -> Seq<(Seq<char>, ObjV)> {
        Seq::new(self.entries@.len(), |i: int| (self.entries@[i].0@, self.entries@[i].1@))
    }

    /// No parameter is bound twice.
    pub open spec fn wf(&self) -> bool {
        keys_unique(self.entries_v())
    }

    /// The empty binding.
    pub fn new() -> (r: ArgMap)
        ensures
            r.wf(),
            r@ == Map::<Seq<char>, ObjV>::empty(),
    {
        let r = ArgMap { entries: Vec::new() };
        assert(r.entries_v() =~= Seq::<(Seq<char>, ObjV)>::empty());
        r
    }

    /// The binding of one parameter.
    pub fn single(key: String, value: Obj) -> (r: ArgMap)
        ensures
            r.wf(),
            r@ == Map::<Seq<char>, ObjV>::empty().insert(key@, value@),
    {
        let ghost kv = key@;
        let ghost vv = value@;
        let mut entries: Vec<(String, Obj)> = Vec::new();
        entries.push((key, value));
        let r = ArgMap { entries };
        assert(r.entries_v() =~= seq![(kv, vv)]);
        assert(r.entries_v().drop_last() =~= Seq::<(Seq<char>, ObjV)>::empty());
        assert(map_of(r.entries_v()) == map_of(r.entries_v().drop_last()).insert(kv, vv));
        assert(map_of(Seq::<(Seq<char>, ObjV)>::empty()) == Map::<Seq<char>, ObjV>::empty());
        r
    }

    /// Where `key` is bound, if it is.
    pub fn find(&self, key: &String) -> (r: Option<usize>)
        ensures
            r matches Some(i) ==> i < self.entries@.len() && self.entries_v()[i as int].0 == key@,
            r is None ==> forall|i: int|
                0 <= i < self.entries@.len() ==> #[trigger] self.entries_v()[i].0 != key@,
    {
        let mut i: usize = 0;
        while i < self.entries.len()
            invariant
                i <= self.entries@.len(),
                forall|j: int| 0 <= j < i ==> #[trigger] self.entries_v()[j].0 != key@,
            decreases self.entries@.len() - i,
        {
            if self.entries[i].0.eq(key) {
                return Some(i);
            }
            i = i + 1;
        }
        None
    }

    /// The object bound to `key`, if it is bound.
    pub fn get(&self, key: &String) -> (r: Option<&Obj>)
        requires
            self.wf(),
        ensures
            r matches Some(v) ==> self@.contains_key(key@) && self@[key@] == v@,
            r is None ==> !self@.contains_key(key@),
    {
        proof {
            lemma_map_of_keys(self.entries_v());
        }
        match self.find(key) {
            Some(i) => {
                assert(self.entries_v()[i as int].0 == key@);
                Some(&self.entries[i].1)
            },
            None => None,
        }
    }

    /// Bind `key` to `value`, replacing any earlier binding of `key`.
    pub fn insert(&mut self, key: String, value: Obj)
        requires
            old(self).wf(),
        ensures
            final(self).wf(),
            final(self)@ == old(self)@.insert(key@, value@),
    {
        let ghost s = self.entries_v();
        match self.find(&key) {
            Some(i) => {
                let ghost kv = key@;
                let ghost vv = value@;
                self.entries.set(i, (key, value));
                proof {
                    assert(self.entries_v() =~= s.update(i as int, (s[i as int].0, vv)));
                    lemma_map_of_update(s, i as int, vv);
                }
            },
            None => {
                let ghost kv = key@;
                let ghost vv = value@;
                self.entries.push((key, value));
                proof {
                    assert(self.entries_v() =~= s.push((kv, vv)));
                    assert(self.entries_v().drop_last() =~= s);
                }
            },
        }
    }
}

impl View for ArgMap {
    type V = ArgMapV;

    open spec fn view(&self) -> ArgMapV {
        map_of(self.entries_v())
    }
}

/// The abstract value of an optional argument map.
pub open spec fn opt_view(r: Option<ArgMap>) -> Option<ArgMapV> {
    match r {
        Some(m) => Some(m@),
        None => None,
    }
}

/// An optional argument map, when present, has no parameter bound twice.
pub open spec fn opt_wf(r: Option<ArgMap>) -> bool {
    r matches Some(m) ==> m.wf()
}

/// Whether two objects are number literals with equal values.
pub fn two_objs_can_be_calculated_and_equal_by_calculation(a: &Obj, b: &Obj) -> (r: bool)
    ensures
        r == calc_equal(a@, b@),
{
    match a {
        Obj::Number(x) => match b {
            Obj::Number(y) => {
                let c = compare_number_strings(x.as_str(), y.as_str());
                match c {
                    NumberCompareResult::Equal => true,
                    _ => false,
                }
            },
            _ => false,
        },
        _ => false,
    }
}

/// Merge `from` into `into`. Returns `false` when a parameter is already
/// bound to an object that does not agree with its binding in `from`.
pub fn merge_arg_match_map_into(into: &mut ArgMap, from: ArgMap) -> (r: bool)
    requires
        old(into).wf(),
        from.wf(),
    ensures
        r == maps_compatible(old(into)@, from@),
        r ==> final(into).wf() && final(into)@ == old(into)@.union_prefer_right(from@),
{
    let ghost fs = from.entries_v();
    let ghost init = into@;
    proof {
        lemma_map_of_keys(fs);
        lemma_map_of_keys(into.entries_v());
    }
    let mut i: usize = 0;
    while i < from.entries.len()
        invariant
            fs == from.entries_v(),
            init == old(into)@,
            keys_unique(fs),
            i <= fs.len(),
            into.wf(),
            into@ == init.union_prefer_right(map_of(fs.subrange(0, i as int))),
            forall|a: int| 0 <= a < i ==> #[trigger] init.contains_key(fs[a].0) ==> values_agree(
                init[fs[a].0],
                fs[a].1,
            ),
        decreases fs.len() - i,
    {
        let k = &from.entries[i].0;
        let v = &from.entries[i].1;
        proof {
            lemma_map_of_keys(fs);
            lemma_map_of_keys(fs.subrange(0, i as int));
            lemma_map_of_keys(into.entries_v());
            assert(!map_of(fs.subrange(0, i as int)).contains_key(k@)) by {
                if map_of(fs.subrange(0, i as int)).contains_key(k@) {
                    let j = choose|j: int| 0 <= j < i && #[trigger] fs.subrange(0, i as int)[j].0 == k@;
                    assert(fs[j].0 == fs[i as int].0);
                }
            }
        }
        match into.find(k) {
            Some(idx) => {
                let existing = &into.entries[idx].1;
                proof {
                    assert(into.entries_v()[idx as int].0 == k@);
                    assert(into.entries_v()[idx as int].1 == existing@);
                    assert(into@.contains_key(k@));
                    assert(into@[k@] == existing@);
                    assert(init.contains_key(k@) && init[k@] == existing@);
                }
                if !objs_equal(existing, v) && !two_objs_can_be_calculated_and_equal_by_calculation(existing, v) {
                    proof {
                        assert(fs[i as int].0 == k@ && fs[i as int].1 == v@);
                        assert(from@.contains_key(k@) && from@[k@] == v@);
                        assert(!values_agree(init[k@], from@[k@]));
                        assert(init.contains_key(k@) && from@.contains_key(k@));
                        assert(!maps_compatible(init, from@));
                    }
                    return false;
                }
            },
            None => {
                proof {
                    assert(!into@.contains_key(k@));
                }
            },
        }
        let ghost before = into@;
        into.insert(k.clone(), v.duplicate());
        proof {
            let p1 = fs.subrange(0, i + 1);
            assert(p1.drop_last() =~= fs.subrange(0, i as int));
            assert(into@ =~= init.union_prefer_right(map_of(p1)));
        }
        i = i + 1;
    }
    proof {
        assert(fs.subrange(0, fs.len() as int) =~= fs);
        assert forall|k: Seq<char>|
            #![trigger init.contains_key(k), from@.contains_key(k)]
            init.contains_key(k) && from@.contains_key(k) implies values_agree(init[k], from@[k]) by {
            let a = choose|a: int| 0 <= a < fs.len() && #[trigger] fs[a].0 == k;
        }
    }
    true
}

/// Merge two bindings into one, or `None` when they disagree.
pub fn merge_arg_match_maps(map1: ArgMap, map2: ArgMap) -> (r: Option<ArgMap>)
    requires
        map1.wf(),
        map2.wf(),
    ensures
        r matches Some(m) ==> m.wf(),
        opt_view(r) == merge_maps(Some(map1@), Some(map2@)),
{
    let mut map1 = map1;
    if !merge_arg_match_map_into(&mut map1, map2) {
        return None;
    }
    Some(map1)
}

} // verus!
