//! Literal equality of objects: the same object, written the same way, with
//! names qualified by modules that are imported from the same file.
use vstd::prelude::*;
use crate::obj::{Obj, ObjV, objs_equal};
use crate::runtime::{Runtime, ImportedModule};

verus! {

broadcast use vstd::string::group_string_axioms;

/// The path of the first module imported under `name`.
pub open spec fn imported_path_in(ms: Seq<ImportedModule>, name: Seq<char>) -> Option<Seq<char>>
    decreases ms.len(),
{
    if ms.len() == 0 {
        None
    } else if ms[0].name@ == name {
        Some(ms[0].absolute_path@)
    } else {
        imported_path_in(ms.drop_first(), name)
    }
}

/// The path of the module imported under `name`, if there is one.
pub open spec fn imported_path(rt: &Runtime, name: Seq<char>) -> Option<Seq<char>> {
    imported_path_in(rt.imported_modules@, name)
}

/// Two objects are literally equal: they are the same object, except that
/// names qualified by different module names are equal when both modules
/// are imported from the same path and the names agree.
pub open spec fn equal_literally_spec(rt: &Runtime, left: ObjV, right: ObjV) -> bool {
    match left {
        ObjV::IdentifierWithMod(m1, n1) => match right {
            ObjV::IdentifierWithMod(m2, n2) => if m1 == m2 {
                n1 == n2
            } else {
                match (imported_path(rt, m1), imported_path(rt, m2)) {
                    (Some(p1), Some(p2)) => p1 == p2 && n1 == n2,
                    _ => false,
                }
            },
            _ => false,
        },
        _ => left == right,
    }
}

impl Runtime {
    /// The path of the module imported under `name`.
    pub fn imported_module_absolute_path(&self, name: &String) -> (r: Option<&String>)
        ensures
            r matches Some(p) ==> imported_path(self, name@) == Some(p@),
            r is None <==> imported_path(self, name@) is None,
    {
        let ghost ms = self.imported_modules@;
        let mut i: usize = 0;
        proof {
            assert(ms.skip(0) =~= ms);
        }
        while i < self.imported_modules.len()
            invariant
                i <= self.imported_modules.len(),
                ms == self.imported_modules@,
                imported_path_in(ms, name@) == imported_path_in(ms.skip(i as int), name@),
            decreases self.imported_modules.len() - i,
        {
            let m = &self.imported_modules[i];
            if m.name.eq(name) {
                return Some(&m.absolute_path);
            }
            proof {
                assert(ms.skip(i as int).drop_first() =~= ms.skip(i + 1));
            }
            i = i + 1;
        }
        None
    }

    /// Whether two objects are literally equal.
    pub fn equal_literally(&self, left: &Obj, right: &Obj) -> (r: bool)
        ensures
            r == equal_literally_spec(self, left@, right@),
    {
        match (left, right) {
            (Obj::IdentifierWithMod(m1, n1), Obj::IdentifierWithMod(m2, n2)) => {
                if m1.eq(m2) {
                    n1.eq(n2)
                } else {
                    match (self.imported_module_absolute_path(m1), self.imported_module_absolute_path(m2)) {
                        (Some(p1), Some(p2)) => p1.eq(p2) && n1.eq(n2),
                        _ => false,
                    }
                }
            },
            (Obj::IdentifierWithMod(_, _), _) => false,
            _ => objs_equal(left, right),
        }
    }
}

/// Every object is literally equal to itself.
pub proof fn law_equal_literally_reflexive(rt: &Runtime, x: ObjV)
    ensures
        equal_literally_spec(rt, x, x),
{
}

/// Literal equality does not depend on the order of its sides.
pub proof fn law_equal_literally_symmetric(rt: &Runtime, a: ObjV, b: ObjV)
    ensures
        equal_literally_spec(rt, a, b) == equal_literally_spec(rt, b, a),
{
}

} // verus!
