//! A loaded assembly: its native handle, its name and file name, and its
//! classes in discovery order.  Built once; never mutated afterwards.

use vstd::prelude::*;

verus! {

use crate::classes::class::{class_wf, ClassInner};
use crate::handle::Handle;
use crate::strutil::eq_str;

/// An assembly with its owned classes.
#[derive(Debug, Clone)]
pub struct Assembly {
    pub address: Handle,
    pub name: String,
    pub file: String,
    pub classes: Vec<ClassInner>,
}

/// Well-formedness of an assembly: every class is well formed.
pub open spec fn assembly_wf(a: Assembly) -> bool {
    forall|i: int| 0 <= i < a.classes@.len() ==> class_wf(#[trigger] a.classes@[i])
}

/// Whether a class of the assembly has the name.
pub open spec fn has_class_named(a: Assembly, name: Seq<char>) -> bool {
    exists|i: int| 0 <= i < a.classes@.len() && #[trigger] a.classes@[i].name@ == name
}

/// The first class with the given name, if any.
pub open spec fn class_first(s: Seq<ClassInner>, name: Seq<char>) -> Option<ClassInner>
    decreases s.len(),
{
    if s.len() == 0 {
        None
    } else if s[0].name@ == name {
        Some(s[0])
    } else {
        class_first(s.drop_first(), name)
    }
}

proof fn lemma_class_first_skip(s: Seq<ClassInner>, name: Seq<char>, i: int)
    requires
        0 <= i <= s.len(),
        forall|k: int| 0 <= k < i ==> s[k].name@ != name,
    ensures
        class_first(s, name) == class_first(s.skip(i), name),
    decreases i,
{
    if i > 0 {
        lemma_class_first_skip(s.drop_first(), name, i - 1);
        assert(s.drop_first().skip(i - 1) =~= s.skip(i));
    } else {
        assert(s.skip(0) =~= s);
    }
}

impl Assembly {
    /// An assembly from its identity and names, with no classes yet.
    pub fn new(address: Handle, name: String, file: String) -> (r: Assembly)
        ensures
            r.address == address,
            r.name == name,
            r.file == file,
            r.classes@.len() == 0,
    {
        Assembly { address, name, file, classes: Vec::new() }
    }

    /// The first class with exactly the given name, if any.
    pub fn get(&self, name: &str) -> (r: Option<&ClassInner>)
        ensures
            r is Some <==> has_class_named(*self, name@),
            r matches Some(c) ==> class_first(self.classes@, name@) == Some(*c),
            r is None ==> class_first(self.classes@, name@) is None,
            r matches Some(c) ==> exists|i: int| {
                &&& 0 <= i < self.classes@.len()
                &&& *c == self.classes@[i]
                &&& self.classes@[i].name@ == name@
                &&& forall|j: int| 0 <= j < i ==> #[trigger] self.classes@[j].name@ != name@
            },
    {
        let n = self.classes.len();
        let mut i: usize = 0;
        while i < n
            invariant
                i <= n,
                n == self.classes@.len(),
                forall|k: int| 0 <= k < i ==> #[trigger] self.classes@[k].name@ != name@,
            decreases n - i,
        {
            if eq_str(self.classes[i].name.as_str(), name) {
                proof {
                    lemma_class_first_skip(self.classes@, name@, i as int);
                    assert(self.classes@.skip(i as int)[0] == self.classes@[i as int]);
                }
                return Some(&self.classes[i]);
            }
            i = i + 1;
        }
        proof {
            lemma_class_first_skip(self.classes@, name@, n as int);
            assert(self.classes@.skip(n as int).len() == 0);
        }
        None
    }
}

} // verus!
