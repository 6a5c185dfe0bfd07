//! A foreign class: identity, names, and its owned members.
//!
//! Lookup of members is by name; method lookup additionally resolves
//! overloads: a name match (after trimming both names) is narrowed by
//! arity, and, for a non-empty expected list, by positional exact equality
//! between each declared parameter's type name and the caller-supplied
//! type name.  No coercion, no partial matches: the first textual mismatch
//! rejects the candidate, and the first fully matching method wins.

use vstd::prelude::*;

verus! {

use crate::classes::field::{field_wf, FieldInner};
use crate::classes::method::{method_wf, MethodInner};
use crate::handle::Handle;
use crate::strutil::{eq_str, trim_eq, trim_spec};

/// A class with its owned fields and methods, in discovery order.
#[derive(Debug, Clone)]
pub struct ClassInner {
    pub address: Handle,
    pub name: String,
    pub namespace: String,
    pub parent: String,
    pub fields: Vec<FieldInner>,
    pub methods: Vec<MethodInner>,
}

/// Well-formedness of a class: every owned member carries the class's own
/// handle as its back-reference and satisfies its classification rule.
pub open spec fn class_wf(c: ClassInner) -> bool {
    &&& forall|i: int| 0 <= i < c.fields@.len() ==> field_wf(#[trigger] c.fields@[i], c.address)
    &&& forall|i: int| 0 <= i < c.methods@.len() ==> method_wf(#[trigger] c.methods@[i], c.address)
}

/// The views of a sequence of borrowed name slices.
pub open spec fn views_of(args: Seq<&str>) -> Seq<Seq<char>> {
    args.map_values(|s: &str| s@)
}

/// Whether a method answers a lookup for `name` with expected parameter
/// type names `args`: trimmed name equality, equal arity, and positional
/// exact type-name equality.  An empty `args` therefore matches only
/// zero-parameter methods.
pub open spec fn method_matches(m: MethodInner, name: Seq<char>, args: Seq<Seq<char>>) -> bool {
    &&& trim_spec(m.name@) == trim_spec(name)
    &&& m.args@.len() == args.len()
    &&& forall|i: int| 0 <= i < args.len() ==> #[trigger] m.args@[i].itype.name@ == args[i]
}

/// Whether a method of the class answers the lookup.
pub open spec fn has_matching_method(c: ClassInner, name: Seq<char>, args: Seq<Seq<char>>) -> bool {
    exists|i: int| 0 <= i < c.methods@.len() && method_matches(#[trigger] c.methods@[i], name, args)
}

/// Whether a field of the class has the name.
pub open spec fn has_field_named(c: ClassInner, name: Seq<char>) -> bool {
    exists|i: int| 0 <= i < c.fields@.len() && #[trigger] c.fields@[i].name@ == name
}

/// The first method answering the lookup, if any.
pub open spec fn method_first(s: Seq<MethodInner>, name: Seq<char>, args: Seq<Seq<char>>) -> Option<
    MethodInner,
>
    decreases s.len(),
{
    if s.len() == 0 {
        None
    } else if method_matches(s[0], name, args) {
        Some(s[0])
    } else {
        method_first(s.drop_first(), name, args)
    }
}

proof fn lemma_method_first_skip(s: Seq<MethodInner>, name: Seq<char>, args: Seq<Seq<char>>, i: int)
    requires
        0 <= i <= s.len(),
        forall|k: int| 0 <= k < i ==> !method_matches(#[trigger] s[k], name, args),
    ensures
        method_first(s, name, args) == method_first(s.skip(i), name, args),
    decreases i,
{
    if i > 0 {
        lemma_method_first_skip(s.drop_first(), name, args, i - 1);
        assert(s.drop_first().skip(i - 1) =~= s.skip(i));
    } else {
        assert(s.skip(0) =~= s);
    }
}

/// Whether `m` answers the lookup, executably.
fn matches_method(m: &MethodInner, name: &str, args: &Vec<&str>) -> (b: bool)
    ensures
        b == method_matches(*m, name@, views_of(args@)),
{
    if !trim_eq(m.name.as_str(), name) {
        return false;
    }
    let n = m.args.len();
    if n != args.len() {
        return false;
    }
    let mut j: usize = 0;
    while j < n
        invariant
            j <= n,
            n == m.args@.len(),
            n == args@.len(),
            forall|k: int| 0 <= k < j ==> #[trigger] m.args@[k].itype.name@ == args@[k]@,
        decreases n - j,
    {
        if !eq_str(m.args[j].itype.name.as_str(), args[j]) {
            assert(!(method_matches(*m, name@, views_of(args@)))) by {
                assert(views_of(args@)[j as int] == args@[j as int]@);
            }
            return false;
        }
        j = j + 1;
    }
    proof {
        assert forall|i: int| 0 <= i < views_of(args@).len() implies #[trigger] m.args@[i].itype.name@
            == views_of(args@)[i] by {
            assert(views_of(args@)[i] == args@[i]@);
        }
    }
    true
}

impl ClassInner {
    /// A class from its identity and names, with no members yet.
    pub fn new(address: Handle, name: String, namespace: String, parent: String) -> (r: ClassInner)
        ensures
            r.address == address,
            r.name == name,
            r.namespace == namespace,
            r.parent == parent,
            r.fields@.len() == 0,
            r.methods@.len() == 0,
    {
        ClassInner { address, name, namespace, parent, fields: Vec::new(), methods: Vec::new() }
    }

    /// The first field with exactly the given name, if any.
    pub fn get_field(&self, name: &str) -> (r: Option<&FieldInner>)
        ensures
            r is Some <==> has_field_named(*self, name@),
            r matches Some(f) ==> exists|i: int| {
                &&& 0 <= i < self.fields@.len()
                &&& *f == self.fields@[i]
                &&& self.fields@[i].name@ == name@
                &&& forall|j: int| 0 <= j < i ==> #[trigger] self.fields@[j].name@ != name@
            },
    {
        let n = self.fields.len();
        let mut i: usize = 0;
        while i < n
            invariant
                i <= n,
                n == self.fields@.len(),
                forall|k: int| 0 <= k < i ==> #[trigger] self.fields@[k].name@ != name@,
            decreases n - i,
        {
            if eq_str(self.fields[i].name.as_str(), name) {
                return Some(&self.fields[i]);
            }
            i = i + 1;
        }
        None
    }

    /// The first method answering the lookup for `name` with expected
    /// parameter type names `args`, if any.
    pub fn get_method(&self, name: &str, args: Vec<&str>) -> (r: Option<&MethodInner>)
        ensures
            r is Some <==> has_matching_method(*self, name@, views_of(args@)),
            r matches Some(m) ==> method_first(self.methods@, name@, views_of(args@)) == Some(*m),
            r is None ==> method_first(self.methods@, name@, views_of(args@)) is None,
            r matches Some(m) ==> exists|i: int| {
                &&& 0 <= i < self.methods@.len()
                &&& *m == self.methods@[i]
                &&& method_matches(self.methods@[i], name@, views_of(args@))
                &&& forall|j: int| 0 <= j < i ==> !method_matches(
                    #[trigger] self.methods@[j],
                    name@,
                    views_of(args@),
                )
            },
    {
        let n = self.methods.len();
        let mut i: usize = 0;
        while i < n
            invariant
                i <= n,
                n == self.methods@.len(),
                forall|k: int| 0 <= k < i ==> !method_matches(
                    #[trigger] self.methods@[k],
                    name@,
                    views_of(args@),
                ),
            decreases n - i,
        {
            if matches_method(&self.methods[i], name, &args) {
                proof {
                    lemma_method_first_skip(self.methods@, name@, views_of(args@), i as int);
                    assert(self.methods@.skip(i as int)[0] == self.methods@[i as int]);
                }
                return Some(&self.methods[i]);
            }
            i = i + 1;
        }
        proof {
            lemma_method_first_skip(self.methods@, name@, views_of(args@), n as int);
            assert(self.methods@.skip(n as int).len() == 0);
        }
        None
    }
}

/// Within a well-formed class, every field's back-reference resolves to
/// exactly the owning class's handle.
pub proof fn lemma_field_back_reference(c: ClassInner, i: int)
    requires
        class_wf(c),
        0 <= i < c.fields@.len(),
    ensures
        c.fields@[i].class == c.address,
{
}

/// Within a well-formed class, every method's back-reference resolves to
/// exactly the owning class's handle.
pub proof fn lemma_method_back_reference(c: ClassInner, i: int)
    requires
        class_wf(c),
        0 <= i < c.methods@.len(),
    ensures
        c.methods@[i].class == c.address,
{
}

/// Within a well-formed class, a field is classified static exactly when
/// its reported offset is at most zero.
pub proof fn lemma_field_static_rule(c: ClassInner, i: int)
    requires
        class_wf(c),
        0 <= i < c.fields@.len(),
    ensures
        c.fields@[i].static_field == (c.fields@[i].offset <= 0),
{
}

/// Within a well-formed class, a method is classified static exactly when
/// bit `0x10` of its flags is set.
pub proof fn lemma_method_static_rule(c: ClassInner, i: int)
    requires
        class_wf(c),
        0 <= i < c.methods@.len(),
    ensures
        c.methods@[i].is_static == ((c.methods@[i].flags & 0x10) != 0),
{
}

} // verus!
