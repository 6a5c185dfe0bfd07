//! The metadata cache: one full walk of the foreign type system, producing
//! an owned, queryable model.
//!
//! Skip policy: a failure on a single assembly, class or field silently
//! omits that one node and continues; a failure on any parameter of a
//! method discards that whole method (a partially resolved signature must
//! not be exposed for invocation).  Only a failure of the domain-level
//! assembly enumeration itself is fatal.
//!
//! Every member that survives the walk is classified by construction:
//! fields are static iff their reported offset is at most zero, methods are
//! static iff bit `0x10` of their flags is set, and every member carries
//! its owning class's handle — these facts are the `cache_wf` guarantee of
//! [`Cache::new`].

use vstd::prelude::*;

verus! {

use crate::classes::arg::ArgInner;
use crate::classes::assembly::{assembly_wf, Assembly};
use crate::classes::class::{class_wf, ClassInner};
use crate::classes::field::{field_wf, FieldInner};
use crate::classes::itype::TypeInner;
use crate::classes::method::{method_wf, MethodInner};
use crate::client;
use crate::error::Error;
use crate::functions::Il2CppFunctions;
use crate::handle::Handle;
use crate::native::NativeInvoker;
use crate::strutil::eq_str;

/// The built model: all retained assemblies in discovery order.
#[derive(Debug, Clone)]
pub struct Cache {
    pub assemblies: Vec<Assembly>,
}

/// Well-formedness of the whole cache: every assembly is well formed.
pub open spec fn cache_wf(c: Cache) -> bool {
    forall|i: int| 0 <= i < c.assemblies@.len() ==> assembly_wf(#[trigger] c.assemblies@[i])
}

/// Whether an assembly of the cache has the name.
pub open spec fn has_assembly_named(c: Cache, name: Seq<char>) -> bool {
    exists|i: int| 0 <= i < c.assemblies@.len() && #[trigger] c.assemblies@[i].name@ == name
}

/// The first assembly with the given name, if any.
pub open spec fn assembly_first(s: Seq<Assembly>, name: Seq<char>) -> Option<Assembly>
    decreases s.len(),
{
    if s.len() == 0 {
        None
    } else if s[0].name@ == name {
        Some(s[0])
    } else {
        assembly_first(s.drop_first(), name)
    }
}

proof fn lemma_assembly_first_skip(s: Seq<Assembly>, name: Seq<char>, i: int)
    requires
        0 <= i <= s.len(),
        forall|k: int| 0 <= k < i ==> s[k].name@ != name,
    ensures
        assembly_first(s, name) == assembly_first(s.skip(i), name),
    decreases i,
{
    if i > 0 {
        lemma_assembly_first_skip(s.drop_first(), name, i - 1);
        assert(s.drop_first().skip(i - 1) =~= s.skip(i));
    } else {
        assert(s.skip(0) =~= s);
    }
}

impl Cache {
    /// An empty cache.
    pub fn default() -> (r: Cache)
        ensures
            r.assemblies@.len() == 0,
            cache_wf(r),
    {
        Cache { assemblies: Vec::new() }
    }

    /// Walk the field iterator of a class, appending every field whose
    /// name, type, type name and offset all resolve; any other field is
    /// skipped on its own.  Appended fields are classified by the offset
    /// rule and carry the class's handle.  Never fails.
    pub fn parse_fields<I: NativeInvoker>(
        inv: &I,
        funcs: &Il2CppFunctions,
        class: &mut ClassInner,
    ) -> (r: Result<(), Error>)
        ensures
            r is Ok,
            final(class).address == old(class).address,
            final(class).name == old(class).name,
            final(class).namespace == old(class).namespace,
            final(class).parent == old(class).parent,
            final(class).methods == old(class).methods,
            old(class).fields@.is_prefix_of(final(class).fields@),
            forall|i: int|
                old(class).fields@.len() <= i < final(class).fields@.len() ==> field_wf(
                    #[trigger] final(class).fields@[i],
                    final(class).address,
                ),
    {
        let mut iter = Handle::null();
        // The native iterator signals exhaustion by a null result; the step
        // bound only makes termination a theorem rather than a hope.
        let mut fuel: usize = usize::MAX;
        while fuel > 0
            invariant
                class.address == old(class).address,
                class.name == old(class).name,
                class.namespace == old(class).namespace,
                class.parent == old(class).parent,
                class.methods == old(class).methods,
                old(class).fields@.is_prefix_of(class.fields@),
                forall|i: int|
                    old(class).fields@.len() <= i < class.fields@.len() ==> field_wf(
                        #[trigger] class.fields@[i],
                        class.address,
                    ),
            decreases fuel,
        {
            fuel = fuel - 1;
            let field = match client::class_get_fields(inv, funcs, class.address, &mut iter) {
                Ok(f) => f,
                Err(_) => {
                    break;
                },
            };
            if field.is_null() {
                break;
            }
            let name = match client::field_get_name(inv, funcs, field) {
                Ok(v) => v,
                Err(_) => {
                    continue;
                },
            };
            let itype = match client::field_get_type(inv, funcs, field) {
                Ok(v) => v,
                Err(_) => {
                    continue;
                },
            };
            let field_type_name = match client::type_get_name(inv, funcs, itype) {
                Ok(v) => v,
                Err(_) => {
                    continue;
                },
            };
            let field_type = TypeInner::new(itype, field_type_name, -1);
            let offset = match client::field_get_offset(inv, funcs, field) {
                Ok(v) => v,
                Err(_) => {
                    continue;
                },
            };
            let static_field = offset <= 0;
            class.fields.push(
                FieldInner::new(
                    field,
                    name,
                    field_type,
                    class.address,
                    offset,
                    static_field,
                    Handle::null(),
                ),
            );
            proof {
                assert(old(class).fields@ =~= class.fields@.subrange(
                    0,
                    old(class).fields@.len() as int,
                ));
            }
        }
        Ok(())
    }

    /// Walk the method iterator of a class, appending every method whose
    /// name, return type, flags, parameter count and every single parameter
    /// all resolve; a failure on any parameter discards that whole method.
    /// Appended methods are classified by the flags rule and carry the
    /// class's handle; their native entry point is read through the host's
    /// isolated method-info accessor.  Never fails.
    pub fn parse_methods<I: NativeInvoker>(
        inv: &I,
        funcs: &Il2CppFunctions,
        class: &mut ClassInner,
    ) -> (r: Result<(), Error>)
        ensures
            r is Ok,
            final(class).address == old(class).address,
            final(class).name == old(class).name,
            final(class).namespace == old(class).namespace,
            final(class).parent == old(class).parent,
            final(class).fields == old(class).fields,
            old(class).methods@.is_prefix_of(final(class).methods@),
            forall|i: int|
                old(class).methods@.len() <= i < final(class).methods@.len() ==> method_wf(
                    #[trigger] final(class).methods@[i],
                    final(class).address,
                ),
    {
        let mut iter = Handle::null();
        let mut fuel: usize = usize::MAX;
        while fuel > 0
            invariant
                class.address == old(class).address,
                class.name == old(class).name,
                class.namespace == old(class).namespace,
                class.parent == old(class).parent,
                class.fields == old(class).fields,
                old(class).methods@.is_prefix_of(class.methods@),
                forall|i: int|
                    old(class).methods@.len() <= i < class.methods@.len() ==> method_wf(
                        #[trigger] class.methods@[i],
                        class.address,
                    ),
            decreases fuel,
        {
            fuel = fuel - 1;
            let method = match client::class_get_methods(inv, funcs, class.address, &mut iter) {
                Ok(m) => m,
                Err(_) => {
                    break;
                },
            };
            if method.is_null() {
                break;
            }
            let name = match client::method_get_name(inv, funcs, method) {
                Ok(v) => v,
                Err(_) => {
                    continue;
                },
            };
            let return_type = match client::method_get_return_type(inv, funcs, method) {
                Ok(v) => v,
                Err(_) => {
                    continue;
                },
            };
            let return_type_name = match client::type_get_name(inv, funcs, return_type) {
                Ok(v) => v,
                Err(_) => {
                    continue;
                },
            };
            let method_return = TypeInner::new(return_type, return_type_name, -1);
            let mut iflag: i32 = 0;
            let flags = match client::method_get_flags(inv, funcs, method, &mut iflag) {
                Ok(v) => v,
                Err(_) => {
                    continue;
                },
            };
            let static_function = (flags & 0x10) != 0;
            // The one layout-dependent read in the system, behind the
            // host's isolated accessor.
            let func_ptr = inv.read_method_function_pointer(method);
            let arg_count = match client::method_get_param_count(inv, funcs, method) {
                Ok(v) => v,
                Err(_) => {
                    continue;
                },
            };
            let mut args: Vec<ArgInner> = Vec::new();
            let mut param_error = false;
            let mut pi: u32 = 0;
            while pi < arg_count
                invariant
                    pi <= arg_count,
                decreases arg_count - pi,
            {
                let index = pi;
                pi = pi + 1;
                let param_name = match client::method_get_param_name(inv, funcs, method, index) {
                    Ok(v) => v,
                    Err(_) => {
                        param_error = true;
                        break;
                    },
                };
                let param_type = match client::method_get_param(inv, funcs, method, index) {
                    Ok(v) => v,
                    Err(_) => {
                        param_error = true;
                        break;
                    },
                };
                let param_type_name = match client::type_get_name(inv, funcs, param_type) {
                    Ok(v) => v,
                    Err(_) => {
                        param_error = true;
                        break;
                    },
                };
                let arg_type = TypeInner::new(param_type, param_type_name, -1);
                args.push(ArgInner::new(param_name, arg_type));
            }
            if param_error {
                continue;
            }
            class.methods.push(
                MethodInner::new(
                    method,
                    name,
                    class.address,
                    method_return,
                    flags,
                    static_function,
                    func_ptr,
                    args,
                ),
            );
            proof {
                assert(old(class).methods@ =~= class.methods@.subrange(
                    0,
                    old(class).methods@.len() as int,
                ));
            }
        }
        Ok(())
    }

    /// Walk the classes of an image by index, appending every class whose
    /// own name and namespace resolve; a failed parent-name lookup degrades
    /// to an empty parent name rather than a skip.  Fields and methods of
    /// each retained class are walked in turn.  Never fails.
    pub fn parse_class<I: NativeInvoker>(
        inv: &I,
        funcs: &Il2CppFunctions,
        assembly: &mut Assembly,
        image: Handle,
    ) -> (r: Result<(), Error>)
        ensures
            r is Ok,
            final(assembly).address == old(assembly).address,
            final(assembly).name == old(assembly).name,
            final(assembly).file == old(assembly).file,
            old(assembly).classes@.is_prefix_of(final(assembly).classes@),
            forall|i: int|
                old(assembly).classes@.len() <= i < final(assembly).classes@.len() ==> class_wf(
                    #[trigger] final(assembly).classes@[i],
                ),
    {
        let class_count = match client::image_get_class_count(inv, funcs, image) {
            Ok(c) => c,
            Err(_) => {
                return Ok(());
            },
        };
        let mut i: usize = 0;
        while i < class_count
            invariant
                i <= class_count,
                assembly.address == old(assembly).address,
                assembly.name == old(assembly).name,
                assembly.file == old(assembly).file,
                old(assembly).classes@.is_prefix_of(assembly.classes@),
                forall|k: int|
                    old(assembly).classes@.len() <= k < assembly.classes@.len() ==> class_wf(
                        #[trigger] assembly.classes@[k],
                    ),
            decreases class_count - i,
        {
            let index = i;
            i = i + 1;
            let p_class = match client::image_get_class(inv, funcs, image, index) {
                Ok(c) => c,
                Err(_) => {
                    continue;
                },
            };
            let name = match client::class_get_name(inv, funcs, p_class) {
                Ok(v) => v,
                Err(_) => {
                    continue;
                },
            };
            let namespace = match client::class_get_namespace(inv, funcs, p_class) {
                Ok(v) => v,
                Err(_) => {
                    continue;
                },
            };
            let parent = match client::class_get_parent(inv, funcs, p_class) {
                Ok(v) => v,
                Err(_) => {
                    continue;
                },
            };
            let parent_name = if !parent.is_null() {
                match client::class_get_name(inv, funcs, parent) {
                    Ok(v) => v,
                    Err(_) => String::new(),
                }
            } else {
                String::new()
            };
            let mut class = ClassInner::new(p_class, name, namespace, parent_name);
            Cache::parse_fields(inv, funcs, &mut class)?;
            Cache::parse_methods(inv, funcs, &mut class)?;
            assembly.classes.push(class);
            proof {
                assert(old(assembly).classes@ =~= assembly.classes@.subrange(
                    0,
                    old(assembly).classes@.len() as int,
                ));
            }
        }
        Ok(())
    }

    /// Enumerate the assemblies of a domain and walk each retained one.  An
    /// assembly whose image, name or file name does not resolve is omitted
    /// on its own.  Fails exactly when the domain handle is null or the
    /// enumeration entry point is unresolved.
    pub fn parse_assemblies<I: NativeInvoker>(
        inv: &I,
        funcs: &Il2CppFunctions,
        domain: Handle,
    ) -> (r: Result<Vec<Assembly>, Error>)
        ensures
            r matches Ok(v) ==> forall|i: int|
                0 <= i < v@.len() ==> assembly_wf(#[trigger] v@[i]),
            r is Err <==> (domain.addr == 0 || funcs.domain_get_assemblies is None),
            domain.addr == 0 ==> r == Err::<Vec<Assembly>, Error>(Error::DomainUnavailable),
            r matches Err(e) ==> (e == Error::DomainUnavailable || e matches Error::SymbolNotResolved(_)),
    {
        let mut ret: Vec<Assembly> = Vec::new();
        let assemblies = match client::domain_get_assemblies(inv, funcs, domain) {
            Ok(v) => v,
            Err(e) => {
                return Err(e);
            },
        };
        let n = assemblies.len();
        let mut i: usize = 0;
        while i < n
            invariant
                i <= n,
                n == assemblies@.len(),
                domain.addr != 0,
                funcs.domain_get_assemblies is Some,
                forall|k: int| 0 <= k < ret@.len() ==> assembly_wf(#[trigger] ret@[k]),
            decreases n - i,
        {
            let index = i;
            i = i + 1;
            let assembly = assemblies[index];
            let image = match client::assembly_get_image(inv, funcs, assembly) {
                Ok(v) => v,
                Err(_) => {
                    continue;
                },
            };
            let name = match client::image_get_name(inv, funcs, image) {
                Ok(v) => v,
                Err(_) => {
                    continue;
                },
            };
            let file_name = match client::image_get_filename(inv, funcs, image) {
                Ok(v) => v,
                Err(_) => {
                    continue;
                },
            };
            let mut parsed = Assembly::new(assembly, name, file_name);
            Cache::parse_class(inv, funcs, &mut parsed, image)?;
            ret.push(parsed);
        }
        Ok(ret)
    }

    /// Build the whole cache from a domain in one pass.  Success is owed
    /// exactly when the domain handle is non-null and the enumeration entry
    /// point is resolved; the result is then well formed.
    pub fn new<I: NativeInvoker>(inv: &I, funcs: &Il2CppFunctions, domain: Handle) -> (r: Result<
        Cache,
        Error,
    >)
        ensures
            r matches Ok(c) ==> cache_wf(c),
            r is Err <==> (domain.addr == 0 || funcs.domain_get_assemblies is None),
            domain.addr == 0 ==> r == Err::<Cache, Error>(Error::DomainUnavailable),
            r matches Err(e) ==> (e == Error::DomainUnavailable || e matches Error::SymbolNotResolved(_)),
    {
        match Cache::parse_assemblies(inv, funcs, domain) {
            Ok(assemblies) => Ok(Cache { assemblies }),
            Err(e) => Err(e),
        }
    }

    /// In a well-formed cache, every field and every method of every class
    /// carries a back-reference that resolves to exactly its owning class's
    /// handle, every field is classified static exactly when its reported
    /// offset is at most zero, and every method exactly when bit `0x10` of
    /// its flags is set.
    pub proof fn lemma_member_invariants(c: Cache, a: int, k: int)
        requires
            cache_wf(c),
            0 <= a < c.assemblies@.len(),
            0 <= k < c.assemblies@[a].classes@.len(),
        ensures
            forall|i: int|
                0 <= i < c.assemblies@[a].classes@[k].fields@.len() ==> {
                    let f = #[trigger] c.assemblies@[a].classes@[k].fields@[i];
                    f.class == c.assemblies@[a].classes@[k].address && f.static_field == (f.offset
                        <= 0)
                },
            forall|i: int|
                0 <= i < c.assemblies@[a].classes@[k].methods@.len() ==> {
                    let m = #[trigger] c.assemblies@[a].classes@[k].methods@[i];
                    m.class == c.assemblies@[a].classes@[k].address && m.is_static == ((m.flags
                        & 0x10) != 0)
                },
    {
        assert(assembly_wf(c.assemblies@[a]));
        assert(class_wf(c.assemblies@[a].classes@[k]));
    }

    /// The first assembly with exactly the given name, if any.
    pub fn get_assembly(&self, name: &str) -> (r: Option<&Assembly>)
        ensures
            r is Some <==> has_assembly_named(*self, name@),
            r matches Some(a) ==> assembly_first(self.assemblies@, name@) == Some(*a),
            r is None ==> assembly_first(self.assemblies@, name@) is None,
            r matches Some(a) ==> exists|i: int| {
                &&& 0 <= i < self.assemblies@.len()
                &&& *a == self.assemblies@[i]
                &&& self.assemblies@[i].name@ == name@
                &&& forall|j: int| 0 <= j < i ==> #[trigger] self.assemblies@[j].name@ != name@
            },
    {
        let n = self.assemblies.len();
        let mut i: usize = 0;
        while i < n
            invariant
                i <= n,
                n == self.assemblies@.len(),
                forall|k: int| 0 <= k < i ==> #[trigger] self.assemblies@[k].name@ != name@,
            decreases n - i,
        {
            if eq_str(self.assemblies[i].name.as_str(), name) {
                proof {
                    lemma_assembly_first_skip(self.assemblies@, name@, i as int);
                    assert(self.assemblies@.skip(i as int)[0] == self.assemblies@[i as int]);
                }
                return Some(&self.assemblies[i]);
            }
            i = i + 1;
        }
        proof {
            lemma_assembly_first_skip(self.assemblies@, name@, n as int);
            assert(self.assemblies@.skip(n as int).len() == 0);
        }
        None
    }
}

} // verus!
