//! The function resolver: turns a module name plus symbol names into native
//! entry-point handles, with a per-instance cache keyed by symbol name.
//!
//! The underlying lookups are supplied by a [`SymbolSource`]; everything
//! else — the cache discipline, fail-fast batch resolution and the filling
//! of the typed function table — is verified here.

use vstd::prelude::*;

verus! {

use vstd::string::*;

use crate::error::Error;
use crate::functions::{all_resolved, all_unresolved, Il2CppFunctions};
use crate::handle::Handle;
use crate::native::SymbolSource;

/// Whether some cache entry is keyed by `name`.
pub open spec fn cache_contains(cache: Seq<(String, Handle)>, name: Seq<char>) -> bool {
    exists|i: int| 0 <= i < cache.len() && cache[i].0@ == name
}

/// The handle of the first cache entry keyed by `name`, if any.
pub open spec fn cache_first(cache: Seq<(String, Handle)>, name: Seq<char>) -> Option<Handle>
    decreases cache.len(),
{
    if cache.len() == 0 {
        None
    } else if cache[0].0@ == name {
        Some(cache[0].1)
    } else {
        cache_first(cache.drop_first(), name)
    }
}

proof fn lemma_cache_first_skip(cache: Seq<(String, Handle)>, name: Seq<char>, i: int)
    requires
        0 <= i <= cache.len(),
        forall|k: int| 0 <= k < i ==> cache[k].0@ != name,
    ensures
        cache_first(cache, name) == cache_first(cache.skip(i), name),
    decreases i,
{
    if i > 0 {
        lemma_cache_first_skip(cache.drop_first(), name, i - 1);
        assert(cache.drop_first().skip(i - 1) =~= cache.skip(i));
    } else {
        assert(cache.skip(0) =~= cache);
    }
}

proof fn lemma_cache_first_push(cache: Seq<(String, Handle)>, name: Seq<char>, entry: (String, Handle))
    requires
        !cache_contains(cache, name),
        entry.0@ == name,
    ensures
        cache_first(cache.push(entry), name) == Some(entry.1),
    decreases cache.len(),
{
    if cache.len() == 0 {
        assert(cache.push(entry)[0] == entry);
    } else {
        assert(cache[0].0@ != name);
        lemma_cache_first_push(cache.drop_first(), name, entry);
        assert(cache.push(entry).drop_first() =~= cache.drop_first().push(entry));
    }
}

proof fn lemma_prefix_contains(p: Seq<(String, Handle)>, q: Seq<(String, Handle)>, name: Seq<char>)
    requires
        p.is_prefix_of(q),
        cache_contains(p, name),
    ensures
        cache_contains(q, name),
{
    let i = choose|i: int| 0 <= i < p.len() && p[i].0@ == name;
    assert(q[i] == p[i]);
}

proof fn lemma_prefix_trans(a: Seq<(String, Handle)>, b: Seq<(String, Handle)>, c: Seq<(String, Handle)>)
    requires
        a.is_prefix_of(b),
        b.is_prefix_of(c),
    ensures
        a.is_prefix_of(c),
{
    assert forall|i: int| 0 <= i < a.len() implies a[i] == c[i] by {
        assert(a[i] == b[i]);
        assert(b[i] == c[i]);
    }
    assert(a =~= c.subrange(0, a.len() as int));
}

/// The required native export names, in resolution order.
pub open spec fn required_names() -> Seq<Seq<char>> {
    seq![
        "il2cpp_init"@,
        "il2cpp_shutdown"@,
        "il2cpp_domain_get"@,
        "il2cpp_thread_attach"@,
        "il2cpp_thread_detach"@,
        "il2cpp_assembly_get_image"@,
        "il2cpp_class_from_name"@,
        "il2cpp_class_get_methods"@,
        "il2cpp_method_get_name"@,
        "il2cpp_domain_get_assemblies"@,
        "il2cpp_image_get_name"@,
        "il2cpp_image_get_filename"@,
        "il2cpp_class_get_fields"@,
        "il2cpp_field_get_name"@,
        "il2cpp_field_get_offset"@,
        "il2cpp_field_get_type"@,
        "il2cpp_method_get_param_count"@,
        "il2cpp_method_get_param_name"@,
        "il2cpp_method_get_return_type"@,
        "il2cpp_method_get_flags"@,
        "il2cpp_class_get_type"@,
    ]
}

/// The required native export names as owned strings.
pub fn il2cpp_function_names() -> (r: Vec<String>)
    ensures
        r@.len() == required_names().len(),
        forall|i: int| 0 <= i < r@.len() ==> r@[i]@ == required_names()[i],
{
    let mut v: Vec<String> = Vec::new();
    v.push(String::from_str("il2cpp_init"));
    v.push(String::from_str("il2cpp_shutdown"));
    v.push(String::from_str("il2cpp_domain_get"));
    v.push(String::from_str("il2cpp_thread_attach"));
    v.push(String::from_str("il2cpp_thread_detach"));
    v.push(String::from_str("il2cpp_assembly_get_image"));
    v.push(String::from_str("il2cpp_class_from_name"));
    v.push(String::from_str("il2cpp_class_get_methods"));
    v.push(String::from_str("il2cpp_method_get_name"));
    v.push(String::from_str("il2cpp_domain_get_assemblies"));
    v.push(String::from_str("il2cpp_image_get_name"));
    v.push(String::from_str("il2cpp_image_get_filename"));
    v.push(String::from_str("il2cpp_class_get_fields"));
    v.push(String::from_str("il2cpp_field_get_name"));
    v.push(String::from_str("il2cpp_field_get_offset"));
    v.push(String::from_str("il2cpp_field_get_type"));
    v.push(String::from_str("il2cpp_method_get_param_count"));
    v.push(String::from_str("il2cpp_method_get_param_name"));
    v.push(String::from_str("il2cpp_method_get_return_type"));
    v.push(String::from_str("il2cpp_method_get_flags"));
    v.push(String::from_str("il2cpp_class_get_type"));
    proof {
        assert forall|i: int| 0 <= i < v@.len() implies v@[i]@ == required_names()[i] by {
            assert(required_names().len() == 21);
        }
    }
    v
}

/// A loaded host module together with its per-symbol resolution cache and
/// the typed table of resolved entry points.
#[derive(Debug)]
pub struct Il2CppDll {
    pub name: String,
    pub module: Handle,
    pub cache: Vec<(String, Handle)>,
    pub functions: Il2CppFunctions,
}

impl Il2CppDll {
    /// An empty resolver bound to no module.
    pub fn default() -> (r: Il2CppDll)
        ensures
            r.name@ == Seq::<char>::empty(),
            r.module.addr == 0,
            r.cache@.len() == 0,
            all_unresolved(r.functions),
    {
        Il2CppDll {
            name: String::new(),
            module: Handle::null(),
            cache: Vec::new(),
            functions: Il2CppFunctions::default(),
        }
    }

    /// Bind a resolver to the named module of the current process.
    pub fn new<S: SymbolSource>(src: &S, module_name: &str) -> (r: Result<Il2CppDll, Error>)
        ensures
            r matches Ok(d) ==> {
                &&& d.module.addr != 0
                &&& d.name@ == module_name@
                &&& d.cache@.len() == 0
                &&& all_unresolved(d.functions)
            },
            r matches Err(e) ==> e == Error::ModuleNotFound,
    {
        match src.find_module(module_name) {
            Some(module) => {
                if module.is_null() {
                    Err(Error::ModuleNotFound)
                } else {
                    Ok(Il2CppDll {
                        name: String::from_str(module_name),
                        module,
                        cache: Vec::new(),
                        functions: Il2CppFunctions::default(),
                    })
                }
            },
            None => Err(Error::ModuleNotFound),
        }
    }

    /// Whether the resolver is bound to a module.
    pub fn is_valid(&self) -> (r: bool)
        ensures
            r == (self.module.addr != 0),
    {
        !self.module.is_null()
    }

    /// Look a symbol up in the cache only.  `Ok(None)` means the cache holds
    /// no entry for it; no native lookup is performed.
    pub fn cached_resolve_function_ptr_from_name(&self, name: &str) -> (r: Result<Option<Handle>, Error>)
        ensures
            r is Err <==> self.module.addr == 0,
            r matches Err(e) ==> e == Error::ModuleNotFound,
            r matches Ok(o) ==> o == cache_first(self.cache@, name@),
    {
        if !self.is_valid() {
            return Err(Error::ModuleNotFound);
        }
        let n = self.cache.len();
        let mut i: usize = 0;
        while i < n
            invariant
                i <= n,
                n == self.cache@.len(),
                self.module.addr != 0,
                forall|k: int| 0 <= k < i ==> self.cache@[k].0@ != name@,
            decreases n - i,
        {
            let entry = &self.cache[i];
            if crate::strutil::eq_str(entry.0.as_str(), name) {
                proof {
                    lemma_cache_first_skip(self.cache@, name@, i as int);
                    assert(self.cache@.skip(i as int)[0] == self.cache@[i as int]);
                }
                return Ok(Some(entry.1));
            }
            i = i + 1;
        }
        proof {
            lemma_cache_first_skip(self.cache@, name@, n as int);
            assert(self.cache@.skip(n as int).len() == 0);
        }
        Ok(None)
    }

    /// Resolve a symbol without touching the cache contents: a cache hit is
    /// served, a miss falls back to a fresh native lookup.
    pub fn invoke<S: SymbolSource>(&self, src: &S, name: &str) -> (r: Result<Handle, Error>)
        ensures
            self.module.addr == 0 ==> (r matches Err(e) && e == Error::ModuleNotFound),
            self.module.addr != 0 ==> (cache_first(self.cache@, name@) matches Some(h) ==> r == Ok::<Handle, Error>(h)),
            r matches Err(e) ==> e == Error::ModuleNotFound || (e matches Error::SymbolNotResolved(s) && s@ == name@),
    {
        match self.cached_resolve_function_ptr_from_name(name) {
            Err(e) => Err(e),
            Ok(Some(h)) => Ok(h),
            Ok(None) => {
                match src.find_symbol(self.module, name) {
                    Some(h) => Ok(h),
                    None => Err(Error::SymbolNotResolved(String::from_str(name))),
                }
            },
        }
    }

    /// Resolve a symbol and remember the answer: a cache hit is served, a
    /// successful fresh lookup is appended to the cache.
    pub fn invoke_mut<S: SymbolSource>(&mut self, src: &S, name: &str) -> (r: Result<Handle, Error>)
        ensures
            final(self).name == old(self).name,
            final(self).module == old(self).module,
            final(self).functions == old(self).functions,
            old(self).cache@.is_prefix_of(final(self).cache@),
            r matches Ok(h) ==> cache_first(final(self).cache@, name@) == Some(h),
            r is Err ==> final(self).cache@ == old(self).cache@,
            old(self).module.addr != 0 ==> (cache_first(old(self).cache@, name@) matches Some(h)
                ==> r == Ok::<Handle, Error>(h) && final(self).cache@ == old(self).cache@),
            old(self).module.addr == 0 ==> (r matches Err(e) && e == Error::ModuleNotFound),
            r matches Err(e) ==> e == Error::ModuleNotFound || (e matches Error::SymbolNotResolved(s) && s@ == name@),
    {
        match self.cached_resolve_function_ptr_from_name(name) {
            Err(e) => {
                proof {
                    assert(self.cache@.is_prefix_of(self.cache@)) by {
                        assert(self.cache@ =~= self.cache@.subrange(0, self.cache@.len() as int));
                    }
                }
                Err(e)
            },
            Ok(Some(h)) => {
                proof {
                    assert(self.cache@.is_prefix_of(self.cache@)) by {
                        assert(self.cache@ =~= self.cache@.subrange(0, self.cache@.len() as int));
                    }
                }
                Ok(h)
            },
            Ok(None) => {
                match src.find_symbol(self.module, name) {
                    Some(h) => {
                        proof {
                            lemma_cache_first_none_not_contains(self.cache@, name@);
                        }
                        let entry = (String::from_str(name), h);
                        proof {
                            lemma_cache_first_push(self.cache@, name@, entry);
                        }
                        self.cache.push(entry);
                        proof {
                            assert(old(self).cache@.is_prefix_of(self.cache@)) by {
                                assert(old(self).cache@ =~= self.cache@.subrange(
                                    0,
                                    old(self).cache@.len() as int,
                                ));
                            }
                        }
                        Ok(h)
                    },
                    None => {
                        proof {
                            assert(self.cache@.is_prefix_of(self.cache@)) by {
                                assert(self.cache@ =~= self.cache@.subrange(0, self.cache@.len() as int));
                            }
                        }
                        Err(Error::SymbolNotResolved(String::from_str(name)))
                    },
                }
            },
        }
    }

    /// Resolve and cache every required export up front, failing fast on the
    /// first one the module does not provide, naming it in the error.
    pub fn cache_function_addresses<S: SymbolSource>(&mut self, src: &S) -> (r: Result<(), Error>)
        ensures
            final(self).name == old(self).name,
            final(self).module == old(self).module,
            final(self).functions == old(self).functions,
            old(self).cache@.is_prefix_of(final(self).cache@),
            r is Ok ==> forall|j: int|
                0 <= j < required_names().len() ==> cache_contains(
                    final(self).cache@,
                    required_names()[j],
                ),
            r matches Err(e) ==> e == Error::ModuleNotFound || e matches Error::EssentialApiMissing(_),
            old(self).module.addr == 0 ==> r is Err,
    {
        let names = il2cpp_function_names();
        let n = names.len();
        let mut i: usize = 0;
        proof {
            assert(self.cache@.is_prefix_of(self.cache@)) by {
                assert(self.cache@ =~= self.cache@.subrange(0, self.cache@.len() as int));
            }
        }
        while i < n
            invariant
                i <= n,
                n == required_names().len(),
                names@.len() == n,
                forall|k: int| 0 <= k < n ==> names@[k]@ == required_names()[k],
                self.name == old(self).name,
                self.module == old(self).module,
                self.functions == old(self).functions,
                old(self).cache@.is_prefix_of(self.cache@),
                i > 0 ==> old(self).module.addr != 0,
                forall|j: int| 0 <= j < i ==> cache_contains(self.cache@, required_names()[j]),
            decreases n - i,
        {
            let ghost pre = self.cache@;
            match self.invoke_mut(src, names[i].as_str()) {
                Ok(_) => {
                    proof {
                        lemma_prefix_trans(old(self).cache@, pre, self.cache@);
                        assert forall|j: int| 0 <= j < i + 1 implies cache_contains(
                            self.cache@,
                            required_names()[j],
                        ) by {
                            if j < i {
                                lemma_prefix_contains(pre, self.cache@, required_names()[j]);
                            } else {
                                lemma_cache_first_some_contains(
                                    self.cache@,
                                    required_names()[j],
                                );
                            }
                        }
                    }
                },
                Err(_) => {
                    let mut missing: Vec<String> = Vec::new();
                    missing.push(names[i].clone());
                    return Err(Error::EssentialApiMissing(missing));
                },
            }
            i = i + 1;
        }
        Ok(())
    }

    /// Resolve every entry point into the typed function table, failing on
    /// the first export the module does not provide.
    pub fn cache_functions<S: SymbolSource>(&mut self, src: &S) -> (r: Result<(), Error>)
        ensures
            final(self).name == old(self).name,
            final(self).module == old(self).module,
            final(self).cache@.len() >= old(self).cache@.len(),
            forall|k: int|
                0 <= k < old(self).cache@.len() ==> final(self).cache@[k] == old(self).cache@[k],
            r is Ok ==> all_resolved(final(self).functions),
            r matches Err(e) ==> e == Error::ModuleNotFound || e matches Error::SymbolNotResolved(_),
            old(self).module.addr == 0 ==> r is Err,
    {
        self.functions.init = Some(self.step(src, "il2cpp_init")?);
        self.functions.shutdown = Some(self.step(src, "il2cpp_shutdown")?);
        self.functions.get_domain = Some(self.step(src, "il2cpp_domain_get")?);
        self.functions.thread_attach = Some(self.step(src, "il2cpp_thread_attach")?);
        self.functions.thread_detach = Some(self.step(src, "il2cpp_thread_detach")?);
        self.functions.assembly_get_image = Some(self.step(src, "il2cpp_assembly_get_image")?);
        self.functions.class_from_name = Some(self.step(src, "il2cpp_class_from_name")?);
        self.functions.class_get_methods = Some(self.step(src, "il2cpp_class_get_methods")?);
        self.functions.class_get_name = Some(self.step(src, "il2cpp_class_get_name")?);
        self.functions.class_get_namespace = Some(self.step(src, "il2cpp_class_get_namespace")?);
        self.functions.class_get_parent = Some(self.step(src, "il2cpp_class_get_parent")?);
        self.functions.class_get_type = Some(self.step(src, "il2cpp_class_get_type")?);
        self.functions.method_get_name = Some(self.step(src, "il2cpp_method_get_name")?);
        self.functions.domain_get_assemblies = Some(self.step(src, "il2cpp_domain_get_assemblies")?);
        self.functions.image_get_name = Some(self.step(src, "il2cpp_image_get_name")?);
        self.functions.image_get_filename = Some(self.step(src, "il2cpp_image_get_filename")?);
        self.functions.image_get_class = Some(self.step(src, "il2cpp_image_get_class")?);
        self.functions.image_get_class_count = Some(self.step(src, "il2cpp_image_get_class_count")?);
        self.functions.class_get_fields = Some(self.step(src, "il2cpp_class_get_fields")?);
        self.functions.field_get_name = Some(self.step(src, "il2cpp_field_get_name")?);
        self.functions.field_get_offset = Some(self.step(src, "il2cpp_field_get_offset")?);
        self.functions.field_get_type = Some(self.step(src, "il2cpp_field_get_type")?);
        self.functions.method_get_param_count = Some(self.step(src, "il2cpp_method_get_param_count")?);
        self.functions.method_get_param_name = Some(self.step(src, "il2cpp_method_get_param_name")?);
        self.functions.method_get_return_type = Some(self.step(src, "il2cpp_method_get_return_type")?);
        self.functions.method_get_flags = Some(self.step(src, "il2cpp_method_get_flags")?);
        self.functions.method_get_param = Some(self.step(src, "il2cpp_method_get_param")?);
        self.functions.type_get_name = Some(self.step(src, "il2cpp_type_get_name")?);
        self.functions.type_get_object = Some(self.step(src, "il2cpp_type_get_object")?);
        Ok(())
    }

    /// One resolution step of [`Self::cache_functions`]: resolve and cache a
    /// symbol, leaving the typed table itself untouched.
    fn step<S: SymbolSource>(&mut self, src: &S, name: &str) -> (r: Result<Handle, Error>)
        ensures
            final(self).name == old(self).name,
            final(self).module == old(self).module,
            final(self).functions == old(self).functions,
            final(self).cache@.len() >= old(self).cache@.len(),
            forall|k: int|
                0 <= k < old(self).cache@.len() ==> final(self).cache@[k] == old(self).cache@[k],
            r matches Err(e) ==> e == Error::ModuleNotFound || e matches Error::SymbolNotResolved(_),
            old(self).module.addr == 0 ==> r is Err,
    {
        let r = self.invoke_mut(src, name);
        proof {
            assert forall|k: int|
                0 <= k < old(self).cache@.len() implies self.cache@[k] == old(self).cache@[k] by {
                assert(old(self).cache@[k] == self.cache@.subrange(
                    0,
                    old(self).cache@.len() as int,
                )[k]);
            }
        }
        r
    }
}

proof fn lemma_cache_first_none_not_contains(cache: Seq<(String, Handle)>, name: Seq<char>)
    requires
        cache_first(cache, name) is None,
    ensures
        !cache_contains(cache, name),
    decreases cache.len(),
{
    if cache.len() > 0 {
        assert(cache[0].0@ != name);
        lemma_cache_first_none_not_contains(cache.drop_first(), name);
        if cache_contains(cache, name) {
            let i = choose|i: int| 0 <= i < cache.len() && cache[i].0@ == name;
            if i > 0 {
                assert(cache.drop_first()[i - 1].0@ == name);
            }
            assert(false);
        }
    }
}

/// If the first match exists, some entry is keyed by the name.
pub proof fn lemma_cache_first_some_contains(cache: Seq<(String, Handle)>, name: Seq<char>)
    requires
        cache_first(cache, name) is Some,
    ensures
        cache_contains(cache, name),
    decreases cache.len(),
{
    if cache.len() > 0 {
        if cache[0].0@ == name {
        } else {
            lemma_cache_first_some_contains(cache.drop_first(), name);
            let i = choose|i: int|
                0 <= i < cache.drop_first().len() && cache.drop_first()[i].0@ == name;
            assert(cache[i + 1].0@ == name);
        }
    }
}

} // verus!
