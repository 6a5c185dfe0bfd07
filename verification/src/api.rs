//! The explicit context object holding the resolved native interface.
//!
//! Construction resolves every entry point it can and then checks that the
//! entry points the library cannot operate without are present; anything
//! else may legitimately stay unresolved and is reported per call by the
//! client layer.

use vstd::prelude::*;

verus! {

use vstd::string::*;

use crate::error::Error;
use crate::functions::{all_resolved, all_unresolved, essentials_resolved};
use crate::handle::Handle;
use crate::native::SymbolSource;
use crate::resolver::Il2CppDll;

/// The resolved runtime interface: a resolver bound to the host module with
/// its typed entry-point table.
#[derive(Debug)]
pub struct Il2CppApi {
    pub dll: Il2CppDll,
}

/// Resolve a symbol, treating failure as "leave unresolved" rather than as
/// an error; the table stays as it was.
fn attempt<S: SymbolSource>(dll: &mut Il2CppDll, src: &S, name: &str) -> (r: Option<Handle>)
    ensures
        final(dll).name == old(dll).name,
        final(dll).module == old(dll).module,
        final(dll).functions == old(dll).functions,
{
    match dll.invoke_mut(src, name) {
        Ok(h) => Some(h),
        Err(_) => None,
    }
}

impl Il2CppApi {
    /// An empty context bound to no module.
    pub fn new() -> (r: Il2CppApi)
        ensures
            r.dll.module.addr == 0,
            r.dll.cache@.len() == 0,
            all_unresolved(r.dll.functions),
    {
        Il2CppApi { dll: Il2CppDll::default() }
    }

    /// Bind the context to the named host module and resolve every entry
    /// point, tolerating gaps: success is owed exactly when the essential
    /// entry points all resolved.
    pub fn initialize<S: SymbolSource>(&mut self, src: &S, module_name: &str) -> (r: Result<(), Error>)
        ensures
            r is Ok ==> essentials_resolved(final(self).dll.functions),
            r matches Err(e) ==> (e == Error::ModuleNotFound || e matches Error::EssentialApiMissing(_)),
            r matches Err(e) ==> (e matches Error::EssentialApiMissing(_) ==> !essentials_resolved(
                final(self).dll.functions,
            )),
            r is Ok ==> final(self).dll.module.addr != 0 && final(self).dll.name@ == module_name@,
    {
        let dll = match Il2CppDll::new(src, module_name) {
            Ok(d) => d,
            Err(e) => {
                return Err(e);
            },
        };
        self.dll = dll;
        self.dll.functions.init = attempt(&mut self.dll, src, "il2cpp_init");
        self.dll.functions.shutdown = attempt(&mut self.dll, src, "il2cpp_shutdown");
        self.dll.functions.get_domain = attempt(&mut self.dll, src, "il2cpp_domain_get");
        self.dll.functions.thread_attach = attempt(&mut self.dll, src, "il2cpp_thread_attach");
        self.dll.functions.thread_detach = attempt(&mut self.dll, src, "il2cpp_thread_detach");
        self.dll.functions.assembly_get_image = attempt(&mut self.dll, src, "il2cpp_assembly_get_image");
        self.dll.functions.class_from_name = attempt(&mut self.dll, src, "il2cpp_class_from_name");
        self.dll.functions.class_get_methods = attempt(&mut self.dll, src, "il2cpp_class_get_methods");
        self.dll.functions.class_get_name = attempt(&mut self.dll, src, "il2cpp_class_get_name");
        self.dll.functions.class_get_namespace = attempt(&mut self.dll, src, "il2cpp_class_get_namespace");
        self.dll.functions.class_get_parent = attempt(&mut self.dll, src, "il2cpp_class_get_parent");
        self.dll.functions.class_get_type = attempt(&mut self.dll, src, "il2cpp_class_get_type");
        self.dll.functions.method_get_name = attempt(&mut self.dll, src, "il2cpp_method_get_name");
        self.dll.functions.domain_get_assemblies = attempt(&mut self.dll, src, "il2cpp_domain_get_assemblies");
        self.dll.functions.image_get_name = attempt(&mut self.dll, src, "il2cpp_image_get_name");
        self.dll.functions.image_get_filename = attempt(&mut self.dll, src, "il2cpp_image_get_filename");
        self.dll.functions.image_get_class = attempt(&mut self.dll, src, "il2cpp_image_get_class");
        self.dll.functions.image_get_class_count = attempt(&mut self.dll, src, "il2cpp_image_get_class_count");
        self.dll.functions.class_get_fields = attempt(&mut self.dll, src, "il2cpp_class_get_fields");
        self.dll.functions.field_get_name = attempt(&mut self.dll, src, "il2cpp_field_get_name");
        self.dll.functions.field_get_offset = attempt(&mut self.dll, src, "il2cpp_field_get_offset");
        self.dll.functions.field_get_type = attempt(&mut self.dll, src, "il2cpp_field_get_type");
        self.dll.functions.method_get_param_count = attempt(&mut self.dll, src, "il2cpp_method_get_param_count");
        self.dll.functions.method_get_param_name = attempt(&mut self.dll, src, "il2cpp_method_get_param_name");
        self.dll.functions.method_get_return_type = attempt(&mut self.dll, src, "il2cpp_method_get_return_type");
        self.dll.functions.method_get_flags = attempt(&mut self.dll, src, "il2cpp_method_get_flags");
        self.dll.functions.method_get_param = attempt(&mut self.dll, src, "il2cpp_method_get_param");
        self.dll.functions.type_get_name = attempt(&mut self.dll, src, "il2cpp_type_get_name");
        self.dll.functions.type_get_object = attempt(&mut self.dll, src, "il2cpp_type_get_object");

        let f = &self.dll.functions;
        let complete = f.init.is_some() && f.shutdown.is_some() && f.get_domain.is_some()
            && f.domain_get_assemblies.is_some() && f.assembly_get_image.is_some()
            && f.image_get_name.is_some() && f.class_from_name.is_some();
        if complete {
            Ok(())
        } else {
            let mut missing: Vec<String> = Vec::new();
            if f.init.is_none() {
                missing.push(String::from_str("il2cpp_init"));
            }
            if f.shutdown.is_none() {
                missing.push(String::from_str("il2cpp_shutdown"));
            }
            if f.get_domain.is_none() {
                missing.push(String::from_str("il2cpp_domain_get"));
            }
            if f.domain_get_assemblies.is_none() {
                missing.push(String::from_str("il2cpp_domain_get_assemblies"));
            }
            if f.assembly_get_image.is_none() {
                missing.push(String::from_str("il2cpp_assembly_get_image"));
            }
            if f.image_get_name.is_none() {
                missing.push(String::from_str("il2cpp_image_get_name"));
            }
            if f.class_from_name.is_none() {
                missing.push(String::from_str("il2cpp_class_from_name"));
            }
            Err(Error::EssentialApiMissing(missing))
        }
    }
}

/// Resolve the whole native interface strictly: bind the module, warm the
/// symbol cache with every required export (failing fast on the first gap),
/// then fill the typed table completely.
pub fn initialize_il2cpp<S: SymbolSource>(src: &S, module_name: &str) -> (r: Result<Il2CppDll, Error>)
    ensures
        r matches Ok(d) ==> {
            &&& all_resolved(d.functions)
            &&& d.module.addr != 0
            &&& d.name@ == module_name@
            &&& forall|j: int|
                0 <= j < crate::resolver::required_names().len() ==> crate::resolver::cache_contains(
                    d.cache@,
                    crate::resolver::required_names()[j],
                )
        },
        r matches Err(e) ==> (e == Error::ModuleNotFound || e matches Error::EssentialApiMissing(_)
            || e matches Error::SymbolNotResolved(_)),
{
    let mut dll = match Il2CppDll::new(src, module_name) {
        Ok(d) => d,
        Err(e) => {
            return Err(e);
        },
    };
    match dll.cache_function_addresses(src) {
        Ok(_) => {},
        Err(e) => {
            return Err(e);
        },
    }
    let ghost warmed = dll.cache@;
    match dll.cache_functions(src) {
        Ok(_) => {},
        Err(e) => {
            return Err(e);
        },
    }
    proof {
        assert forall|j: int|
            0 <= j < crate::resolver::required_names().len() implies crate::resolver::cache_contains(
            dll.cache@,
            crate::resolver::required_names()[j],
        ) by {
            let i = choose|i: int|
                0 <= i < warmed.len() && warmed[i].0@ == crate::resolver::required_names()[j];
            assert(dll.cache@[i] == warmed[i]);
        }
    }
    Ok(dll)
}

} // verus!
