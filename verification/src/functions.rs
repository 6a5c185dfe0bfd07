//! The table of resolved native entry points.
//!
//! One optional handle per native capability; `None` means the export has
//! not been resolved (or does not exist in the host module).  The client
//! layer consults this table and fails with a `SymbolNotResolved` error
//! instead of ever invoking an unresolved entry.

use vstd::prelude::*;

verus! {

use crate::handle::Handle;

/// Resolved addresses of the native entry points, one field per capability.
#[derive(Debug, Clone)]
pub struct Il2CppFunctions {
    pub init: Option<Handle>,
    pub shutdown: Option<Handle>,
    pub get_domain: Option<Handle>,
    pub thread_attach: Option<Handle>,
    pub thread_detach: Option<Handle>,
    pub assembly_get_image: Option<Handle>,
    pub class_from_name: Option<Handle>,
    pub class_get_methods: Option<Handle>,
    pub class_get_name: Option<Handle>,
    pub class_get_namespace: Option<Handle>,
    pub class_get_parent: Option<Handle>,
    pub class_get_type: Option<Handle>,
    pub method_get_name: Option<Handle>,
    pub domain_get_assemblies: Option<Handle>,
    pub image_get_name: Option<Handle>,
    pub image_get_filename: Option<Handle>,
    pub image_get_class: Option<Handle>,
    pub image_get_class_count: Option<Handle>,
    pub class_get_fields: Option<Handle>,
    pub field_get_name: Option<Handle>,
    pub field_get_offset: Option<Handle>,
    pub field_get_type: Option<Handle>,
    pub method_get_param_count: Option<Handle>,
    pub method_get_param_name: Option<Handle>,
    pub method_get_return_type: Option<Handle>,
    pub method_get_flags: Option<Handle>,
    pub method_get_param: Option<Handle>,
    pub type_get_name: Option<Handle>,
    pub type_get_object: Option<Handle>,
}

/// No entry point has been resolved yet.
pub open spec fn all_unresolved(f: Il2CppFunctions) -> bool {
    &&& f.init is None
    &&& f.shutdown is None
    &&& f.get_domain is None
    &&& f.thread_attach is None
    &&& f.thread_detach is None
    &&& f.assembly_get_image is None
    &&& f.class_from_name is None
    &&& f.class_get_methods is None
    &&& f.class_get_name is None
    &&& f.class_get_namespace is None
    &&& f.class_get_parent is None
    &&& f.class_get_type is None
    &&& f.method_get_name is None
    &&& f.domain_get_assemblies is None
    &&& f.image_get_name is None
    &&& f.image_get_filename is None
    &&& f.image_get_class is None
    &&& f.image_get_class_count is None
    &&& f.class_get_fields is None
    &&& f.field_get_name is None
    &&& f.field_get_offset is None
    &&& f.field_get_type is None
    &&& f.method_get_param_count is None
    &&& f.method_get_param_name is None
    &&& f.method_get_return_type is None
    &&& f.method_get_flags is None
    &&& f.method_get_param is None
    &&& f.type_get_name is None
    &&& f.type_get_object is None
}

/// Every entry point has been resolved.
pub open spec fn all_resolved(f: Il2CppFunctions) -> bool {
    &&& f.init is Some
    &&& f.shutdown is Some
    &&& f.get_domain is Some
    &&& f.thread_attach is Some
    &&& f.thread_detach is Some
    &&& f.assembly_get_image is Some
    &&& f.class_from_name is Some
    &&& f.class_get_methods is Some
    &&& f.class_get_name is Some
    &&& f.class_get_namespace is Some
    &&& f.class_get_parent is Some
    &&& f.class_get_type is Some
    &&& f.method_get_name is Some
    &&& f.domain_get_assemblies is Some
    &&& f.image_get_name is Some
    &&& f.image_get_filename is Some
    &&& f.image_get_class is Some
    &&& f.image_get_class_count is Some
    &&& f.class_get_fields is Some
    &&& f.field_get_name is Some
    &&& f.field_get_offset is Some
    &&& f.field_get_type is Some
    &&& f.method_get_param_count is Some
    &&& f.method_get_param_name is Some
    &&& f.method_get_return_type is Some
    &&& f.method_get_flags is Some
    &&& f.method_get_param is Some
    &&& f.type_get_name is Some
    &&& f.type_get_object is Some
}

/// The entry points the library cannot operate without.
pub open spec fn essentials_resolved(f: Il2CppFunctions) -> bool {
    &&& f.init is Some
    &&& f.shutdown is Some
    &&& f.get_domain is Some
    &&& f.domain_get_assemblies is Some
    &&& f.assembly_get_image is Some
    &&& f.image_get_name is Some
    &&& f.class_from_name is Some
}

impl Il2CppFunctions {
    /// An empty table: nothing resolved.
    pub fn default() -> (r: Il2CppFunctions)
        ensures
            all_unresolved(r),
    {
        Il2CppFunctions {
            init: None,
            shutdown: None,
            get_domain: None,
            thread_attach: None,
            thread_detach: None,
            assembly_get_image: None,
            class_from_name: None,
            class_get_methods: None,
            class_get_name: None,
            class_get_namespace: None,
            class_get_parent: None,
            class_get_type: None,
            method_get_name: None,
            domain_get_assemblies: None,
            image_get_name: None,
            image_get_filename: None,
            image_get_class: None,
            image_get_class_count: None,
            class_get_fields: None,
            field_get_name: None,
            field_get_offset: None,
            field_get_type: None,
            method_get_param_count: None,
            method_get_param_name: None,
            method_get_return_type: None,
            method_get_flags: None,
            method_get_param: None,
            type_get_name: None,
            type_get_object: None,
        }
    }
}

} // verus!
