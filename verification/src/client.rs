//! The runtime client: one function per native capability.
//!
//! The `il2cpp_*` functions are the raw layer: they check that the entry
//! point was resolved and forward the call, handing back the undecoded
//! result (a handle, an integer, or a [`CText`]).  The remaining functions
//! are the friendly layer: they additionally turn a null or undecodable
//! C-string result into the appropriate error.  Every function here fails
//! with `SymbolNotResolved` exactly when its entry point is absent from the
//! table, and never invokes an unresolved entry.

use vstd::prelude::*;

verus! {

use vstd::string::*;

use crate::error::Error;
use crate::functions::Il2CppFunctions;
use crate::handle::Handle;
use crate::native::{CText, NativeInvoker, SymbolSource};
use crate::resolver::Il2CppDll;

/// The error used when an entry point has not been resolved.
fn sym_missing(name: &str) -> (e: Error)
    ensures
        e matches Error::SymbolNotResolved(s) && s@ == name@,
{
    Error::SymbolNotResolved(String::from_str(name))
}

/// Turn a raw C-string result into text, or the error owed for it: a null
/// result where `what` was required, or a decode failure.
pub fn require_text(t: CText, what: &str) -> (r: Result<String, Error>)
    ensures
        t matches CText::Text(s) ==> r == Ok::<String, Error>(s),
        t is Absent ==> (r matches Err(e) && e matches Error::NullNativeResult(w) && w@ == what@),
        t is Invalid ==> r == Err::<String, Error>(Error::StringDecodeFailure),
{
    match t {
        CText::Text(s) => Ok(s),
        CText::Absent => Err(Error::NullNativeResult(String::from_str(what))),
        CText::Invalid => Err(Error::StringDecodeFailure),
    }
}

/// Raw `il2cpp_init`: process-level runtime init.
pub fn il2cpp_init<I: NativeInvoker>(inv: &I, funcs: &Il2CppFunctions) -> (r: Result<(), Error>)
    ensures
        r is Err <==> funcs.init is None,
        r matches Err(e) ==> (e matches Error::SymbolNotResolved(s) && s@ == "il2cpp_init"@),
{
    match funcs.init {
        Some(f) => {
            inv.call_unit(f);
            Ok(())
        },
        None => Err(sym_missing("il2cpp_init")),
    }
}

/// Raw `il2cpp_shutdown`: process-level runtime shutdown.
pub fn il2cpp_shutdown<I: NativeInvoker>(inv: &I, funcs: &Il2CppFunctions) -> (r: Result<(), Error>)
    ensures
        r is Err <==> funcs.shutdown is None,
        r matches Err(e) ==> (e matches Error::SymbolNotResolved(s) && s@ == "il2cpp_shutdown"@),
{
    match funcs.shutdown {
        Some(f) => {
            inv.call_unit(f);
            Ok(())
        },
        None => Err(sym_missing("il2cpp_shutdown")),
    }
}

/// Raw `il2cpp_domain_get`: the current domain.
pub fn il2cpp_domain_get<I: NativeInvoker>(inv: &I, funcs: &Il2CppFunctions) -> (r: Result<Handle, Error>)
    ensures
        r is Err <==> funcs.get_domain is None,
        r matches Err(e) ==> (e matches Error::SymbolNotResolved(s) && s@ == "il2cpp_domain_get"@),
{
    match funcs.get_domain {
        Some(f) => Ok(inv.call_get_handle(f)),
        None => Err(sym_missing("il2cpp_domain_get")),
    }
}

/// Raw `il2cpp_thread_attach`: attach the calling thread to a domain.
pub fn il2cpp_thread_attach<I: NativeInvoker>(inv: &I, funcs: &Il2CppFunctions, domain: Handle) -> (r: Result<
    Handle,
    Error,
>)
    ensures
        r is Err <==> funcs.thread_attach is None,
        r matches Err(e) ==> (e matches Error::SymbolNotResolved(s) && s@ == "il2cpp_thread_attach"@),
{
    match funcs.thread_attach {
        Some(f) => Ok(inv.call_handle_to_handle(f, domain)),
        None => Err(sym_missing("il2cpp_thread_attach")),
    }
}

/// Raw `il2cpp_thread_detach`: detach a previously attached thread.
pub fn il2cpp_thread_detach<I: NativeInvoker>(inv: &I, funcs: &Il2CppFunctions, thread: Handle) -> (r: Result<
    (),
    Error,
>)
    ensures
        r is Err <==> funcs.thread_detach is None,
        r matches Err(e) ==> (e matches Error::SymbolNotResolved(s) && s@ == "il2cpp_thread_detach"@),
{
    match funcs.thread_detach {
        Some(f) => {
            inv.call_handle_arg(f, thread);
            Ok(())
        },
        None => Err(sym_missing("il2cpp_thread_detach")),
    }
}

/// Raw `il2cpp_assembly_get_image`: the image of an assembly.
pub fn il2cpp_assembly_get_image<I: NativeInvoker>(
    inv: &I,
    funcs: &Il2CppFunctions,
    assembly: Handle,
) -> (r: Result<Handle, Error>)
    ensures
        r is Err <==> funcs.assembly_get_image is None,
        r matches Err(e) ==> (e matches Error::SymbolNotResolved(s) && s@ == "il2cpp_assembly_get_image"@),
{
    match funcs.assembly_get_image {
        Some(f) => Ok(inv.call_handle_to_handle(f, assembly)),
        None => Err(sym_missing("il2cpp_assembly_get_image")),
    }
}

/// Raw `il2cpp_class_from_name`: a class by namespace and name.
pub fn il2cpp_class_from_name<I: NativeInvoker>(
    inv: &I,
    funcs: &Il2CppFunctions,
    image: Handle,
    namespace: &str,
    name: &str,
) -> (r: Result<Handle, Error>)
    ensures
        r is Err <==> funcs.class_from_name is None,
        r matches Err(e) ==> (e matches Error::SymbolNotResolved(s) && s@ == "il2cpp_class_from_name"@),
{
    match funcs.class_from_name {
        Some(f) => Ok(inv.call_from_name(f, image, namespace, name)),
        None => Err(sym_missing("il2cpp_class_from_name")),
    }
}

/// Raw `il2cpp_class_get_methods`: one step of the method iterator.
pub fn il2cpp_class_get_methods<I: NativeInvoker>(
    inv: &I,
    funcs: &Il2CppFunctions,
    klass: Handle,
    iter: &mut Handle,
) -> (r: Result<Handle, Error>)
    ensures
        r is Err <==> funcs.class_get_methods is None,
        r matches Err(e) ==> (e matches Error::SymbolNotResolved(s) && s@ == "il2cpp_class_get_methods"@),
        funcs.class_get_methods is None ==> *final(iter) == *old(iter),
{
    match funcs.class_get_methods {
        Some(f) => Ok(inv.call_cursor(f, klass, iter)),
        None => Err(sym_missing("il2cpp_class_get_methods")),
    }
}

/// Raw `il2cpp_class_get_name`.
pub fn il2cpp_class_get_name<I: NativeInvoker>(inv: &I, funcs: &Il2CppFunctions, klass: Handle) -> (r: Result<
    CText,
    Error,
>)
    ensures
        r is Err <==> funcs.class_get_name is None,
        r matches Err(e) ==> (e matches Error::SymbolNotResolved(s) && s@ == "il2cpp_class_get_name"@),
{
    match funcs.class_get_name {
        Some(f) => Ok(inv.call_handle_to_text(f, klass)),
        None => Err(sym_missing("il2cpp_class_get_name")),
    }
}

/// Raw `il2cpp_class_get_namespace`.
pub fn il2cpp_class_get_namespace<I: NativeInvoker>(
    inv: &I,
    funcs: &Il2CppFunctions,
    klass: Handle,
) -> (r: Result<CText, Error>)
    ensures
        r is Err <==> funcs.class_get_namespace is None,
        r matches Err(e) ==> (e matches Error::SymbolNotResolved(s) && s@ == "il2cpp_class_get_namespace"@),
{
    match funcs.class_get_namespace {
        Some(f) => Ok(inv.call_handle_to_text(f, klass)),
        None => Err(sym_missing("il2cpp_class_get_namespace")),
    }
}

/// Raw `il2cpp_class_get_parent`.
pub fn il2cpp_class_get_parent<I: NativeInvoker>(inv: &I, funcs: &Il2CppFunctions, klass: Handle) -> (r: Result<
    Handle,
    Error,
>)
    ensures
        r is Err <==> funcs.class_get_parent is None,
        r matches Err(e) ==> (e matches Error::SymbolNotResolved(s) && s@ == "il2cpp_class_get_parent"@),
{
    match funcs.class_get_parent {
        Some(f) => Ok(inv.call_handle_to_handle(f, klass)),
        None => Err(sym_missing("il2cpp_class_get_parent")),
    }
}

/// Raw `il2cpp_method_get_name`.
pub fn il2cpp_method_get_name<I: NativeInvoker>(inv: &I, funcs: &Il2CppFunctions, method: Handle) -> (r: Result<
    CText,
    Error,
>)
    ensures
        r is Err <==> funcs.method_get_name is None,
        r matches Err(e) ==> (e matches Error::SymbolNotResolved(s) && s@ == "il2cpp_method_get_name"@),
{
    match funcs.method_get_name {
        Some(f) => Ok(inv.call_handle_to_text(f, method)),
        None => Err(sym_missing("il2cpp_method_get_name")),
    }
}

/// Raw `il2cpp_domain_get_assemblies`: the counted assembly array of a
/// domain, decoded by the host into owned handles.
pub fn il2cpp_domain_get_assemblies<I: NativeInvoker>(
    inv: &I,
    funcs: &Il2CppFunctions,
    domain: Handle,
) -> (r: Result<Vec<Handle>, Error>)
    ensures
        r is Err <==> funcs.domain_get_assemblies is None,
        r matches Err(e) ==> (e matches Error::SymbolNotResolved(s) && s@ == "il2cpp_domain_get_assemblies"@),
{
    match funcs.domain_get_assemblies {
        Some(f) => Ok(inv.call_enumerate(f, domain)),
        None => Err(sym_missing("il2cpp_domain_get_assemblies")),
    }
}

/// Raw `il2cpp_image_get_name`.
pub fn il2cpp_image_get_name<I: NativeInvoker>(inv: &I, funcs: &Il2CppFunctions, image: Handle) -> (r: Result<
    CText,
    Error,
>)
    ensures
        r is Err <==> funcs.image_get_name is None,
        r matches Err(e) ==> (e matches Error::SymbolNotResolved(s) && s@ == "il2cpp_image_get_name"@),
{
    match funcs.image_get_name {
        Some(f) => Ok(inv.call_handle_to_text(f, image)),
        None => Err(sym_missing("il2cpp_image_get_name")),
    }
}

/// Raw `il2cpp_image_get_filename`.
pub fn il2cpp_image_get_filename<I: NativeInvoker>(
    inv: &I,
    funcs: &Il2CppFunctions,
    image: Handle,
) -> (r: Result<CText, Error>)
    ensures
        r is Err <==> funcs.image_get_filename is None,
        r matches Err(e) ==> (e matches Error::SymbolNotResolved(s) && s@ == "il2cpp_image_get_filename"@),
{
    match funcs.image_get_filename {
        Some(f) => Ok(inv.call_handle_to_text(f, image)),
        None => Err(sym_missing("il2cpp_image_get_filename")),
    }
}

/// Raw `il2cpp_image_get_class`: a class of an image by index.
pub fn il2cpp_image_get_class<I: NativeInvoker>(
    inv: &I,
    funcs: &Il2CppFunctions,
    image: Handle,
    index: usize,
) -> (r: Result<Handle, Error>)
    ensures
        r is Err <==> funcs.image_get_class is None,
        r matches Err(e) ==> (e matches Error::SymbolNotResolved(s) && s@ == "il2cpp_image_get_class"@),
{
    match funcs.image_get_class {
        Some(f) => Ok(inv.call_handle_index_to_handle(f, image, index)),
        None => Err(sym_missing("il2cpp_image_get_class")),
    }
}

/// Raw `il2cpp_image_get_class_count`.
pub fn il2cpp_image_get_class_count<I: NativeInvoker>(
    inv: &I,
    funcs: &Il2CppFunctions,
    image: Handle,
) -> (r: Result<usize, Error>)
    ensures
        r is Err <==> funcs.image_get_class_count is None,
        r matches Err(e) ==> (e matches Error::SymbolNotResolved(s) && s@ == "il2cpp_image_get_class_count"@),
{
    match funcs.image_get_class_count {
        Some(f) => Ok(inv.call_handle_to_usize(f, image)),
        None => Err(sym_missing("il2cpp_image_get_class_count")),
    }
}

/// Raw `il2cpp_class_get_fields`: one step of the field iterator.
pub fn il2cpp_class_get_fields<I: NativeInvoker>(
    inv: &I,
    funcs: &Il2CppFunctions,
    klass: Handle,
    iter: &mut Handle,
) -> (r: Result<Handle, Error>)
    ensures
        r is Err <==> funcs.class_get_fields is None,
        r matches Err(e) ==> (e matches Error::SymbolNotResolved(s) && s@ == "il2cpp_class_get_fields"@),
        funcs.class_get_fields is None ==> *final(iter) == *old(iter),
{
    match funcs.class_get_fields {
        Some(f) => Ok(inv.call_cursor(f, klass, iter)),
        None => Err(sym_missing("il2cpp_class_get_fields")),
    }
}

/// Raw `il2cpp_field_get_name`.
pub fn il2cpp_field_get_name<I: NativeInvoker>(inv: &I, funcs: &Il2CppFunctions, field: Handle) -> (r: Result<
    CText,
    Error,
>)
    ensures
        r is Err <==> funcs.field_get_name is None,
        r matches Err(e) ==> (e matches Error::SymbolNotResolved(s) && s@ == "il2cpp_field_get_name"@),
{
    match funcs.field_get_name {
        Some(f) => Ok(inv.call_handle_to_text(f, field)),
        None => Err(sym_missing("il2cpp_field_get_name")),
    }
}

/// Raw `il2cpp_field_get_offset`.
pub fn il2cpp_field_get_offset<I: NativeInvoker>(inv: &I, funcs: &Il2CppFunctions, field: Handle) -> (r: Result<
    i32,
    Error,
>)
    ensures
        r is Err <==> funcs.field_get_offset is None,
        r matches Err(e) ==> (e matches Error::SymbolNotResolved(s) && s@ == "il2cpp_field_get_offset"@),
{
    match funcs.field_get_offset {
        Some(f) => Ok(inv.call_handle_to_i32(f, field)),
        None => Err(sym_missing("il2cpp_field_get_offset")),
    }
}

/// Raw `il2cpp_field_get_type`.
pub fn il2cpp_field_get_type<I: NativeInvoker>(inv: &I, funcs: &Il2CppFunctions, field: Handle) -> (r: Result<
    Handle,
    Error,
>)
    ensures
        r is Err <==> funcs.field_get_type is None,
        r matches Err(e) ==> (e matches Error::SymbolNotResolved(s) && s@ == "il2cpp_field_get_type"@),
{
    match funcs.field_get_type {
        Some(f) => Ok(inv.call_handle_to_handle(f, field)),
        None => Err(sym_missing("il2cpp_field_get_type")),
    }
}

/// Raw `il2cpp_method_get_param_count`.
pub fn il2cpp_method_get_param_count<I: NativeInvoker>(
    inv: &I,
    funcs: &Il2CppFunctions,
    method: Handle,
) -> (r: Result<u32, Error>)
    ensures
        r is Err <==> funcs.method_get_param_count is None,
        r matches Err(e) ==> (e matches Error::SymbolNotResolved(s) && s@ == "il2cpp_method_get_param_count"@),
{
    match funcs.method_get_param_count {
        Some(f) => Ok(inv.call_handle_to_u32(f, method)),
        None => Err(sym_missing("il2cpp_method_get_param_count")),
    }
}

/// Raw `il2cpp_method_get_param_name`.
pub fn il2cpp_method_get_param_name<I: NativeInvoker>(
    inv: &I,
    funcs: &Il2CppFunctions,
    method: Handle,
    index: u32,
) -> (r: Result<CText, Error>)
    ensures
        r is Err <==> funcs.method_get_param_name is None,
        r matches Err(e) ==> (e matches Error::SymbolNotResolved(s) && s@ == "il2cpp_method_get_param_name"@),
{
    match funcs.method_get_param_name {
        Some(f) => Ok(inv.call_handle_u32_to_text(f, method, index)),
        None => Err(sym_missing("il2cpp_method_get_param_name")),
    }
}

/// Raw `il2cpp_method_get_return_type`.
pub fn il2cpp_method_get_return_type<I: NativeInvoker>(
    inv: &I,
    funcs: &Il2CppFunctions,
    method: Handle,
) -> (r: Result<Handle, Error>)
    ensures
        r is Err <==> funcs.method_get_return_type is None,
        r matches Err(e) ==> (e matches Error::SymbolNotResolved(s) && s@ == "il2cpp_method_get_return_type"@),
{
    match funcs.method_get_return_type {
        Some(f) => Ok(inv.call_handle_to_handle(f, method)),
        None => Err(sym_missing("il2cpp_method_get_return_type")),
    }
}

/// Raw `il2cpp_method_get_flags`.  The native side reports the flags both as
/// the return value and through the out-parameter.
pub fn il2cpp_method_get_flags<I: NativeInvoker>(
    inv: &I,
    funcs: &Il2CppFunctions,
    method: Handle,
    iflag: &mut i32,
) -> (r: Result<i32, Error>)
    ensures
        r is Err <==> funcs.method_get_flags is None,
        r matches Err(e) ==> (e matches Error::SymbolNotResolved(s) && s@ == "il2cpp_method_get_flags"@),
        funcs.method_get_flags is None ==> *final(iflag) == *old(iflag),
{
    match funcs.method_get_flags {
        Some(f) => Ok(inv.call_flags(f, method, iflag)),
        None => Err(sym_missing("il2cpp_method_get_flags")),
    }
}

/// Raw `il2cpp_method_get_param`: a parameter type of a method.
pub fn il2cpp_method_get_param<I: NativeInvoker>(
    inv: &I,
    funcs: &Il2CppFunctions,
    method: Handle,
    index: u32,
) -> (r: Result<Handle, Error>)
    ensures
        r is Err <==> funcs.method_get_param is None,
        r matches Err(e) ==> (e matches Error::SymbolNotResolved(s) && s@ == "il2cpp_method_get_param"@),
{
    match funcs.method_get_param {
        Some(f) => Ok(inv.call_handle_u32_to_handle(f, method, index)),
        None => Err(sym_missing("il2cpp_method_get_param")),
    }
}

/// Raw `il2cpp_type_get_name`.
pub fn il2cpp_type_get_name<I: NativeInvoker>(inv: &I, funcs: &Il2CppFunctions, itype: Handle) -> (r: Result<
    CText,
    Error,
>)
    ensures
        r is Err <==> funcs.type_get_name is None,
        r matches Err(e) ==> (e matches Error::SymbolNotResolved(s) && s@ == "il2cpp_type_get_name"@),
{
    match funcs.type_get_name {
        Some(f) => Ok(inv.call_handle_to_text(f, itype)),
        None => Err(sym_missing("il2cpp_type_get_name")),
    }
}

/// Raw `il2cpp_class_get_type`.
pub fn il2cpp_class_get_type<I: NativeInvoker>(inv: &I, funcs: &Il2CppFunctions, klass: Handle) -> (r: Result<
    Handle,
    Error,
>)
    ensures
        r is Err <==> funcs.class_get_type is None,
        r matches Err(e) ==> (e matches Error::SymbolNotResolved(s) && s@ == "il2cpp_class_get_type"@),
{
    match funcs.class_get_type {
        Some(f) => Ok(inv.call_handle_to_handle(f, klass)),
        None => Err(sym_missing("il2cpp_class_get_type")),
    }
}

/// Raw `il2cpp_type_get_object`: the reflection object of a type.
pub fn il2cpp_type_get_object<I: NativeInvoker>(inv: &I, funcs: &Il2CppFunctions, itype: Handle) -> (r: Result<
    Handle,
    Error,
>)
    ensures
        r is Err <==> funcs.type_get_object is None,
        r matches Err(e) ==> (e matches Error::SymbolNotResolved(s) && s@ == "il2cpp_type_get_object"@),
{
    match funcs.type_get_object {
        Some(f) => Ok(inv.call_handle_to_handle(f, itype)),
        None => Err(sym_missing("il2cpp_type_get_object")),
    }
}

/// Whether an error is one a text accessor may report.
pub open spec fn text_error(e: Error) -> bool {
    ||| e matches Error::SymbolNotResolved(_)
    ||| e matches Error::NullNativeResult(_)
    ||| e == Error::StringDecodeFailure
}

/// The current domain.
pub fn get_domain<I: NativeInvoker>(inv: &I, funcs: &Il2CppFunctions) -> (r: Result<Handle, Error>)
    ensures
        r is Err <==> funcs.get_domain is None,
{
    il2cpp_domain_get(inv, funcs)
}

/// Attach the calling thread to a domain; required before any other call.
pub fn thread_attach<I: NativeInvoker>(inv: &I, funcs: &Il2CppFunctions, domain: Handle) -> (r: Result<
    Handle,
    Error,
>)
    ensures
        r is Err <==> funcs.thread_attach is None,
{
    il2cpp_thread_attach(inv, funcs, domain)
}

/// Detach a previously attached thread.
pub fn thread_detach<I: NativeInvoker>(inv: &I, funcs: &Il2CppFunctions, thread: Handle) -> (r: Result<(), Error>)
    ensures
        r is Err <==> funcs.thread_detach is None,
{
    il2cpp_thread_detach(inv, funcs, thread)
}

/// All assemblies of a domain.  Fails with `DomainUnavailable` on a null
/// domain handle, with `SymbolNotResolved` when the enumeration entry point
/// is absent, and succeeds otherwise.
pub fn domain_get_assemblies<I: NativeInvoker>(
    inv: &I,
    funcs: &Il2CppFunctions,
    domain: Handle,
) -> (r: Result<Vec<Handle>, Error>)
    ensures
        domain.addr == 0 ==> r == Err::<Vec<Handle>, Error>(Error::DomainUnavailable),
        domain.addr != 0 ==> (r is Err <==> funcs.domain_get_assemblies is None),
        domain.addr != 0 ==> (r matches Err(e) ==> e matches Error::SymbolNotResolved(_)),
{
    if domain.is_null() {
        return Err(Error::DomainUnavailable);
    }
    il2cpp_domain_get_assemblies(inv, funcs, domain)
}

/// The image of an assembly.
pub fn assembly_get_image<I: NativeInvoker>(inv: &I, funcs: &Il2CppFunctions, assembly: Handle) -> (r: Result<
    Handle,
    Error,
>)
    ensures
        r is Err <==> funcs.assembly_get_image is None,
{
    il2cpp_assembly_get_image(inv, funcs, assembly)
}

/// The file name of an image, as owned text.
pub fn image_get_filename<I: NativeInvoker>(inv: &I, funcs: &Il2CppFunctions, image: Handle) -> (r: Result<
    String,
    Error,
>)
    ensures
        funcs.image_get_filename is None ==> (r matches Err(e) && e matches Error::SymbolNotResolved(_)),
        r matches Err(e) ==> text_error(e),
{
    match il2cpp_image_get_filename(inv, funcs, image) {
        Ok(t) => require_text(t, "image filename"),
        Err(e) => Err(e),
    }
}

/// The name of an image, as owned text.
pub fn image_get_name<I: NativeInvoker>(inv: &I, funcs: &Il2CppFunctions, image: Handle) -> (r: Result<
    String,
    Error,
>)
    ensures
        funcs.image_get_name is None ==> (r matches Err(e) && e matches Error::SymbolNotResolved(_)),
        r matches Err(e) ==> text_error(e),
{
    match il2cpp_image_get_name(inv, funcs, image) {
        Ok(t) => require_text(t, "image name"),
        Err(e) => Err(e),
    }
}

/// A class of an image by index.
pub fn image_get_class<I: NativeInvoker>(
    inv: &I,
    funcs: &Il2CppFunctions,
    image: Handle,
    index: usize,
) -> (r: Result<Handle, Error>)
    ensures
        r is Err <==> funcs.image_get_class is None,
{
    il2cpp_image_get_class(inv, funcs, image, index)
}

/// The number of classes of an image.
pub fn image_get_class_count<I: NativeInvoker>(inv: &I, funcs: &Il2CppFunctions, image: Handle) -> (r: Result<
    usize,
    Error,
>)
    ensures
        r is Err <==> funcs.image_get_class_count is None,
{
    il2cpp_image_get_class_count(inv, funcs, image)
}

/// A class by namespace and name within an image.
pub fn class_from_name<I: NativeInvoker>(
    inv: &I,
    funcs: &Il2CppFunctions,
    image: Handle,
    namespace: &str,
    name: &str,
) -> (r: Result<Handle, Error>)
    ensures
        r is Err <==> funcs.class_from_name is None,
{
    il2cpp_class_from_name(inv, funcs, image, namespace, name)
}

/// One step of the field iterator of a class.
pub fn class_get_fields<I: NativeInvoker>(
    inv: &I,
    funcs: &Il2CppFunctions,
    klass: Handle,
    iter: &mut Handle,
) -> (r: Result<Handle, Error>)
    ensures
        r is Err <==> funcs.class_get_fields is None,
{
    il2cpp_class_get_fields(inv, funcs, klass, iter)
}

/// The name of a class, as owned text.
pub fn class_get_name<I: NativeInvoker>(inv: &I, funcs: &Il2CppFunctions, klass: Handle) -> (r: Result<
    String,
    Error,
>)
    ensures
        funcs.class_get_name is None ==> (r matches Err(e) && e matches Error::SymbolNotResolved(_)),
        r matches Err(e) ==> text_error(e),
{
    match il2cpp_class_get_name(inv, funcs, klass) {
        Ok(t) => require_text(t, "class name"),
        Err(e) => Err(e),
    }
}

/// The namespace of a class, as owned text.
pub fn class_get_namespace<I: NativeInvoker>(inv: &I, funcs: &Il2CppFunctions, klass: Handle) -> (r: Result<
    String,
    Error,
>)
    ensures
        funcs.class_get_namespace is None ==> (r matches Err(e) && e matches Error::SymbolNotResolved(_)),
        r matches Err(e) ==> text_error(e),
{
    match il2cpp_class_get_namespace(inv, funcs, klass) {
        Ok(t) => require_text(t, "class namespace"),
        Err(e) => Err(e),
    }
}

/// The parent class handle of a class; null when the class has none.
pub fn class_get_parent<I: NativeInvoker>(inv: &I, funcs: &Il2CppFunctions, klass: Handle) -> (r: Result<
    Handle,
    Error,
>)
    ensures
        r is Err <==> funcs.class_get_parent is None,
{
    il2cpp_class_get_parent(inv, funcs, klass)
}

/// One step of the method iterator of a class.
pub fn class_get_methods<I: NativeInvoker>(
    inv: &I,
    funcs: &Il2CppFunctions,
    klass: Handle,
    iter: &mut Handle,
) -> (r: Result<Handle, Error>)
    ensures
        r is Err <==> funcs.class_get_methods is None,
{
    il2cpp_class_get_methods(inv, funcs, klass, iter)
}

/// The underlying type of a class.
pub fn class_get_type<I: NativeInvoker>(inv: &I, funcs: &Il2CppFunctions, klass: Handle) -> (r: Result<
    Handle,
    Error,
>)
    ensures
        r is Err <==> funcs.class_get_type is None,
{
    il2cpp_class_get_type(inv, funcs, klass)
}

/// The name of a field, as owned text.
pub fn field_get_name<I: NativeInvoker>(inv: &I, funcs: &Il2CppFunctions, field: Handle) -> (r: Result<
    String,
    Error,
>)
    ensures
        funcs.field_get_name is None ==> (r matches Err(e) && e matches Error::SymbolNotResolved(_)),
        r matches Err(e) ==> text_error(e),
{
    match il2cpp_field_get_name(inv, funcs, field) {
        Ok(t) => require_text(t, "field name"),
        Err(e) => Err(e),
    }
}

/// The reported offset of a field.
pub fn field_get_offset<I: NativeInvoker>(inv: &I, funcs: &Il2CppFunctions, field: Handle) -> (r: Result<
    i32,
    Error,
>)
    ensures
        r is Err <==> funcs.field_get_offset is None,
{
    il2cpp_field_get_offset(inv, funcs, field)
}

/// The type handle of a field.
pub fn field_get_type<I: NativeInvoker>(inv: &I, funcs: &Il2CppFunctions, field: Handle) -> (r: Result<
    Handle,
    Error,
>)
    ensures
        r is Err <==> funcs.field_get_type is None,
{
    il2cpp_field_get_type(inv, funcs, field)
}

/// The name of a method, as owned text.
pub fn method_get_name<I: NativeInvoker>(inv: &I, funcs: &Il2CppFunctions, method: Handle) -> (r: Result<
    String,
    Error,
>)
    ensures
        funcs.method_get_name is None ==> (r matches Err(e) && e matches Error::SymbolNotResolved(_)),
        r matches Err(e) ==> text_error(e),
{
    match il2cpp_method_get_name(inv, funcs, method) {
        Ok(t) => require_text(t, "method name"),
        Err(e) => Err(e),
    }
}

/// The parameter count of a method.
pub fn method_get_param_count<I: NativeInvoker>(inv: &I, funcs: &Il2CppFunctions, method: Handle) -> (r: Result<
    u32,
    Error,
>)
    ensures
        r is Err <==> funcs.method_get_param_count is None,
{
    il2cpp_method_get_param_count(inv, funcs, method)
}

/// A parameter name of a method, as owned text.
pub fn method_get_param_name<I: NativeInvoker>(
    inv: &I,
    funcs: &Il2CppFunctions,
    method: Handle,
    index: u32,
) -> (r: Result<String, Error>)
    ensures
        funcs.method_get_param_name is None ==> (r matches Err(e) && e matches Error::SymbolNotResolved(_)),
        r matches Err(e) ==> text_error(e),
{
    match il2cpp_method_get_param_name(inv, funcs, method, index) {
        Ok(t) => require_text(t, "method param name"),
        Err(e) => Err(e),
    }
}

/// The return type handle of a method.
pub fn method_get_return_type<I: NativeInvoker>(inv: &I, funcs: &Il2CppFunctions, method: Handle) -> (r: Result<
    Handle,
    Error,
>)
    ensures
        r is Err <==> funcs.method_get_return_type is None,
{
    il2cpp_method_get_return_type(inv, funcs, method)
}

/// The flags of a method.
pub fn method_get_flags<I: NativeInvoker>(
    inv: &I,
    funcs: &Il2CppFunctions,
    method: Handle,
    iflag: &mut i32,
) -> (r: Result<i32, Error>)
    ensures
        r is Err <==> funcs.method_get_flags is None,
{
    il2cpp_method_get_flags(inv, funcs, method, iflag)
}

/// A parameter type handle of a method.
pub fn method_get_param<I: NativeInvoker>(
    inv: &I,
    funcs: &Il2CppFunctions,
    method: Handle,
    index: u32,
) -> (r: Result<Handle, Error>)
    ensures
        r is Err <==> funcs.method_get_param is None,
{
    il2cpp_method_get_param(inv, funcs, method, index)
}

/// The name of a type, as owned text.
pub fn type_get_name<I: NativeInvoker>(inv: &I, funcs: &Il2CppFunctions, itype: Handle) -> (r: Result<
    String,
    Error,
>)
    ensures
        funcs.type_get_name is None ==> (r matches Err(e) && e matches Error::SymbolNotResolved(_)),
        r matches Err(e) ==> text_error(e),
{
    match il2cpp_type_get_name(inv, funcs, itype) {
        Ok(t) => require_text(t, "type name"),
        Err(e) => Err(e),
    }
}

/// The reflection object handle of a type.
pub fn type_get_object<I: NativeInvoker>(inv: &I, funcs: &Il2CppFunctions, itype: Handle) -> (r: Result<
    Handle,
    Error,
>)
    ensures
        r is Err <==> funcs.type_get_object is None,
{
    il2cpp_type_get_object(inv, funcs, itype)
}

/// Strictly resolve the whole native interface from the named module.
pub fn init<S: SymbolSource>(src: &S, module_name: &str) -> (r: Result<Il2CppDll, Error>)
    ensures
        r matches Ok(d) ==> {
            &&& crate::functions::all_resolved(d.functions)
            &&& d.module.addr != 0
            &&& d.name@ == module_name@
            &&& forall|j: int|
                0 <= j < crate::resolver::required_names().len() ==> crate::resolver::cache_contains(
                    d.cache@,
                    crate::resolver::required_names()[j],
                )
        },
        r matches Err(e) ==> (e == Error::ModuleNotFound || e matches Error::EssentialApiMissing(_)
            || e matches Error::SymbolNotResolved(_)),
{
    crate::api::initialize_il2cpp(src, module_name)
}

} // verus!
