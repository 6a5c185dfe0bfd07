//! The seams through which the library reaches the foreign runtime.
//!
//! Everything native — symbol lookup in the host process and calls through
//! resolved C function pointers — happens behind the two traits below.  Their
//! methods carry no contracts at all: the library's own proofs therefore hold
//! for every possible behaviour of the native side, and a test double can
//! drive the verified walk with scripted answers.
//!
//! The host implements both traits over the real platform primitives; the
//! library never sees a raw pointer, only [`Handle`] values and plain data.

use vstd::prelude::*;

verus! {

use crate::handle::Handle;

/// The result of reading a native C string: the pointer was null, the bytes
/// were not valid text, or the decoded text itself.
#[derive(Debug, Clone, PartialEq, Eq)]
pub enum CText {
    Absent,
    Invalid,
    Text(String),
}

/// Resolution of named exports: a module by name in the current process, and
/// a symbol by name within a module.  Mirrors the two primitives the
/// surrounding process must supply.  `None` stands for "not found"; a null
/// result is reported as `None` as well.
pub trait SymbolSource {
    /// Locate a loaded module by name.
    fn find_module(&self, module_name: &str) -> Option<Handle>;

    /// Locate an export of `module` by symbol name.
    fn find_symbol(&self, module: Handle, symbol_name: &str) -> Option<Handle>;
}

/// Invocation of already-resolved native functions, grouped by signature
/// shape.  Every method takes the resolved function as its first argument and
/// traffics only in plain values; decoding of C strings and of raw handle
/// arrays happens on the host side.
pub trait NativeInvoker {
    /// `() -> ()`: process-level init and shutdown entry points.
    fn call_unit(&self, func: Handle);

    /// `() -> handle`: fetch the current domain.
    fn call_get_handle(&self, func: Handle) -> Handle;

    /// `(handle) -> ()`: detach a thread.
    fn call_handle_arg(&self, func: Handle, arg: Handle);

    /// `(handle) -> handle`: thread attach, assembly to image, class to
    /// parent, class to type, field to type, method to return type, type to
    /// reflection object.
    fn call_handle_to_handle(&self, func: Handle, arg: Handle) -> Handle;

    /// `(handle) -> C string`: the name accessors.
    fn call_handle_to_text(&self, func: Handle, arg: Handle) -> CText;

    /// `(handle) -> i32`: the field offset accessor.
    fn call_handle_to_i32(&self, func: Handle, arg: Handle) -> i32;

    /// `(handle) -> usize`: the class count of an image.
    fn call_handle_to_usize(&self, func: Handle, arg: Handle) -> usize;

    /// `(handle, usize) -> handle`: a class of an image by index.
    fn call_handle_index_to_handle(&self, func: Handle, arg: Handle, index: usize) -> Handle;

    /// `(handle, *cursor) -> handle`: iterator-style member enumeration; the
    /// native side advances the cursor and returns null when exhausted.
    fn call_cursor(&self, func: Handle, arg: Handle, cursor: &mut Handle) -> Handle;

    /// `(handle) -> u32`: the parameter count of a method.
    fn call_handle_to_u32(&self, func: Handle, arg: Handle) -> u32;

    /// `(handle, u32) -> C string`: a parameter name of a method.
    fn call_handle_u32_to_text(&self, func: Handle, arg: Handle, index: u32) -> CText;

    /// `(handle, u32) -> handle`: a parameter type of a method.
    fn call_handle_u32_to_handle(&self, func: Handle, arg: Handle, index: u32) -> Handle;

    /// `(handle, *i32) -> i32`: the flags of a method, which the native side
    /// also writes through the out-parameter.
    fn call_flags(&self, func: Handle, arg: Handle, iflag: &mut i32) -> i32;

    /// `(handle, cstr, cstr) -> handle`: look a class up by namespace and
    /// name within an image.
    fn call_from_name(&self, func: Handle, image: Handle, namespace: &str, name: &str) -> Handle;

    /// `(handle, *count) -> *handle`: enumerate the assemblies of a domain;
    /// the host decodes the returned counted array into owned handles.
    fn call_enumerate(&self, func: Handle, arg: Handle) -> Vec<Handle>;

    /// Call a managed "find all objects of a type" entry point; the host
    /// decodes the returned managed array into its element handles.
    fn call_find_objects(&self, func: Handle, type_obj: Handle, include_inactive: bool) -> Vec<Handle>;

    /// Call a managed zero-argument instance method that returns an object
    /// pointer, such as a name getter.
    fn call_this_to_handle(&self, func: Handle, this: Handle) -> Handle;

    /// Read the native function pointer out of a method-info structure.  This
    /// is a raw memory read at a fixed, ABI-defined offset of the foreign
    /// runtime's method layout; the host must keep it isolated in one place.
    fn read_method_function_pointer(&self, method: Handle) -> Handle;

    /// Read the two-word object header (class pointer and monitor) at the
    /// given object address.
    fn read_object_header(&self, obj: Handle) -> crate::classes::object::ObjectInner;

    /// Read the inline length-prefixed UTF-16 string at the given address
    /// into an owned copy of its layout.
    fn read_string(&self, s: Handle) -> crate::classes::string::Il2CppString;
}

} // verus!
