//! The typed-overlay capability: a view is a non-null address interpreted
//! as a known C-compatible layout that the foreign runtime owns.
//!
//! A view never owns or dereferences memory here; it only records the
//! address, round-trips it exactly, and moves between view types that share
//! a memory prefix.  Whoever reinterprets the address asserts that the
//! dynamic foreign object at it is layout-compatible with the destination
//! view's declared layout — the moral equivalent of a downcast by
//! convention in a single-inheritance-style foreign hierarchy.

use vstd::prelude::*;

verus! {

/// The common capability of every typed overlay: construction from a raw
/// address (refusing null), and exact read-back of that address.
pub trait Il2CppView: Sized {
    /// The recorded address.
    spec fn addr_spec(&self) -> usize;

    /// Wrap a raw address; a null address yields no view.
    fn from_ptr(addr: usize) -> (r: Option<Self>)
        ensures
            r is Some <==> addr != 0,
            r matches Some(v) ==> v.addr_spec() == addr,
    ;

    /// The underlying raw address, unchanged, for passing back into native
    /// calls.
    fn as_ptr(&self) -> (r: usize)
        ensures
            r == self.addr_spec(),
    ;

    /// The same address, read as the managed-object base layout every
    /// higher-level foreign type begins with.
    fn as_il2cpp_object(&self) -> (r: usize)
        ensures
            r == self.addr_spec(),
    ;
}

/// Reinterpretation between view types that share a memory prefix.  The
/// caller asserts layout compatibility of the dynamic foreign object; the
/// address itself is preserved exactly.
pub trait Il2CppViewCast: Il2CppView {
    /// Reinterpret this view as another view type.
    fn cast<D: Il2CppView>(&self) -> (r: D)
        requires
            self.addr_spec() != 0,
        ensures
            r.addr_spec() == self.addr_spec(),
    ;

    /// Reinterpret by reference; the result is a fresh view of the same
    /// address.
    fn cast_ref<D: Il2CppView>(&self) -> (r: D)
        requires
            self.addr_spec() != 0,
        ensures
            r.addr_spec() == self.addr_spec(),
    ;
}

impl<T: Il2CppView> Il2CppViewCast for T {
    fn cast<D: Il2CppView>(&self) -> (r: D) {
        let p = self.as_ptr();
        D::from_ptr(p).unwrap()
    }

    fn cast_ref<D: Il2CppView>(&self) -> (r: D) {
        let p = self.as_ptr();
        D::from_ptr(p).unwrap()
    }
}

/// Name lookup for any view: every managed object shares the base layout,
/// so any view can be read as an object and asked for its display name.
pub trait Il2CppViewGetName: Il2CppViewCast {
    /// The object's display name, through the cached name getter.
    fn get_name<I: crate::native::NativeInvoker>(&self, inv: &I, cache: &crate::cache::Cache) -> Result<
        crate::classes::string::Il2CppStr,
        crate::error::Error,
    >
        requires
            self.addr_spec() != 0,
    ;
}

impl<T: Il2CppViewCast> Il2CppViewGetName for T {
    fn get_name<I: crate::native::NativeInvoker>(&self, inv: &I, cache: &crate::cache::Cache) -> Result<
        crate::classes::string::Il2CppStr,
        crate::error::Error,
    > {
        let o: crate::classes::object::ObjectView = self.cast::<crate::classes::object::ObjectView>();
        o.get_name(inv, cache)
    }
}

} // verus!
