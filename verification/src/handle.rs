//! Opaque native handles.
//!
//! Every object the foreign runtime hands out (domain, assembly, image,
//! class, field, method, type, thread, object) is identified by a stable
//! native address.  The model never dereferences a handle; it only stores,
//! compares and passes it back.  Address zero is the null sentinel.

use vstd::prelude::*;

verus! {

/// An opaque native address used purely as an identity key into the foreign
/// runtime.  `addr == 0` stands for the null pointer.
#[derive(Clone, Copy, Debug, PartialEq, Eq, Structural)]
pub struct Handle {
    pub addr: usize,
}

impl Handle {
    /// The null handle.
    pub fn null() -> (r: Handle)
        ensures
            r.addr == 0,
    {
        Handle { addr: 0 }
    }

    /// Wrap a raw native address.
    pub fn new(addr: usize) -> (r: Handle)
        ensures
            r.addr == addr,
    {
        Handle { addr }
    }

    /// Whether this is the null sentinel.
    pub fn is_null(&self) -> (r: bool)
        ensures
            r == (self.addr == 0),
    {
        self.addr == 0
    }
}

} // verus!
