//! A foreign type reference: its native handle, its display name, and its
//! size where known.  A size of `-1` means "not computed" and must never be
//! treated as a real size.

use vstd::prelude::*;

verus! {

use vstd::string::*;

use crate::handle::Handle;

/// A foreign type: opaque native type handle, name, and optional size.
#[derive(Debug, Clone)]
pub struct TypeInner {
    pub address: Handle,
    pub name: String,
    pub size: isize,
}

impl TypeInner {
    /// The placeholder type: null handle, empty name.
    pub fn default() -> (r: TypeInner)
        ensures
            r.address.addr == 0,
            r.name@ == Seq::<char>::empty(),
            r.size == 0,
    {
        TypeInner { address: Handle::null(), name: String::new(), size: 0 }
    }

    /// A type from its parts.
    pub fn new(address: Handle, name: String, size: isize) -> (r: TypeInner)
        ensures
            r.address == address,
            r.name == name,
            r.size == size,
    {
        TypeInner { address, name, size }
    }
}

} // verus!
