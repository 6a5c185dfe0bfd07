//! The engine-object view: the layout every engine-side object begins
//! with, directly after the managed-object header.

use vstd::prelude::*;

verus! {

use crate::classes::il2cpp_view::Il2CppView;

/// A typed overlay over a live engine object.
#[derive(Debug, Clone, Copy, PartialEq, Eq, Structural)]
pub struct UnityObject {
    pub addr: usize,
}

impl Il2CppView for UnityObject {
    open spec fn addr_spec(&self) -> usize {
        self.addr
    }

    fn from_ptr(addr: usize) -> (r: Option<UnityObject>) {
        if addr == 0 {
            None
        } else {
            Some(UnityObject { addr })
        }
    }

    fn as_ptr(&self) -> (r: usize) {
        self.addr
    }

    fn as_il2cpp_object(&self) -> (r: usize) {
        self.addr
    }
}

impl UnityObject {
    /// The managed address of the engine object, unchanged.
    pub fn managed_ptr(&self) -> (r: usize)
        ensures
            r == self.addr,
    {
        self.addr
    }
}

} // verus!
