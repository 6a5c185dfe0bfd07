//! A method of a foreign class.
//!
//! The owning class is recorded as the class's stable native handle.  The
//! static classification is derived from bit `0x10` of the reported flags.
//! `function` is the method's native entry point as read out of the foreign
//! method-info layout; it may be null when that read was not performed.

use vstd::prelude::*;

verus! {

use crate::classes::arg::ArgInner;
use crate::classes::itype::TypeInner;
use crate::handle::Handle;

/// A method of a class, with its declared parameters in positional order.
#[derive(Debug, Clone)]
pub struct MethodInner {
    pub address: Handle,
    pub name: String,
    pub class: Handle,
    pub return_type: TypeInner,
    pub flags: i32,
    pub is_static: bool,
    pub function: Handle,
    pub args: Vec<ArgInner>,
}

/// Well-formedness of a method within the class whose handle is `owner`:
/// the back-reference points at the owner, and the static classification
/// agrees with the flags rule.
pub open spec fn method_wf(m: MethodInner, owner: Handle) -> bool {
    &&& m.class == owner
    &&& m.is_static == ((m.flags & 0x10) != 0)
}

impl MethodInner {
    /// A method from its parts.
    pub fn new(
        address: Handle,
        name: String,
        class: Handle,
        return_type: TypeInner,
        flags: i32,
        is_static: bool,
        function: Handle,
        args: Vec<ArgInner>,
    ) -> (r: MethodInner)
        ensures
            r.address == address,
            r.name == name,
            r.class == class,
            r.return_type == return_type,
            r.flags == flags,
            r.is_static == is_static,
            r.function == function,
            r.args == args,
    {
        MethodInner { address, name, class, return_type, flags, is_static, function, args }
    }

    /// The method's native entry point.  Reinterpreting it as a typed
    /// function and calling it is the host's responsibility; a null handle
    /// means the entry point was never read.
    pub fn callable(&self) -> (r: Handle)
        ensures
            r == self.function,
    {
        self.function
    }
}

} // verus!
