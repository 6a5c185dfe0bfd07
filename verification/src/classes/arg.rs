//! A declared parameter of a method: its name and its type.

use vstd::prelude::*;

verus! {

use vstd::string::*;

use crate::classes::itype::TypeInner;

/// A method parameter.
#[derive(Debug, Clone)]
pub struct ArgInner {
    pub name: String,
    pub itype: TypeInner,
}

impl ArgInner {
    /// The placeholder parameter: empty name, placeholder type.
    pub fn default() -> (r: ArgInner)
        ensures
            r.name@ == Seq::<char>::empty(),
            r.itype.address.addr == 0,
            r.itype.name@ == Seq::<char>::empty(),
    {
        ArgInner { name: String::new(), itype: TypeInner::default() }
    }

    /// A parameter from its parts.
    pub fn new(name: String, itype: TypeInner) -> (r: ArgInner)
        ensures
            r.name == name,
            r.itype == itype,
    {
        ArgInner { name, itype }
    }
}

} // verus!
