//! A field of a foreign class.
//!
//! The owning class is recorded as the class's stable native handle — a
//! value-level back-reference that cannot form an ownership cycle.  The
//! static classification follows the documented foreign-runtime rule: a
//! field is static iff its reported offset is less than or equal to zero,
//! including the edge case of offset exactly zero.

use vstd::prelude::*;

verus! {

use crate::classes::itype::TypeInner;
use crate::handle::Handle;

/// A field of a class.
#[derive(Debug, Clone)]
pub struct FieldInner {
    pub address: Handle,
    pub name: String,
    pub itype: TypeInner,
    pub class: Handle,
    pub offset: i32,
    pub static_field: bool,
    pub vtable: Handle,
}

/// Well-formedness of a field within the class whose handle is `owner`: the
/// back-reference points at the owner, and the static classification agrees
/// with the offset rule.
pub open spec fn field_wf(f: FieldInner, owner: Handle) -> bool {
    &&& f.class == owner
    &&& f.static_field == (f.offset <= 0)
}

impl FieldInner {
    /// A field from its parts.
    pub fn new(
        address: Handle,
        name: String,
        itype: TypeInner,
        class: Handle,
        offset: i32,
        static_field: bool,
        vtable: Handle,
    ) -> (r: FieldInner)
        ensures
            r.address == address,
            r.name == name,
            r.itype == itype,
            r.class == class,
            r.offset == offset,
            r.static_field == static_field,
            r.vtable == vtable,
    {
        FieldInner { address, name, itype, class, offset, static_field, vtable }
    }
}

} // verus!
