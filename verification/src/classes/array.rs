//! The foreign runtime's managed array layout, and its decoded view.
//!
//! [`Il2CppArrayHeader`] models the fixed header (object header, bounds
//! pointer, element count); [`Il2CppArrayView`] is the view over one array
//! at a known address with a captured copy of its elements, consistent with
//! the reported count by construction, so element access is bounds-checked
//! against the real length.

use vstd::prelude::*;

verus! {

use crate::classes::object::ObjectInner;
use crate::handle::Handle;

/// Explicit bounds data of a multi-dimensional managed array.
#[derive(Debug, Clone, Copy, PartialEq, Eq, Structural)]
pub struct Il2CppArrayBounds {
    pub length: usize,
    pub lower_bound: i32,
}

/// The fixed header every managed array begins with.
#[derive(Debug, Clone, Copy, PartialEq, Eq, Structural)]
pub struct Il2CppArrayHeader {
    pub obj: ObjectInner,
    pub bounds: Handle,
    pub max_length: u32,
}

/// Alias under the plain array-layout name.
pub type ArrayInner = Il2CppArrayHeader;

/// A view over a managed array: its address, its header, and a captured
/// copy of its elements, exactly `max_length` of them.
#[derive(Debug, Clone)]
pub struct Il2CppArrayView<T> {
    pub addr: usize,
    pub header: Il2CppArrayHeader,
    pub elems: Vec<T>,
}

/// Alias under the plain array-view name.
pub type Array<T> = Il2CppArrayView<T>;

impl<T> Il2CppArrayView<T> {
    /// View a captured array at an address.  Yields no view for a null
    /// address or when the element copy does not match the reported count.
    pub fn from_ptr(addr: usize, header: Il2CppArrayHeader, elems: Vec<T>) -> (r: Option<
        Il2CppArrayView<T>,
    >)
        ensures
            r is Some <==> (addr != 0 && header.max_length as int == elems@.len()),
            r matches Some(v) ==> {
                &&& v.addr == addr
                &&& v.header == header
                &&& v.elems@ == elems@
            },
    {
        if addr == 0 {
            return None;
        }
        if elems.len() != header.max_length as usize {
            return None;
        }
        Some(Il2CppArrayView { addr, header, elems })
    }

    /// Number of elements.
    pub fn len(&self) -> (r: usize)
        ensures
            r == self.elems@.len(),
    {
        self.elems.len()
    }

    /// Whether the array has no elements.
    pub fn is_empty(&self) -> (r: bool)
        ensures
            r == (self.elems@.len() == 0),
    {
        self.elems.len() == 0
    }

    /// The element at `index`, or nothing at or beyond the length.
    pub fn at(&self, index: usize) -> (r: Option<&T>)
        ensures
            index < self.elems@.len() ==> (r matches Some(e) && *e == self.elems@[index as int]),
            index >= self.elems@.len() ==> r is None,
    {
        if index >= self.elems.len() {
            None
        } else {
            Some(&self.elems[index])
        }
    }

    /// All elements, in order; the way to iterate the view.
    pub fn as_slice(&self) -> (r: &Vec<T>)
        ensures
            r@ == self.elems@,
    {
        &self.elems
    }

    /// All elements, in order.
    pub fn iter(&self) -> (r: &Vec<T>)
        ensures
            r@ == self.elems@,
    {
        &self.elems
    }

    /// The captured fixed header.
    pub fn header(&self) -> (r: &Il2CppArrayHeader)
        ensures
            *r == self.header,
    {
        &self.header
    }

    /// The raw address of the managed array.
    pub fn as_ptr(&self) -> (r: usize)
        ensures
            r == self.addr,
    {
        self.addr
    }
}

} // verus!
