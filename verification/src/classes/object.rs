//! The managed-object base layout and its view.
//!
//! Every foreign managed object begins with a class pointer and a monitor
//! slot; [`ObjectInner`] models that header as plain values, and
//! [`ObjectView`] is the typed overlay over a live object's address.

use vstd::prelude::*;

verus! {

use vstd::string::*;

use crate::cache::{assembly_first, has_assembly_named, Cache};
use crate::classes::assembly::class_first;
use crate::classes::class::{method_first, views_of};
use crate::classes::il2cpp_view::{Il2CppView, Il2CppViewCast};
use crate::classes::string::Il2CppStr;
use crate::error::Error;
use crate::handle::Handle;
use crate::native::NativeInvoker;

/// Opaque synchronisation data behind an object's monitor slot; never
/// dereferenced by this library.
#[derive(Debug, Clone, Copy)]
pub struct MonitorData {}

/// The two-word header every managed object begins with.
#[derive(Debug, Clone, Copy, PartialEq, Eq, Structural)]
pub struct ObjectInner {
    pub klass: Handle,
    pub monitor: Handle,
}

/// A typed overlay over a live managed object.
#[derive(Debug, Clone, Copy, PartialEq, Eq, Structural)]
pub struct ObjectView {
    pub addr: usize,
}

/// Alias under the managed-object name.
pub type Object = ObjectView;

impl Il2CppView for ObjectView {
    open spec fn addr_spec(&self) -> usize {
        self.addr
    }

    fn from_ptr(addr: usize) -> (r: Option<ObjectView>) {
        if addr == 0 {
            None
        } else {
            Some(ObjectView { addr })
        }
    }

    fn as_ptr(&self) -> (r: usize) {
        self.addr
    }

    fn as_il2cpp_object(&self) -> (r: usize) {
        self.addr
    }
}

/// The object views of the non-null handles of `s`, in order.
pub open spec fn nonnull_views(s: Seq<Handle>) -> Seq<ObjectView>
    decreases s.len(),
{
    if s.len() == 0 {
        Seq::empty()
    } else {
        let rest = nonnull_views(s.drop_last());
        if s.last().addr != 0 {
            rest.push(ObjectView { addr: s.last().addr })
        } else {
            rest
        }
    }
}

/// Wrap every non-null handle of `handles` as an object view, in order,
/// dropping the null ones.
pub fn views_from_handles(handles: &Vec<Handle>) -> (r: Vec<ObjectView>)
    ensures
        r@ == nonnull_views(handles@),
        forall|i: int| 0 <= i < r@.len() ==> #[trigger] r@[i].addr != 0,
{
    let n = handles.len();
    let mut r: Vec<ObjectView> = Vec::new();
    let mut i: usize = 0;
    proof {
        assert(handles@.take(0) =~= Seq::<Handle>::empty());
        assert(r@ =~= nonnull_views(handles@.take(0)));
    }
    while i < n
        invariant
            i <= n,
            n == handles@.len(),
            r@ == nonnull_views(handles@.take(i as int)),
            forall|k: int| 0 <= k < r@.len() ==> #[trigger] r@[k].addr != 0,
        decreases n - i,
    {
        let ghost prefix = handles@.take(i as int);
        let h = handles[i];
        if !h.is_null() {
            r.push(ObjectView { addr: h.addr });
        }
        proof {
            let ext = handles@.take(i + 1);
            assert(ext.drop_last() =~= prefix);
            assert(ext.last() == handles@[i as int]);
        }
        i = i + 1;
    }
    proof {
        assert(handles@.take(n as int) =~= handles@);
    }
    r
}

/// The native entry point a name lookup on a live object would invoke,
/// resolved through the cache: the first engine core assembly, its first
/// `Object` class, that class's first zero-parameter `get_name` method, and
/// that method's stored entry point where it is non-null.
pub open spec fn get_name_entry(cache: Cache) -> Option<Handle> {
    match assembly_first(cache.assemblies@, "UnityEngine.CoreModule.dll"@) {
        Some(a) => match class_first(a.classes@, "Object"@) {
            Some(c) => match method_first(c.methods@, "get_name"@, Seq::<Seq<char>>::empty()) {
                Some(m) => if m.function.addr != 0 {
                    Some(m.function)
                } else {
                    None
                },
                None => None,
            },
            None => None,
        },
        None => None,
    }
}

/// The native entry point the live-object search would invoke, resolved
/// through the cache: the first engine core assembly, its first `Object`
/// class, that class's first matching find method, and that method's stored
/// entry point where it is non-null.
pub open spec fn find_objects_entry(cache: Cache) -> Option<Handle> {
    match assembly_first(cache.assemblies@, "UnityEngine.CoreModule.dll"@) {
        Some(a) => match class_first(a.classes@, "Object"@) {
            Some(c) => match method_first(
                c.methods@,
                "FindObjectsOfType"@,
                seq!["System.Type"@, "System.Boolean"@],
            ) {
                Some(m) => if m.function.addr != 0 {
                    Some(m.function)
                } else {
                    None
                },
                None => None,
            },
            None => None,
        },
        None => None,
    }
}

impl ObjectView {
    /// The object's class pointer, read from its header through the host.
    pub fn klass<I: NativeInvoker>(&self, inv: &I) -> Handle {
        inv.read_object_header(Handle::new(self.addr)).klass
    }

    /// The object's monitor slot, read from its header through the host.
    pub fn monitor<I: NativeInvoker>(&self, inv: &I) -> Handle {
        inv.read_object_header(Handle::new(self.addr)).monitor
    }

    /// The object's display name: looks the managed zero-argument name
    /// getter up in the cache and invokes it through the host, viewing the
    /// returned managed string.
    pub fn get_name<I: NativeInvoker>(&self, inv: &I, cache: &Cache) -> (r: Result<Il2CppStr, Error>)
        ensures
            get_name_entry(*cache) is None ==> r is Err,
            r is Ok ==> get_name_entry(*cache) is Some,
            !has_assembly_named(*cache, "UnityEngine.CoreModule.dll"@) ==> r is Err,
    {
        let assembly = match cache.get_assembly("UnityEngine.CoreModule.dll") {
            Some(a) => a,
            None => {
                return Err(Error::NullNativeResult(String::from_str("UnityEngine.CoreModule.dll")));
            },
        };
        let class = match assembly.get("Object") {
            Some(c) => c,
            None => {
                return Err(Error::NullNativeResult(String::from_str("Object class")));
            },
        };
        let no_args: Vec<&str> = Vec::new();
        let ghost gargs = no_args@;
        proof {
            assert(views_of(gargs) =~= Seq::<Seq<char>>::empty());
        }
        let method = match class.get_method("get_name", no_args) {
            Some(m) => m,
            None => {
                return Err(Error::NullNativeResult(String::from_str("get_name method")));
            },
        };
        let func = method.callable();
        if func.is_null() {
            return Err(Error::NullNativeResult(String::from_str("get_name entry point")));
        }
        let sptr = inv.call_this_to_handle(func, Handle::new(self.addr));
        if sptr.is_null() {
            return Err(Error::NullNativeResult(String::from_str("object name")));
        }
        let raw = inv.read_string(sptr);
        match Il2CppStr::from_ptr(sptr.addr, raw) {
            Some(s) => Ok(s),
            None => Err(Error::StringDecodeFailure),
        }
    }

    /// The general static-enumeration helper: look the managed "find all
    /// objects of a type" entry point up in the cache, invoke it through
    /// the host, and view every non-null element of the returned array.
    pub fn find_objects_of_type<I: NativeInvoker>(
        inv: &I,
        cache: &Cache,
        obj_type: ObjectView,
        include_inactive: bool,
    ) -> (r: Result<Vec<ObjectView>, Error>)
        ensures
            r is Ok <==> find_objects_entry(*cache) is Some,
            r matches Ok(v) ==> forall|i: int| 0 <= i < v@.len() ==> #[trigger] v@[i].addr != 0,
            !has_assembly_named(*cache, "UnityEngine.CoreModule.dll"@) ==> r is Err,
    {
        let assembly = match cache.get_assembly("UnityEngine.CoreModule.dll") {
            Some(a) => a,
            None => {
                return Err(Error::NullNativeResult(String::from_str("UnityEngine.CoreModule.dll")));
            },
        };
        let class = match assembly.get("Object") {
            Some(c) => c,
            None => {
                return Err(Error::NullNativeResult(String::from_str("Object class")));
            },
        };
        let mut arg_types: Vec<&str> = Vec::new();
        arg_types.push("System.Type");
        arg_types.push("System.Boolean");
        let ghost gargs = arg_types@;
        proof {
            assert(views_of(gargs)[0] == gargs[0]@);
            assert(views_of(gargs)[1] == gargs[1]@);
            assert(views_of(gargs) =~= seq!["System.Type"@, "System.Boolean"@]);
        }
        let method = match class.get_method("FindObjectsOfType", arg_types) {
            Some(m) => m,
            None => {
                return Err(Error::NullNativeResult(String::from_str("FindObjectsOfType method")));
            },
        };
        let func = method.callable();
        if func.is_null() {
            return Err(Error::NullNativeResult(String::from_str("FindObjectsOfType entry point")));
        }
        let handles = inv.call_find_objects(func, Handle::new(obj_type.as_ptr()), include_inactive);
        Ok(views_from_handles(&handles))
    }
}

} // verus!
