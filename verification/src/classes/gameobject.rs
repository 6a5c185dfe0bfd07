//! The scene-object view, and the enumeration of all live scene objects.

use vstd::prelude::*;

verus! {

use vstd::string::*;

use crate::cache::{assembly_first, has_assembly_named, Cache};
use crate::classes::assembly::class_first;
use crate::classes::class::ClassInner;
use crate::classes::il2cpp_view::{Il2CppView, Il2CppViewCast};
use crate::classes::object::ObjectView;
use crate::client;
use crate::error::Error;
use crate::functions::Il2CppFunctions;
use crate::native::NativeInvoker;

/// A typed overlay over a live scene object; its layout begins with the
/// engine-object layout, which begins with the managed-object header.
#[derive(Debug, Clone, Copy, PartialEq, Eq, Structural)]
pub struct GameObjectView {
    pub addr: usize,
}

/// Alias under the plain scene-object name.
pub type GameObject = GameObjectView;

impl Il2CppView for GameObjectView {
    open spec fn addr_spec(&self) -> usize {
        self.addr
    }

    fn from_ptr(addr: usize) -> (r: Option<GameObjectView>) {
        if addr == 0 {
            None
        } else {
            Some(GameObjectView { addr })
        }
    }

    fn as_ptr(&self) -> (r: usize) {
        self.addr
    }

    fn as_il2cpp_object(&self) -> (r: usize) {
        self.addr
    }
}

/// The cached scene-object class the enumeration starts from: the first
/// engine core assembly's first `GameObject` class.
pub open spec fn gameobject_class(cache: Cache) -> Option<ClassInner> {
    match assembly_first(cache.assemblies@, "UnityEngine.CoreModule.dll"@) {
        Some(a) => class_first(a.classes@, "GameObject"@),
        None => None,
    }
}

impl GameObjectView {
    /// Every live scene object: resolve the scene-object class in the
    /// cache, reflect it as a type object through the host, enumerate all
    /// live instances, and view each as a scene object.
    pub fn get_all_gameobjects<I: NativeInvoker>(
        inv: &I,
        funcs: &Il2CppFunctions,
        cache: &Cache,
    ) -> (r: Result<Vec<GameObjectView>, Error>)
        ensures
            r matches Ok(v) ==> forall|i: int| 0 <= i < v@.len() ==> #[trigger] v@[i].addr != 0,
            gameobject_class(*cache) is None ==> r is Err,
            funcs.class_get_type is None ==> r is Err,
            funcs.type_get_object is None ==> r is Err,
            r is Ok ==> crate::classes::object::find_objects_entry(*cache) is Some,
            !has_assembly_named(*cache, "UnityEngine.CoreModule.dll"@) ==> r is Err,
    {
        let assembly = match cache.get_assembly("UnityEngine.CoreModule.dll") {
            Some(a) => a,
            None => {
                return Err(Error::NullNativeResult(String::from_str("UnityEngine.CoreModule.dll")));
            },
        };
        let class = match assembly.get("GameObject") {
            Some(c) => c,
            None => {
                return Err(Error::NullNativeResult(String::from_str("GameObject class")));
            },
        };
        let class_type = match client::class_get_type(inv, funcs, class.address) {
            Ok(t) => t,
            Err(e) => {
                return Err(e);
            },
        };
        let type_obj = match client::type_get_object(inv, funcs, class_type) {
            Ok(o) => o,
            Err(e) => {
                return Err(e);
            },
        };
        let obj_type = match ObjectView::from_ptr(type_obj.addr) {
            Some(o) => o,
            None => {
                return Err(Error::NullNativeResult(String::from_str("GameObject type object")));
            },
        };
        let objs = match ObjectView::find_objects_of_type(inv, cache, obj_type, true) {
            Ok(v) => v,
            Err(e) => {
                return Err(e);
            },
        };
        let n = objs.len();
        let mut out: Vec<GameObjectView> = Vec::new();
        let mut i: usize = 0;
        while i < n
            invariant
                i <= n,
                n == objs@.len(),
                gameobject_class(*cache) is Some,
                crate::classes::object::find_objects_entry(*cache) is Some,
                funcs.class_get_type is Some,
                funcs.type_get_object is Some,
                has_assembly_named(*cache, "UnityEngine.CoreModule.dll"@),
                forall|k: int| 0 <= k < objs@.len() ==> #[trigger] objs@[k].addr != 0,
                forall|k: int| 0 <= k < out@.len() ==> #[trigger] out@[k].addr != 0,
            decreases n - i,
        {
            let v: GameObjectView = objs[i].cast::<GameObjectView>();
            out.push(v);
            i = i + 1;
        }
        Ok(out)
    }
}

} // verus!
