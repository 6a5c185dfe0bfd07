use unityresolve::cache::Cache;
use unityresolve::classes::arg::ArgInner;
use unityresolve::classes::assembly::Assembly;
use unityresolve::classes::class::ClassInner;
use unityresolve::classes::gameobject::GameObjectView;
use unityresolve::classes::il2cpp_view::{Il2CppView, Il2CppViewGetName};
use unityresolve::classes::itype::TypeInner;
use unityresolve::classes::method::MethodInner;
use unityresolve::classes::object::{views_from_handles, ObjectInner, ObjectView};
use unityresolve::classes::string::Il2CppString;
use unityresolve::client;
use unityresolve::error::Error;
use unityresolve::functions::Il2CppFunctions;
use unityresolve::handle::Handle;
use unityresolve::native::{CText, NativeInvoker};
use unityresolve::strutil;

/// A minimal scripted invoker: fixed answers, no state.
struct Mini {
    handle_result: usize,
    text_result: CText,
    find_results: Vec<Handle>,
    this_result: usize,
    string_result: Vec<u16>,
}

impl Mini {
    fn new() -> Mini {
        Mini {
            handle_result: 0x99,
            text_result: CText::Text(String::from("name")),
            find_results: Vec::new(),
            this_result: 0,
            string_result: Vec::new(),
        }
    }
}

impl NativeInvoker for Mini {
    fn call_unit(&self, _func: Handle) {}

    fn call_get_handle(&self, _func: Handle) -> Handle {
        Handle::new(self.handle_result)
    }

    fn call_handle_arg(&self, _func: Handle, _arg: Handle) {}

    fn call_handle_to_handle(&self, _func: Handle, _arg: Handle) -> Handle {
        Handle::new(self.handle_result)
    }

    fn call_handle_to_text(&self, _func: Handle, _arg: Handle) -> CText {
        self.text_result.clone()
    }

    fn call_handle_to_i32(&self, _func: Handle, _arg: Handle) -> i32 {
        -12
    }

    fn call_handle_to_usize(&self, _func: Handle, _arg: Handle) -> usize {
        3
    }

    fn call_handle_index_to_handle(&self, _func: Handle, _arg: Handle, index: usize) -> Handle {
        Handle::new(index + 1)
    }

    fn call_cursor(&self, _func: Handle, _arg: Handle, cursor: &mut Handle) -> Handle {
        *cursor = Handle::new(cursor.addr + 1);
        Handle::new(0)
    }

    fn call_handle_to_u32(&self, _func: Handle, _arg: Handle) -> u32 {
        2
    }

    fn call_handle_u32_to_text(&self, _func: Handle, _arg: Handle, _index: u32) -> CText {
        self.text_result.clone()
    }

    fn call_handle_u32_to_handle(&self, _func: Handle, _arg: Handle, _index: u32) -> Handle {
        Handle::new(self.handle_result)
    }

    fn call_flags(&self, _func: Handle, _arg: Handle, iflag: &mut i32) -> i32 {
        *iflag = 0x16;
        0x16
    }

    fn call_from_name(&self, _func: Handle, _image: Handle, _namespace: &str, _name: &str) -> Handle {
        Handle::new(self.handle_result)
    }

    fn call_enumerate(&self, _func: Handle, _arg: Handle) -> Vec<Handle> {
        vec![Handle::new(11), Handle::new(22)]
    }

    fn call_find_objects(&self, _func: Handle, _type_obj: Handle, _include_inactive: bool) -> Vec<Handle> {
        self.find_results.clone()
    }

    fn call_this_to_handle(&self, _func: Handle, _this: Handle) -> Handle {
        Handle::new(self.this_result)
    }

    fn read_method_function_pointer(&self, _method: Handle) -> Handle {
        Handle::new(0)
    }

    fn read_object_header(&self, _obj: Handle) -> ObjectInner {
        ObjectInner { klass: Handle::new(0xC1A55), monitor: Handle::new(0x101) }
    }

    fn read_string(&self, _s: Handle) -> Il2CppString {
        Il2CppString {
            obj: ObjectInner { klass: Handle::new(1), monitor: Handle::new(0) },
            m_string_length: self.string_result.len() as i32,
            m_first_char: self.string_result.clone(),
        }
    }
}

#[test]
fn require_text_maps_each_outcome() {
    assert_eq!(client::require_text(CText::Text(String::from("x")), "thing").unwrap(), "x");
    match client::require_text(CText::Absent, "image name").unwrap_err() {
        Error::NullNativeResult(what) => assert_eq!(what, "image name"),
        other => panic!("unexpected error {:?}", other),
    }
    assert_eq!(
        client::require_text(CText::Invalid, "image name").unwrap_err(),
        Error::StringDecodeFailure
    );
}

#[test]
fn raw_calls_fail_exactly_when_unresolved() {
    let inv = Mini::new();
    let empty = Il2CppFunctions::default();
    match client::il2cpp_domain_get(&inv, &empty).unwrap_err() {
        Error::SymbolNotResolved(name) => assert_eq!(name, "il2cpp_domain_get"),
        other => panic!("unexpected error {:?}", other),
    }
    let mut funcs = Il2CppFunctions::default();
    funcs.get_domain = Some(Handle::new(1));
    assert_eq!(client::il2cpp_domain_get(&inv, &funcs).unwrap().addr, 0x99);
}

#[test]
fn cursor_calls_leave_the_cursor_alone_when_unresolved() {
    let inv = Mini::new();
    let empty = Il2CppFunctions::default();
    let mut cursor = Handle::new(7);
    assert!(client::class_get_fields(&inv, &empty, Handle::new(1), &mut cursor).is_err());
    assert_eq!(cursor.addr, 7);
    let mut funcs = Il2CppFunctions::default();
    funcs.class_get_fields = Some(Handle::new(1));
    client::class_get_fields(&inv, &funcs, Handle::new(1), &mut cursor).unwrap();
    assert_eq!(cursor.addr, 8);
}

#[test]
fn domain_get_assemblies_reports_a_null_domain() {
    let inv = Mini::new();
    let mut funcs = Il2CppFunctions::default();
    funcs.domain_get_assemblies = Some(Handle::new(1));
    assert_eq!(
        client::domain_get_assemblies(&inv, &funcs, Handle::new(0)).unwrap_err(),
        Error::DomainUnavailable
    );
    let v = client::domain_get_assemblies(&inv, &funcs, Handle::new(5)).unwrap();
    assert_eq!(v.len(), 2);
    assert_eq!(v[0].addr, 11);
}

#[test]
fn text_accessors_map_null_and_undecodable_results() {
    let mut inv = Mini::new();
    let mut funcs = Il2CppFunctions::default();
    funcs.image_get_name = Some(Handle::new(1));
    assert_eq!(client::image_get_name(&inv, &funcs, Handle::new(2)).unwrap(), "name");
    inv.text_result = CText::Absent;
    match client::image_get_name(&inv, &funcs, Handle::new(2)).unwrap_err() {
        Error::NullNativeResult(_) => {},
        other => panic!("unexpected error {:?}", other),
    }
    inv.text_result = CText::Invalid;
    assert_eq!(
        client::image_get_name(&inv, &funcs, Handle::new(2)).unwrap_err(),
        Error::StringDecodeFailure
    );
}

#[test]
fn flags_call_writes_the_out_parameter() {
    let inv = Mini::new();
    let mut funcs = Il2CppFunctions::default();
    funcs.method_get_flags = Some(Handle::new(1));
    let mut iflag: i32 = 0;
    let flags = client::method_get_flags(&inv, &funcs, Handle::new(2), &mut iflag).unwrap();
    assert_eq!(flags, 0x16);
    assert_eq!(iflag, 0x16);
}

#[test]
fn trimming_and_equality_follow_their_specs() {
    assert_eq!(strutil::str_trim("  hello\t "), "hello");
    assert_eq!(strutil::str_trim("hello"), "hello");
    assert_eq!(strutil::str_trim(" \t\r\n "), "");
    assert_eq!(strutil::str_trim(""), "");
    assert!(strutil::trim_eq(" Foo ", "Foo"));
    assert!(!strutil::trim_eq("Foo", "Bar"));
    assert!(strutil::eq_str("abc", "abc"));
    assert!(!strutil::eq_str("abc", "abd"));
    assert!(!strutil::eq_str("abc", "ab"));
}

fn unity_cache(get_name_fptr: usize, find_fptr: usize) -> Cache {
    let object_class_handle = Handle::new(0xC0);
    let mut object_class = ClassInner::new(
        object_class_handle,
        String::from("Object"),
        String::from("UnityEngine"),
        String::from(""),
    );
    object_class.methods.push(MethodInner::new(
        Handle::new(0xD0),
        String::from("get_name"),
        object_class_handle,
        TypeInner::new(Handle::new(1), String::from("System.String"), -1),
        0,
        false,
        Handle::new(get_name_fptr),
        Vec::new(),
    ));
    let mut find_args = Vec::new();
    find_args.push(ArgInner::new(
        String::from("type"),
        TypeInner::new(Handle::new(2), String::from("System.Type"), -1),
    ));
    find_args.push(ArgInner::new(
        String::from("includeInactive"),
        TypeInner::new(Handle::new(3), String::from("System.Boolean"), -1),
    ));
    object_class.methods.push(MethodInner::new(
        Handle::new(0xD1),
        String::from("FindObjectsOfType"),
        object_class_handle,
        TypeInner::new(Handle::new(4), String::from("UnityEngine.Object[]"), -1),
        0x16,
        true,
        Handle::new(find_fptr),
        find_args,
    ));
    let game_object_class = ClassInner::new(
        Handle::new(0xC1),
        String::from("GameObject"),
        String::from("UnityEngine"),
        String::from("Object"),
    );
    let mut assembly = Assembly::new(
        Handle::new(0xA0),
        String::from("UnityEngine.CoreModule.dll"),
        String::from("/game/UnityEngine.CoreModule.dll"),
    );
    assembly.classes.push(object_class);
    assembly.classes.push(game_object_class);
    Cache { assemblies: vec![assembly] }
}

#[test]
fn find_objects_of_type_views_every_live_object() {
    let mut inv = Mini::new();
    inv.find_results = vec![Handle::new(0x10), Handle::new(0), Handle::new(0x30)];
    let cache = unity_cache(0x501, 0x502);
    let obj_type = ObjectView::from_ptr(0x77).unwrap();
    let views = ObjectView::find_objects_of_type(&inv, &cache, obj_type, true).unwrap();
    // the null element is dropped, the rest keep their addresses in order
    assert_eq!(views.len(), 2);
    assert_eq!(views[0].as_ptr(), 0x10);
    assert_eq!(views[1].as_ptr(), 0x30);
}

#[test]
fn find_objects_of_type_needs_the_cached_entry_point() {
    let inv = Mini::new();
    let cache = unity_cache(0x501, 0);
    let obj_type = ObjectView::from_ptr(0x77).unwrap();
    // a null recorded entry point is refused, not called
    assert!(ObjectView::find_objects_of_type(&inv, &cache, obj_type, true).is_err());
    let empty = Cache { assemblies: Vec::new() };
    assert!(ObjectView::find_objects_of_type(&inv, &empty, obj_type, true).is_err());
}

#[test]
fn get_all_gameobjects_casts_found_objects() {
    let mut inv = Mini::new();
    inv.handle_result = 0x42;
    inv.find_results = vec![Handle::new(0x11), Handle::new(0x22)];
    let cache = unity_cache(0x501, 0x502);
    let mut funcs = Il2CppFunctions::default();
    funcs.class_get_type = Some(Handle::new(1));
    funcs.type_get_object = Some(Handle::new(2));
    let objs = GameObjectView::get_all_gameobjects(&inv, &funcs, &cache).unwrap();
    assert_eq!(objs.len(), 2);
    assert_eq!(objs[0].as_ptr(), 0x11);
    assert_eq!(objs[1].as_ptr(), 0x22);
}

#[test]
fn object_get_name_views_the_returned_string() {
    let mut inv = Mini::new();
    inv.this_result = 0x88;
    inv.string_result = "Cube".encode_utf16().collect();
    let cache = unity_cache(0x501, 0x502);
    let obj = ObjectView::from_ptr(0x10).unwrap();
    let s = obj.get_name(&inv, &cache).unwrap();
    assert_eq!(s.to_string(), "Cube");
    assert_eq!(s.as_ptr(), 0x88);
}

#[test]
fn any_view_reaches_get_name_through_the_object_layout() {
    let mut inv = Mini::new();
    inv.this_result = 0x88;
    inv.string_result = "Player".encode_utf16().collect();
    let cache = unity_cache(0x501, 0x502);
    let g = GameObjectView::from_ptr(0x44).unwrap();
    let s = g.get_name(&inv, &cache).unwrap();
    assert_eq!(s.to_string(), "Player");
}

#[test]
fn object_header_reads_go_through_the_host() {
    let inv = Mini::new();
    let obj = ObjectView::from_ptr(0x10).unwrap();
    assert_eq!(obj.klass(&inv).addr, 0xC1A55);
    assert_eq!(obj.monitor(&inv).addr, 0x101);
}

#[test]
fn views_from_handles_drops_only_nulls() {
    let handles = vec![Handle::new(1), Handle::new(0), Handle::new(3), Handle::new(0)];
    let views = views_from_handles(&handles);
    assert_eq!(views.len(), 2);
    assert_eq!(views[0].addr, 1);
    assert_eq!(views[1].addr, 3);
    assert!(views_from_handles(&Vec::new()).is_empty());
}
