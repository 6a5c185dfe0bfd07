use std::collections::HashMap;

use unityresolve::cache::Cache;
use unityresolve::error::Error;
use unityresolve::functions::Il2CppFunctions;
use unityresolve::handle::Handle;
use unityresolve::native::{CText, NativeInvoker};
use unityresolve::classes::object::ObjectInner;
use unityresolve::classes::string::Il2CppString;

const FN_GET_DOMAIN: usize = 1;
const FN_THREAD_ATTACH: usize = 2;
const FN_THREAD_DETACH: usize = 3;
const FN_DOMAIN_GET_ASSEMBLIES: usize = 4;
const FN_ASSEMBLY_GET_IMAGE: usize = 5;
const FN_IMAGE_GET_NAME: usize = 6;
const FN_IMAGE_GET_FILENAME: usize = 7;
const FN_IMAGE_GET_CLASS_COUNT: usize = 8;
const FN_IMAGE_GET_CLASS: usize = 9;
const FN_CLASS_GET_NAME: usize = 10;
const FN_CLASS_GET_NAMESPACE: usize = 11;
const FN_CLASS_GET_PARENT: usize = 12;
const FN_CLASS_GET_FIELDS: usize = 13;
const FN_CLASS_GET_METHODS: usize = 14;
const FN_FIELD_GET_NAME: usize = 15;
const FN_FIELD_GET_OFFSET: usize = 16;
const FN_FIELD_GET_TYPE: usize = 17;
const FN_METHOD_GET_NAME: usize = 18;
const FN_METHOD_GET_RETURN_TYPE: usize = 19;
const FN_METHOD_GET_FLAGS: usize = 20;
const FN_METHOD_GET_PARAM_COUNT: usize = 21;
const FN_METHOD_GET_PARAM_NAME: usize = 22;
const FN_METHOD_GET_PARAM: usize = 23;
const FN_TYPE_GET_NAME: usize = 24;
const FN_CLASS_GET_TYPE: usize = 25;
const FN_TYPE_GET_OBJECT: usize = 26;
const FN_INIT: usize = 27;
const FN_SHUTDOWN: usize = 28;
const FN_CLASS_FROM_NAME: usize = 29;

fn full_table() -> Il2CppFunctions {
    let mut f = Il2CppFunctions::default();
    f.init = Some(Handle::new(FN_INIT));
    f.shutdown = Some(Handle::new(FN_SHUTDOWN));
    f.get_domain = Some(Handle::new(FN_GET_DOMAIN));
    f.thread_attach = Some(Handle::new(FN_THREAD_ATTACH));
    f.thread_detach = Some(Handle::new(FN_THREAD_DETACH));
    f.assembly_get_image = Some(Handle::new(FN_ASSEMBLY_GET_IMAGE));
    f.class_from_name = Some(Handle::new(FN_CLASS_FROM_NAME));
    f.class_get_methods = Some(Handle::new(FN_CLASS_GET_METHODS));
    f.class_get_name = Some(Handle::new(FN_CLASS_GET_NAME));
    f.class_get_namespace = Some(Handle::new(FN_CLASS_GET_NAMESPACE));
    f.class_get_parent = Some(Handle::new(FN_CLASS_GET_PARENT));
    f.class_get_type = Some(Handle::new(FN_CLASS_GET_TYPE));
    f.method_get_name = Some(Handle::new(FN_METHOD_GET_NAME));
    f.domain_get_assemblies = Some(Handle::new(FN_DOMAIN_GET_ASSEMBLIES));
    f.image_get_name = Some(Handle::new(FN_IMAGE_GET_NAME));
    f.image_get_filename = Some(Handle::new(FN_IMAGE_GET_FILENAME));
    f.image_get_class = Some(Handle::new(FN_IMAGE_GET_CLASS));
    f.image_get_class_count = Some(Handle::new(FN_IMAGE_GET_CLASS_COUNT));
    f.class_get_fields = Some(Handle::new(FN_CLASS_GET_FIELDS));
    f.field_get_name = Some(Handle::new(FN_FIELD_GET_NAME));
    f.field_get_offset = Some(Handle::new(FN_FIELD_GET_OFFSET));
    f.field_get_type = Some(Handle::new(FN_FIELD_GET_TYPE));
    f.method_get_param_count = Some(Handle::new(FN_METHOD_GET_PARAM_COUNT));
    f.method_get_param_name = Some(Handle::new(FN_METHOD_GET_PARAM_NAME));
    f.method_get_return_type = Some(Handle::new(FN_METHOD_GET_RETURN_TYPE));
    f.method_get_flags = Some(Handle::new(FN_METHOD_GET_FLAGS));
    f.method_get_param = Some(Handle::new(FN_METHOD_GET_PARAM));
    f.type_get_name = Some(Handle::new(FN_TYPE_GET_NAME));
    f.type_get_object = Some(Handle::new(FN_TYPE_GET_OBJECT));
    f
}

/// A scripted stand-in for the foreign runtime.
#[derive(Default)]
struct Fake {
    assemblies: Vec<Handle>,
    images: HashMap<usize, usize>,
    image_names: HashMap<usize, CText>,
    image_filenames: HashMap<usize, CText>,
    class_counts: HashMap<usize, usize>,
    classes: HashMap<(usize, usize), usize>,
    class_names: HashMap<usize, CText>,
    class_namespaces: HashMap<usize, CText>,
    class_parents: HashMap<usize, usize>,
    class_fields: HashMap<usize, Vec<usize>>,
    class_methods: HashMap<usize, Vec<usize>>,
    field_names: HashMap<usize, CText>,
    field_offsets: HashMap<usize, i32>,
    field_types: HashMap<usize, usize>,
    type_names: HashMap<usize, CText>,
    method_names: HashMap<usize, CText>,
    method_return_types: HashMap<usize, usize>,
    method_flags: HashMap<usize, i32>,
    method_param_counts: HashMap<usize, u32>,
    method_param_names: HashMap<(usize, u32), CText>,
    method_params: HashMap<(usize, u32), usize>,
    method_fptrs: HashMap<usize, usize>,
}

impl Fake {
    fn text(&self, map: &HashMap<usize, CText>, key: usize) -> CText {
        map.get(&key).cloned().unwrap_or(CText::Absent)
    }
}

impl NativeInvoker for Fake {
    fn call_unit(&self, _func: Handle) {}

    fn call_get_handle(&self, _func: Handle) -> Handle {
        Handle::new(1000)
    }

    fn call_handle_arg(&self, _func: Handle, _arg: Handle) {}

    fn call_handle_to_handle(&self, func: Handle, arg: Handle) -> Handle {
        let v = match func.addr {
            FN_ASSEMBLY_GET_IMAGE => self.images.get(&arg.addr).copied(),
            FN_CLASS_GET_PARENT => self.class_parents.get(&arg.addr).copied(),
            FN_FIELD_GET_TYPE => self.field_types.get(&arg.addr).copied(),
            FN_METHOD_GET_RETURN_TYPE => self.method_return_types.get(&arg.addr).copied(),
            FN_THREAD_ATTACH => Some(arg.addr),
            _ => None,
        };
        Handle::new(v.unwrap_or(0))
    }

    fn call_handle_to_text(&self, func: Handle, arg: Handle) -> CText {
        match func.addr {
            FN_IMAGE_GET_NAME => self.text(&self.image_names, arg.addr),
            FN_IMAGE_GET_FILENAME => self.text(&self.image_filenames, arg.addr),
            FN_CLASS_GET_NAME => self.text(&self.class_names, arg.addr),
            FN_CLASS_GET_NAMESPACE => self.text(&self.class_namespaces, arg.addr),
            FN_FIELD_GET_NAME => self.text(&self.field_names, arg.addr),
            FN_METHOD_GET_NAME => self.text(&self.method_names, arg.addr),
            FN_TYPE_GET_NAME => self.text(&self.type_names, arg.addr),
            _ => CText::Absent,
        }
    }

    fn call_handle_to_i32(&self, _func: Handle, arg: Handle) -> i32 {
        self.field_offsets.get(&arg.addr).copied().unwrap_or(0)
    }

    fn call_handle_to_usize(&self, _func: Handle, arg: Handle) -> usize {
        self.class_counts.get(&arg.addr).copied().unwrap_or(0)
    }

    fn call_handle_index_to_handle(&self, _func: Handle, arg: Handle, index: usize) -> Handle {
        Handle::new(self.classes.get(&(arg.addr, index)).copied().unwrap_or(0))
    }

    fn call_cursor(&self, func: Handle, arg: Handle, cursor: &mut Handle) -> Handle {
        let list = match func.addr {
            FN_CLASS_GET_FIELDS => self.class_fields.get(&arg.addr),
            FN_CLASS_GET_METHODS => self.class_methods.get(&arg.addr),
            _ => None,
        };
        let list = match list {
            Some(l) => l,
            None => return Handle::new(0),
        };
        let idx = cursor.addr;
        if idx < list.len() {
            *cursor = Handle::new(idx + 1);
            Handle::new(list[idx])
        } else {
            Handle::new(0)
        }
    }

    fn call_handle_to_u32(&self, _func: Handle, arg: Handle) -> u32 {
        self.method_param_counts.get(&arg.addr).copied().unwrap_or(0)
    }

    fn call_handle_u32_to_text(&self, _func: Handle, arg: Handle, index: u32) -> CText {
        self.method_param_names
            .get(&(arg.addr, index))
            .cloned()
            .unwrap_or(CText::Absent)
    }

    fn call_handle_u32_to_handle(&self, _func: Handle, arg: Handle, index: u32) -> Handle {
        Handle::new(self.method_params.get(&(arg.addr, index)).copied().unwrap_or(0))
    }

    fn call_flags(&self, _func: Handle, arg: Handle, iflag: &mut i32) -> i32 {
        let f = self.method_flags.get(&arg.addr).copied().unwrap_or(0);
        *iflag = f;
        f
    }

    fn call_from_name(&self, _func: Handle, _image: Handle, _namespace: &str, _name: &str) -> Handle {
        Handle::new(0)
    }

    fn call_enumerate(&self, _func: Handle, _arg: Handle) -> Vec<Handle> {
        self.assemblies.clone()
    }

    fn call_find_objects(&self, _func: Handle, _type_obj: Handle, _include_inactive: bool) -> Vec<Handle> {
        Vec::new()
    }

    fn call_this_to_handle(&self, _func: Handle, _this: Handle) -> Handle {
        Handle::new(0)
    }

    fn read_method_function_pointer(&self, method: Handle) -> Handle {
        Handle::new(self.method_fptrs.get(&method.addr).copied().unwrap_or(0))
    }

    fn read_object_header(&self, _obj: Handle) -> ObjectInner {
        ObjectInner { klass: Handle::new(0), monitor: Handle::new(0) }
    }

    fn read_string(&self, _s: Handle) -> Il2CppString {
        Il2CppString {
            obj: ObjectInner { klass: Handle::new(0), monitor: Handle::new(0) },
            m_string_length: 0,
            m_first_char: Vec::new(),
        }
    }
}

fn text(s: &str) -> CText {
    CText::Text(String::from(s))
}

#[test]
fn build_skips_assembly_with_failing_file_name() {
    // Two assemblies; the second one's image file name does not resolve, so
    // the build keeps exactly the first and still succeeds.
    let mut fake = Fake::default();
    fake.assemblies = vec![Handle::new(2001), Handle::new(2002)];
    fake.images.insert(2001, 3001);
    fake.images.insert(2002, 3002);
    fake.image_names.insert(3001, text("A.dll"));
    fake.image_names.insert(3002, text("B.dll"));
    fake.image_filenames.insert(3001, text("/game/A.dll"));
    // no file name for image 3002
    fake.class_counts.insert(3001, 0);
    fake.class_counts.insert(3002, 0);

    let funcs = full_table();
    let cache = Cache::new(&fake, &funcs, Handle::new(1000)).unwrap();
    assert_eq!(cache.assemblies.len(), 1);
    assert_eq!(cache.assemblies[0].name, "A.dll");
    assert_eq!(cache.assemblies[0].file, "/game/A.dll");
    assert_eq!(cache.assemblies[0].address.addr, 2001);
}

#[test]
fn build_discards_method_with_failing_parameter() {
    // One class with three methods; the second method's third parameter
    // fails to resolve its type name, so exactly the first and third
    // methods survive.
    let mut fake = Fake::default();
    fake.assemblies = vec![Handle::new(2001)];
    fake.images.insert(2001, 3001);
    fake.image_names.insert(3001, text("A.dll"));
    fake.image_filenames.insert(3001, text("/game/A.dll"));
    fake.class_counts.insert(3001, 1);
    fake.classes.insert((3001, 0), 4001);
    fake.class_names.insert(4001, text("C"));
    fake.class_namespaces.insert(4001, text("N"));
    fake.class_parents.insert(4001, 0);
    fake.class_fields.insert(4001, vec![]);
    fake.class_methods.insert(4001, vec![5001, 5002, 5003]);
    for (m, name) in [(5001, "First"), (5002, "Second"), (5003, "Third")] {
        fake.method_names.insert(m, text(name));
        fake.method_return_types.insert(m, 7000);
        fake.method_flags.insert(m, 0x06);
    }
    fake.type_names.insert(7000, text("System.Void"));
    fake.method_param_counts.insert(5001, 0);
    fake.method_param_counts.insert(5002, 3);
    fake.method_param_counts.insert(5003, 0);
    for i in 0..3u32 {
        fake.method_param_names.insert((5002, i), text("p"));
        // parameters 0 and 1 have a named type; parameter 2 points at a
        // type with no resolvable name
        let ty = if i < 2 { 7000 } else { 7999 };
        fake.method_params.insert((5002, i), ty);
    }

    let funcs = full_table();
    let cache = Cache::new(&fake, &funcs, Handle::new(1000)).unwrap();
    let class = &cache.assemblies[0].classes[0];
    assert_eq!(class.methods.len(), 2);
    assert_eq!(class.methods[0].name, "First");
    assert_eq!(class.methods[1].name, "Third");
}

#[test]
fn build_classifies_fields_by_offset() {
    // A field with reported offset 0 is static; one with offset 8 is not;
    // a negative offset is static too.
    let mut fake = Fake::default();
    fake.assemblies = vec![Handle::new(2001)];
    fake.images.insert(2001, 3001);
    fake.image_names.insert(3001, text("A.dll"));
    fake.image_filenames.insert(3001, text("/game/A.dll"));
    fake.class_counts.insert(3001, 1);
    fake.classes.insert((3001, 0), 4001);
    fake.class_names.insert(4001, text("C"));
    fake.class_namespaces.insert(4001, text("N"));
    fake.class_parents.insert(4001, 0);
    fake.class_fields.insert(4001, vec![6001, 6002, 6003]);
    fake.class_methods.insert(4001, vec![]);
    for (f, name, off) in [(6001, "zero", 0), (6002, "eight", 8), (6003, "neg", -4)] {
        fake.field_names.insert(f, text(name));
        fake.field_offsets.insert(f, off);
        fake.field_types.insert(f, 7000);
    }
    fake.type_names.insert(7000, text("System.Int32"));

    let funcs = full_table();
    let cache = Cache::new(&fake, &funcs, Handle::new(1000)).unwrap();
    let class = &cache.assemblies[0].classes[0];
    assert_eq!(class.fields.len(), 3);
    assert_eq!(class.fields[0].name, "zero");
    assert!(class.fields[0].static_field);
    // every retained field points back at its owning class
    assert_eq!(class.fields[0].class.addr, class.address.addr);
    assert_eq!(class.fields[1].class.addr, class.address.addr);
    assert_eq!(class.fields[0].offset, 0);
    assert_eq!(class.fields[1].name, "eight");
    assert!(!class.fields[1].static_field);
    assert!(class.fields[2].static_field);
}

#[test]
fn build_classifies_methods_by_flag_bit() {
    let mut fake = Fake::default();
    fake.assemblies = vec![Handle::new(2001)];
    fake.images.insert(2001, 3001);
    fake.image_names.insert(3001, text("A.dll"));
    fake.image_filenames.insert(3001, text("/game/A.dll"));
    fake.class_counts.insert(3001, 1);
    fake.classes.insert((3001, 0), 4001);
    fake.class_names.insert(4001, text("C"));
    fake.class_namespaces.insert(4001, text("N"));
    fake.class_parents.insert(4001, 0);
    fake.class_fields.insert(4001, vec![]);
    fake.class_methods.insert(4001, vec![5001, 5002]);
    fake.method_names.insert(5001, text("S"));
    fake.method_names.insert(5002, text("I"));
    fake.method_return_types.insert(5001, 7000);
    fake.method_return_types.insert(5002, 7000);
    fake.method_flags.insert(5001, 0x16);
    fake.method_flags.insert(5002, 0x06);
    fake.method_param_counts.insert(5001, 0);
    fake.method_param_counts.insert(5002, 0);
    fake.type_names.insert(7000, text("System.Void"));
    fake.method_fptrs.insert(5001, 0xBEEF);

    let funcs = full_table();
    let cache = Cache::new(&fake, &funcs, Handle::new(1000)).unwrap();
    let class = &cache.assemblies[0].classes[0];
    assert!(class.methods[0].is_static);
    assert_eq!(class.methods[0].flags, 0x16);
    assert!(!class.methods[1].is_static);
    // the entry point comes from the isolated method-info read
    assert_eq!(class.methods[0].function.addr, 0xBEEF);
    assert_eq!(class.methods[0].callable().addr, 0xBEEF);
    // back-references point at the owning class
    assert_eq!(class.methods[0].class.addr, class.address.addr);
}

#[test]
fn build_skips_class_without_namespace_and_keeps_parent_fallback() {
    let mut fake = Fake::default();
    fake.assemblies = vec![Handle::new(2001)];
    fake.images.insert(2001, 3001);
    fake.image_names.insert(3001, text("A.dll"));
    fake.image_filenames.insert(3001, text("/game/A.dll"));
    fake.class_counts.insert(3001, 3);
    fake.classes.insert((3001, 0), 4001);
    fake.classes.insert((3001, 1), 4002);
    fake.classes.insert((3001, 2), 4003);
    // class 4001: complete, with a parent whose name resolves
    fake.class_names.insert(4001, text("Child"));
    fake.class_namespaces.insert(4001, text("N"));
    fake.class_parents.insert(4001, 4999);
    fake.class_names.insert(4999, text("Base"));
    // class 4002: no namespace -> skipped entirely
    fake.class_names.insert(4002, text("Broken"));
    // class 4003: parent handle set but parent name unresolvable -> empty
    // parent name, class kept
    fake.class_names.insert(4003, text("Orphan"));
    fake.class_namespaces.insert(4003, text("N"));
    fake.class_parents.insert(4003, 4998);
    for c in [4001usize, 4002, 4003] {
        fake.class_fields.insert(c, vec![]);
        fake.class_methods.insert(c, vec![]);
    }

    let funcs = full_table();
    let cache = Cache::new(&fake, &funcs, Handle::new(1000)).unwrap();
    let classes = &cache.assemblies[0].classes;
    assert_eq!(classes.len(), 2);
    assert_eq!(classes[0].name, "Child");
    assert_eq!(classes[0].parent, "Base");
    assert_eq!(classes[1].name, "Orphan");
    assert_eq!(classes[1].parent, "");
}

#[test]
fn build_fails_on_null_domain() {
    let fake = Fake::default();
    let funcs = full_table();
    let r = Cache::new(&fake, &funcs, Handle::new(0));
    assert_eq!(r.unwrap_err(), Error::DomainUnavailable);
}

#[test]
fn build_fails_when_enumeration_entry_point_missing() {
    let fake = Fake::default();
    let mut funcs = full_table();
    funcs.domain_get_assemblies = None;
    let r = Cache::new(&fake, &funcs, Handle::new(1000));
    match r.unwrap_err() {
        Error::SymbolNotResolved(name) => assert_eq!(name, "il2cpp_domain_get_assemblies"),
        other => panic!("unexpected error {:?}", other),
    }
}

#[test]
fn unityresolve_lists_assemblies_shallowly() {
    let mut fake = Fake::default();
    fake.assemblies = vec![Handle::new(2001)];
    fake.images.insert(2001, 3001);
    fake.image_names.insert(3001, text("A.dll"));
    fake.image_filenames.insert(3001, text("/game/A.dll"));
    fake.class_counts.insert(3001, 5);

    let funcs = full_table();
    let mut ur = unityresolve::unityresolve::UnityResolve::new_empty();
    assert!(ur.get_domain().is_none());
    ur.init(&fake, &funcs).unwrap();
    assert_eq!(ur.get_domain().unwrap().addr, 1000);
    assert_eq!(ur.assemblies.len(), 1);
    assert_eq!(ur.assemblies[0].name, "A.dll");
    // the shallow listing never walks classes
    assert!(ur.assemblies[0].classes.is_empty());
}

#[test]
fn uninitialised_context_cannot_list_assemblies() {
    let fake = Fake::default();
    let funcs = full_table();
    let mut ur = unityresolve::unityresolve::UnityResolve::new_empty();
    assert_eq!(ur.cache_assemblies(&fake, &funcs).unwrap_err(), Error::DomainUnavailable);
    assert!(ur.assemblies.is_empty());
}

#[test]
fn initialised_context_fails_on_a_null_domain_or_missing_symbol() {
    let fake = Fake::default();
    let funcs = full_table();
    let mut ur = unityresolve::unityresolve::UnityResolve::new_empty();
    ur.p_domain = Some(Handle::new(0));
    assert_eq!(ur.cache_assemblies(&fake, &funcs).unwrap_err(), Error::DomainUnavailable);

    let mut gapped = full_table();
    gapped.domain_get_assemblies = None;
    ur.p_domain = Some(Handle::new(1000));
    match ur.cache_assemblies(&fake, &gapped).unwrap_err() {
        Error::SymbolNotResolved(name) => assert_eq!(name, "il2cpp_domain_get_assemblies"),
        other => panic!("unexpected error {:?}", other),
    }
    assert!(ur.cache_assemblies(&fake, &funcs).is_ok());
}

#[test]
fn cache_get_assembly_finds_by_exact_name() {
    let mut fake = Fake::default();
    fake.assemblies = vec![Handle::new(2001), Handle::new(2002)];
    fake.images.insert(2001, 3001);
    fake.images.insert(2002, 3002);
    fake.image_names.insert(3001, text("A.dll"));
    fake.image_names.insert(3002, text("B.dll"));
    fake.image_filenames.insert(3001, text("/game/A.dll"));
    fake.image_filenames.insert(3002, text("/game/B.dll"));
    fake.class_counts.insert(3001, 0);
    fake.class_counts.insert(3002, 0);

    let funcs = full_table();
    let cache = Cache::new(&fake, &funcs, Handle::new(1000)).unwrap();
    assert_eq!(cache.get_assembly("B.dll").unwrap().address.addr, 2002);
    assert!(cache.get_assembly("b.dll").is_none());
    assert!(cache.get_assembly("C.dll").is_none());
}
