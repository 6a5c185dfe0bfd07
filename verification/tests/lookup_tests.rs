use unityresolve::classes::arg::ArgInner;
use unityresolve::classes::assembly::Assembly;
use unityresolve::classes::class::ClassInner;
use unityresolve::classes::field::FieldInner;
use unityresolve::classes::itype::TypeInner;
use unityresolve::classes::method::MethodInner;
use unityresolve::handle::Handle;

fn ty(name: &str) -> TypeInner {
    TypeInner::new(Handle::new(700), String::from(name), -1)
}

fn method(addr: usize, name: &str, param_types: &[&str]) -> MethodInner {
    let mut args = Vec::new();
    for (i, t) in param_types.iter().enumerate() {
        args.push(ArgInner::new(format!("p{}", i), ty(t)));
    }
    MethodInner::new(
        Handle::new(addr),
        String::from(name),
        Handle::new(500),
        ty("System.Void"),
        0,
        false,
        Handle::new(0),
        args,
    )
}

fn sample_class() -> ClassInner {
    let mut c = ClassInner::new(
        Handle::new(500),
        String::from("Player"),
        String::from("Game"),
        String::from("MonoBehaviour"),
    );
    c.methods.push(method(1, "Jump", &[]));
    c.methods.push(method(2, "Jump", &["System.Single"]));
    c.methods.push(method(3, "Move", &["System.Single", "System.Single"]));
    c.methods.push(method(4, "Move", &["System.Single", "System.Boolean"]));
    c.fields.push(FieldInner::new(
        Handle::new(10),
        String::from("health"),
        ty("System.Int32"),
        Handle::new(500),
        16,
        false,
        Handle::new(0),
    ));
    c
}

#[test]
fn get_method_with_empty_args_matches_only_zero_parameter_methods() {
    let c = sample_class();
    let m = c.get_method("Jump", vec![]).unwrap();
    assert_eq!(m.address.addr, 1);
    assert!(m.args.is_empty());
    // a one-parameter method is not found with an empty expected list
    assert!(c.get_method("Move", vec![]).is_none());
}

#[test]
fn get_method_matches_parameter_type_names_positionally_and_exactly() {
    let c = sample_class();
    let m = c.get_method("Jump", vec!["System.Single"]).unwrap();
    assert_eq!(m.address.addr, 2);

    let m2 = c.get_method("Move", vec!["System.Single", "System.Single"]).unwrap();
    assert_eq!(m2.address.addr, 3);
    let m3 = c.get_method("Move", vec!["System.Single", "System.Boolean"]).unwrap();
    assert_eq!(m3.address.addr, 4);

    // order matters, no coercion, no partial matches
    assert!(c.get_method("Move", vec!["System.Boolean", "System.Single"]).is_none());
    assert!(c.get_method("Move", vec!["System.Single"]).is_none());
    assert!(c.get_method("Move", vec!["System.Single", "System.Single", "System.Single"]).is_none());
    assert!(c.get_method("Jump", vec!["System.single"]).is_none());
}

#[test]
fn get_method_trims_both_names() {
    let mut c = sample_class();
    c.methods.push(method(9, "  Spaced  ", &[]));
    assert_eq!(c.get_method("Spaced", vec![]).unwrap().address.addr, 9);
    assert_eq!(c.get_method("  Jump \t", vec![]).unwrap().address.addr, 1);
    assert!(c.get_method("Jum p", vec![]).is_none());
}

#[test]
fn get_method_returns_first_match() {
    let mut c = sample_class();
    c.methods.push(method(99, "Jump", &[]));
    // the earlier zero-parameter Jump wins
    assert_eq!(c.get_method("Jump", vec![]).unwrap().address.addr, 1);
}

#[test]
fn get_field_finds_by_exact_name() {
    let c = sample_class();
    let f = c.get_field("health").unwrap();
    assert_eq!(f.offset, 16);
    assert!(!f.static_field);
    assert_eq!(f.class.addr, 500);
    assert!(c.get_field("Health").is_none());
    assert!(c.get_field(" health").is_none());
}

#[test]
fn assembly_get_finds_class_by_exact_name() {
    let mut a = Assembly::new(Handle::new(42), String::from("Game.dll"), String::from("/g/Game.dll"));
    a.classes.push(sample_class());
    assert_eq!(a.get("Player").unwrap().namespace, "Game");
    assert!(a.get("player").is_none());
    assert_eq!(a.address.addr, 42);
    assert_eq!(a.name, "Game.dll");
    assert_eq!(a.file, "/g/Game.dll");
}

#[test]
fn model_constructors_keep_their_parts() {
    let t = TypeInner::new(Handle::new(7), String::from("T"), 24);
    assert_eq!(t.address.addr, 7);
    assert_eq!(t.name, "T");
    assert_eq!(t.size, 24);
    let d = TypeInner::default();
    assert_eq!(d.address.addr, 0);
    assert_eq!(d.name, "");

    let a = ArgInner::new(String::from("x"), t);
    assert_eq!(a.name, "x");
    assert_eq!(a.itype.name, "T");
    let ad = ArgInner::default();
    assert_eq!(ad.name, "");
    assert_eq!(ad.itype.name, "");

    let f = FieldInner::new(
        Handle::new(1),
        String::from("f"),
        TypeInner::default(),
        Handle::new(2),
        -1,
        true,
        Handle::new(0),
    );
    assert_eq!(f.name, "f");
    assert_eq!(f.offset, -1);
    assert!(f.static_field);
}
