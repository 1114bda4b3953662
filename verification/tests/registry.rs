use frut_natives::catalog::native_name_str;
use frut_natives::has_native_module;
use frut_natives::register_modules;
use frut_natives::signatures_for;
use frut_natives::NativeId;
use frut_natives::RuntimeEnvironment;
use frut_natives::SemanticType;
use frut_natives::Value;

fn seg(parts: &[&str]) -> Vec<String> {
    parts.iter().map(|p| p.to_string()).collect()
}

fn import_all(module: &str) -> (String, Option<Vec<String>>) {
    (module.to_string(), None)
}

fn import_names(module: &str, names: &[&str]) -> (String, Option<Vec<String>>) {
    (
        module.to_string(),
        Some(names.iter().map(|n| n.to_string()).collect()),
    )
}

#[test]
fn recognizes_native_modules() {
    assert!(has_native_module(&seg(&["std", "io"])));
    assert!(has_native_module(&seg(&["std", "math"])));
    assert!(!has_native_module(&seg(&["std", "nope"])));
    assert!(!has_native_module(&seg(&["std"])));
    assert!(!has_native_module(&seg(&["std", "io", "extra"])));
    assert!(!has_native_module(&seg(&[])));
}

#[test]
fn paths_are_compared_as_a_joined_key() {
    assert!(has_native_module(&seg(&["std/io"])));
    assert!(has_native_module(&seg(&["std/math"])));
    assert!(!has_native_module(&seg(&["std/", "io"])));
    let joined = signatures_for(&seg(&["std/io"])).expect("joined key names the io module");
    let split = signatures_for(&seg(&["std", "io"])).expect("segments name the io module");
    assert_eq!(joined.len(), split.len());
    for (a, b) in joined.iter().zip(split.iter()) {
        assert_eq!(a.name, b.name);
    }
}

#[test]
fn signatures_and_import_all_bind_the_same_names() {
    for module in ["std/io", "std/math"] {
        let parts: Vec<&str> = module.split('/').collect();
        let sigs = signatures_for(&seg(&parts)).expect("native module must have signatures");
        let mut env = RuntimeEnvironment::new();
        register_modules(&mut env, &[import_all(module)]);
        assert_eq!(env.binding_count(), sigs.len());
        for sig in &sigs {
            assert!(env.lookup(sig.name.as_str()).is_some(), "{} unbound", sig.name);
        }
    }
}

#[test]
fn math_catalog_is_complete() {
    let sigs = signatures_for(&seg(&["std", "math"])).unwrap();
    let names: Vec<&str> = sigs.iter().map(|s| s.name.as_str()).collect();
    for expected in [
        "min_i", "max_i", "min_d", "max_d", "abs_i", "abs_d", "clamp_i", "clamp_d", "pi",
        "factorial", "sqrt", "sin", "cos", "tan", "asin", "acos", "atan", "atan2",
    ] {
        assert!(names.contains(&expected), "{} missing", expected);
    }
    assert_eq!(sigs.len(), 18);
}

#[test]
fn io_signatures_are_exact() {
    let sigs = signatures_for(&seg(&["std", "io"])).unwrap();
    assert_eq!(sigs.len(), 3);
    assert_eq!(sigs[0].name.as_str(), "print");
    assert_eq!(sigs[0].params, vec![SemanticType::Str]);
    assert_eq!(sigs[0].ret, SemanticType::Void);
    assert_eq!(sigs[1].name.as_str(), "println");
    assert_eq!(sigs[2].name.as_str(), "input");
    assert_eq!(sigs[2].ret, SemanticType::Str);
}

#[test]
fn unknown_module_resolves_to_nothing() {
    assert!(signatures_for(&seg(&["std", "nope"])).is_none());
    assert!(signatures_for(&seg(&["other"])).is_none());
    let mut env = RuntimeEnvironment::new();
    register_modules(&mut env, &[import_all("std/nope"), import_all("whatever")]);
    assert_eq!(env.binding_count(), 0);
}

#[test]
fn subset_import_binds_exactly_the_requested_names() {
    let mut env = RuntimeEnvironment::new();
    register_modules(&mut env, &[import_names("std/math", &["min_i", "max_i"])]);
    assert_eq!(env.binding_count(), 2);
    assert!(matches!(
        env.lookup("min_i"),
        Some(Value::NativeFunction(NativeId::MinI))
    ));
    assert!(matches!(
        env.lookup("max_i"),
        Some(Value::NativeFunction(NativeId::MaxI))
    ));
    assert!(env.lookup("sqrt").is_none());
    assert!(env.lookup("abs_i").is_none());
}

#[test]
fn requesting_an_absent_name_is_ignored() {
    let mut env = RuntimeEnvironment::new();
    register_modules(&mut env, &[import_names("std/math", &["min_i", "no_such_fn"])]);
    assert_eq!(env.binding_count(), 1);
    assert!(env.lookup("no_such_fn").is_none());
}

#[test]
fn reimport_replaces_instead_of_duplicating() {
    let mut env = RuntimeEnvironment::new();
    register_modules(&mut env, &[import_all("std/math")]);
    assert_eq!(env.binding_count(), 18);
    register_modules(&mut env, &[import_all("std/math")]);
    assert_eq!(env.binding_count(), 18);
    register_modules(&mut env, &[import_names("std/math", &["sqrt", "sqrt"])]);
    assert_eq!(env.binding_count(), 18);
}

#[test]
fn redefining_a_name_keeps_one_binding_with_the_new_value() {
    let mut env = RuntimeEnvironment::new();
    env.define_function("x".to_string(), Value::Int(1));
    env.define_function("x".to_string(), Value::Int(2));
    assert_eq!(env.binding_count(), 1);
    assert!(matches!(env.lookup("x"), Some(Value::Int(2))));
}

#[test]
fn imports_from_both_modules_coexist() {
    let mut env = RuntimeEnvironment::new();
    register_modules(&mut env, &[import_all("std/io"), import_all("std/math")]);
    assert_eq!(env.binding_count(), 21);
    assert!(matches!(
        env.lookup("print"),
        Some(Value::NativeFunction(NativeId::Print))
    ));
    assert!(matches!(
        env.lookup("atan2"),
        Some(Value::NativeFunction(NativeId::Atan2))
    ));
}

#[test]
fn catalog_names_round_trip() {
    assert_eq!(native_name_str(NativeId::Factorial), "factorial");
    assert_eq!(native_name_str(NativeId::ClampD), "clamp_d");
    assert_eq!(native_name_str(NativeId::Input), "input");
}
