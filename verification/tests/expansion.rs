use zoisite::expansion::{
    complete_registration, complete_registry, get_self_type_path, register, registration_plan,
    registry, registry_names, registry_plan, require_ident, ExpandError, ImplHeader, PathSegment,
    SelfType, SimplePath, TraitRef, TypeKind,
};

fn path(idents: &[&str]) -> SimplePath {
    SimplePath {
        leading_colon: false,
        segments: idents
            .iter()
            .map(|i| PathSegment { ident: i.to_string(), has_arguments: false })
            .collect(),
    }
}

fn header(trait_ident: &str, self_ident: &str) -> ImplHeader {
    ImplHeader {
        trait_ref: Some(TraitRef { negated: false, path: path(&[trait_ident]) }),
        self_ty: SelfType::Path(path(&[self_ident])),
    }
}

fn message_of<T>(result: Result<T, ExpandError>) -> String {
    match result {
        Ok(_) => panic!("expected an error"),
        Err(e) => e.message(),
    }
}

const MY_STRUCT_IMPL: &str = "impl TestTrait for MyStruct { fn foo(&self) -> u32 { 123 } }";

#[test]
fn register_with_default_constructor() {
    let registration = register("default", MY_STRUCT_IMPL).ok().unwrap();
    assert_eq!(registration.constructor, Some("default".to_string()));
    assert!(registration.has_constructor);
    assert_eq!(registration.name, "MyStruct");
    assert_eq!(registration.trait_name, "TestTrait");
    assert_eq!(registration.register_static, "MyStruct_TestTrait__Register");
    assert_eq!(registration.register_static_fn, "MyStruct_TestTrait__RegisterFn");
}

#[test]
fn register_without_constructor() {
    let registration = register("", "impl TestTrait for MyEnum { fn foo(&self) -> u32 { 456 } }")
        .ok()
        .unwrap();
    assert_eq!(registration.constructor, None);
    assert!(!registration.has_constructor);
    assert_eq!(registration.register_static, "MyEnum_TestTrait__Register");
}

#[test]
fn blank_or_comment_attribute_has_no_constructor() {
    for attr in ["  ", "/* none */", "// none\n"] {
        let registration = register(attr, MY_STRUCT_IMPL).ok().unwrap();
        assert_eq!(registration.constructor, None);
        assert!(!registration.has_constructor);
    }
}

#[test]
fn register_reads_the_attribute_as_an_identifier() {
    let registration = register(" new ", MY_STRUCT_IMPL).ok().unwrap();
    assert_eq!(registration.constructor, Some("new".to_string()));
    assert_eq!(message_of(register("fn", MY_STRUCT_IMPL)), "expected identifier, found keyword `fn`");
    assert!(matches!(register("a b", MY_STRUCT_IMPL), Err(ExpandError::InvalidAttribute(_))));
    assert!(matches!(register("1", MY_STRUCT_IMPL), Err(ExpandError::InvalidAttribute(_))));
}

#[test]
fn register_looks_at_the_attribute_before_the_item() {
    assert!(matches!(register("a b", "struct S;"), Err(ExpandError::InvalidAttribute(_))));
}

#[test]
fn register_refuses_items_that_are_not_impl_blocks() {
    assert!(matches!(register("", "struct S;"), Err(ExpandError::InvalidItem(_))));
    assert!(matches!(register("default", "fn f() {}"), Err(ExpandError::InvalidItem(_))));
}

#[test]
fn register_refuses_inherent_impls() {
    assert_eq!(
        message_of(register("", "impl MyStruct { fn foo(&self) -> u32 { 1 } }")),
        "Can only register an implementation of a trait, 'impl <Trait> for <Type>'."
    );
}

#[test]
fn register_refuses_inverted_impls() {
    assert_eq!(
        message_of(register("", "impl !TestTrait for MyStruct {}")),
        "Cannot register inverted impl trait: 'impl !Trait for Type'."
    );
}

#[test]
fn register_refuses_trait_paths() {
    assert_eq!(
        message_of(register("", "impl a::TestTrait for MyStruct {}")),
        "Expected trait in impl block to have an identifier.: Error(\"expected this path to be an identifier\")"
    );
}

#[test]
fn register_refuses_types_that_are_not_paths() {
    assert_eq!(
        message_of(register("", "impl TestTrait for [u8; 4] {}")),
        "Cannot register implementation on an array, expected a struct, enum, union or type alias."
    );
    assert_eq!(
        message_of(register("", "impl TestTrait for &MyStruct {}")),
        "Cannot register implementation on a reference, expected a struct, enum, union or type alias."
    );
    assert_eq!(
        message_of(register("", "impl TestTrait for (u8, u16) {}")),
        "Cannot register implementation on a tuple, expected a struct, enum, union or type alias."
    );
    assert_eq!(
        message_of(register("", "impl TestTrait for fn() {}")),
        "Cannot register implementation on a function, expected a struct, enum, union or type alias."
    );
}

#[test]
fn register_refuses_generic_types() {
    assert_eq!(
        message_of(register("", "impl TestTrait for Vec<u8> {}")),
        "Expected type in impl block to have an identifier.: Error(\"expected this path to be an identifier\")"
    );
}

#[test]
fn register_refuses_names_that_are_no_identifiers() {
    let item = header("Trait", "9Struct");
    let plan = registration_plan(Ok(None), Ok(item)).ok().unwrap();
    assert_eq!(plan.static_text, "9Struct_Trait__Register");
    let error = complete_registration(plan, Err("expected identifier".to_string()), Ok("x".to_string()));
    match &error {
        Err(ExpandError::UnableToCreateIdentifier(name, _)) => assert_eq!(name, "9Struct_Trait__Register"),
        other => panic!("unexpected {:?}", other),
    }
    assert_eq!(message_of(error), "Unable to create identifier: Error(\"expected identifier\")");
}

#[test]
fn self_type_paths() {
    let p = SelfType::Path(path(&["MyStruct"]));
    assert_eq!(get_self_type_path(&p).segments[0].ident, "MyStruct");
    let q = ImplHeader {
        trait_ref: Some(TraitRef { negated: false, path: path(&["TestTrait"]) }),
        self_ty: SelfType::Other(TypeKind::Infer),
    };
    assert_eq!(
        message_of(registration_plan(Ok(None), Ok(q))),
        "Cannot register implementation on an inferred type (_), expected a struct, enum, union or type alias."
    );
}

#[test]
fn require_ident_of_paths() {
    assert_eq!(require_ident(&path(&["Plugin"])).unwrap(), "Plugin");
    assert!(require_ident(&path(&["a", "Plugin"])).is_none());
    let rooted = SimplePath { leading_colon: true, ..path(&["Plugin"]) };
    assert!(require_ident(&rooted).is_none());
}

#[test]
fn plan_then_complete_a_registration() {
    let plan = registration_plan(Ok(Some("default".to_string())), Ok(header("TestTrait", "MyStruct")))
        .ok()
        .unwrap();
    assert_eq!(plan.constructor, Some("default".to_string()));
    assert_eq!(plan.name, "MyStruct");
    assert_eq!(plan.trait_name, "TestTrait");
    assert_eq!(plan.static_text, "MyStruct_TestTrait__Register");
    assert_eq!(plan.fn_text, "MyStruct_TestTrait__RegisterFn");

    let registration =
        complete_registration(plan, Ok("S".to_string()), Ok("F".to_string())).ok().unwrap();
    assert!(registration.has_constructor);
    assert_eq!(registration.register_static, "S");
    assert_eq!(registration.register_static_fn, "F");
}

#[test]
fn plan_reports_the_attribute_error_first() {
    match registration_plan(Err("expected identifier".to_string()), Err("expected `impl`".to_string())) {
        Err(ExpandError::InvalidAttribute(m)) => assert_eq!(m, "expected identifier"),
        other => panic!("unexpected {:?}", other),
    }
    match registration_plan(Ok(None), Err("expected `impl`".to_string())) {
        Err(ExpandError::InvalidItem(m)) => assert_eq!(m, "expected `impl`"),
        other => panic!("unexpected {:?}", other),
    }
}

#[test]
fn completion_reports_the_first_bad_name() {
    let plan = registration_plan(Ok(None), Ok(header("T", "S"))).ok().unwrap();
    match complete_registration(plan, Err("bad".to_string()), Err("bad".to_string())) {
        Err(ExpandError::UnableToCreateIdentifier(name, _)) => assert_eq!(name, "S_T__Register"),
        other => panic!("unexpected {:?}", other),
    }
    let plan = registration_plan(Ok(None), Ok(header("T", "S"))).ok().unwrap();
    match complete_registration(plan, Ok("S_T__Register".to_string()), Err("bad".to_string())) {
        Err(ExpandError::UnableToCreateIdentifier(name, _)) => assert_eq!(name, "S_T__RegisterFn"),
        other => panic!("unexpected {:?}", other),
    }
}

#[test]
fn registry_expansion_names() {
    let expansion = registry("TestTrait", "static TESTTRAIT_REGISTRY: () = ();").ok().unwrap();
    assert_eq!(expansion.trait_name, "TestTrait");
    assert_eq!(expansion.storage, "TESTTRAIT_REGISTRY__STORAGE");
    assert_eq!(expansion.wrapper_struct, "TESTTRAIT_REGISTRY__Registry");
    assert_eq!(expansion.build_static, "TESTTRAIT_REGISTRY__Build");
    assert_eq!(expansion.build_static_fn, "TESTTRAIT_REGISTRY__BuildFn");
}

#[test]
fn registry_refuses_bad_arguments_and_items() {
    let item = "static PLUGIN_REGISTRY: () = ();";
    assert!(matches!(registry("", item), Err(ExpandError::InvalidAttribute(_))));
    assert!(matches!(registry("a::Tr", item), Err(ExpandError::InvalidAttribute(_))));
    assert!(matches!(registry("Plugin", "fn f() {}"), Err(ExpandError::InvalidItem(_))));
    assert!(matches!(registry("a::Tr", "fn f() {}"), Err(ExpandError::InvalidAttribute(_))));
}

#[test]
fn registry_names_then_completion() {
    let names = registry_names("PLUGIN_REGISTRY");
    assert_eq!(names.storage, "PLUGIN_REGISTRY__STORAGE");
    assert_eq!(names.wrapper_struct, "PLUGIN_REGISTRY__Registry");
    assert_eq!(names.build_static, "PLUGIN_REGISTRY__Build");
    assert_eq!(names.build_static_fn, "PLUGIN_REGISTRY__BuildFn");

    let ok = |s: &str| Ok::<String, String>(s.to_string());
    let plan = registry_plan(ok("Plugin"), ok("PLUGIN_REGISTRY")).ok().unwrap();
    assert_eq!(plan.trait_name, "Plugin");
    assert_eq!(plan.names.build_static, "PLUGIN_REGISTRY__Build");
    let expansion = complete_registry(plan, ok("a"), ok("b"), ok("c"), ok("d")).ok().unwrap();
    assert_eq!(expansion.trait_name, "Plugin");
    assert_eq!(expansion.storage, "a");
    assert_eq!(expansion.build_static_fn, "d");

    let plan = registry_plan(ok("Plugin"), ok("R")).ok().unwrap();
    match complete_registry(plan, ok("a"), ok("b"), Err("bad".to_string()), Err("bad".to_string())) {
        Err(ExpandError::UnableToCreateIdentifier(name, _)) => assert_eq!(name, "R__Build"),
        other => panic!("unexpected {:?}", other),
    }
    match registry_plan(Err("m".to_string()), Err("n".to_string())) {
        Err(ExpandError::InvalidAttribute(m)) => assert_eq!(m, "m"),
        other => panic!("unexpected {:?}", other),
    }
    match registry_plan(ok("Plugin"), Err("n".to_string())) {
        Err(ExpandError::InvalidItem(m)) => assert_eq!(m, "n"),
        other => panic!("unexpected {:?}", other),
    }
}
