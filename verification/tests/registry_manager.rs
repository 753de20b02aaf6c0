use zoisite::registry::{
    write_debug_record, Registry, RegistryImplementation, RegistryImplementationWrapper, RegistryStorage,
    __register_implementation,
};

trait TestTrait {
    fn foo(&self) -> u32;
}

#[derive(Default)]
struct MyStruct;

impl TestTrait for MyStruct {
    fn foo(&self) -> u32 {
        123
    }
}

impl RegistryImplementation<Box<dyn TestTrait>> for MyStruct {
    const HAS_CONSTRUCTOR: bool = true;
    const NAME: &'static str = "MyStruct";
    const PATH: &'static str = "MyStruct";
    const FILE: &'static str = "tests/registry_manager.rs";
    const MODULE_PATH: &'static str = "registry_manager";
    const TRAIT_NAME: &'static str = "TestTrait";

    fn initiate() -> Option<Box<dyn TestTrait>> {
        Some(Box::new(Self::default()))
    }
}

enum MyEnum {
    #[allow(unused)]
    MyEnumVariant,
}

impl TestTrait for MyEnum {
    fn foo(&self) -> u32 {
        456
    }
}

impl RegistryImplementation<Box<dyn TestTrait>> for MyEnum {
    const HAS_CONSTRUCTOR: bool = false;
    const NAME: &'static str = "MyEnum";
    const PATH: &'static str = "MyEnum";
    const FILE: &'static str = "tests/registry_manager.rs";
    const MODULE_PATH: &'static str = "registry_manager";
    const TRAIT_NAME: &'static str = "TestTrait";

    fn initiate() -> Option<Box<dyn TestTrait>> {
        None
    }
}

/// An implementation seen through the same boxed type, registered under the
/// name of another trait.
#[derive(Default)]
struct Elsewhere;

impl TestTrait for Elsewhere {
    fn foo(&self) -> u32 {
        789
    }
}

impl RegistryImplementation<Box<dyn TestTrait>> for Elsewhere {
    const HAS_CONSTRUCTOR: bool = true;
    const NAME: &'static str = "Elsewhere";
    const PATH: &'static str = "Elsewhere";
    const FILE: &'static str = "other.rs";
    const MODULE_PATH: &'static str = "other";
    const TRAIT_NAME: &'static str = "OtherTrait";

    fn initiate() -> Option<Box<dyn TestTrait>> {
        Some(Box::new(Self::default()))
    }
}

fn test_registry() -> Registry<Box<dyn TestTrait>> {
    let mut registry = Registry::new();
    __register_implementation::<Box<dyn TestTrait>, MyStruct>(&mut registry);
    __register_implementation::<Box<dyn TestTrait>, MyEnum>(&mut registry);
    registry
}

#[test]
fn main() {
    let registry = test_registry();
    let testtrait_registry = RegistryStorage::__new(&registry, "TestTrait");

    assert_eq!(2, testtrait_registry.iter().count());
    assert_eq!(1, testtrait_registry.initiate_all().len());

    let instance = testtrait_registry.initiate_all().into_iter().next().unwrap();
    assert_eq!(instance.foo(), 123);
}

#[test]
fn storage_keeps_registration_order() {
    let registry = test_registry();
    let storage = RegistryStorage::__new(&registry, "TestTrait");
    let names: Vec<&str> = storage.iter().map(|w| w.name()).collect();
    assert_eq!(names, vec!["MyStruct", "MyEnum"]);
}

#[test]
fn storage_holds_only_its_trait() {
    let mut registry = test_registry();
    __register_implementation::<Box<dyn TestTrait>, Elsewhere>(&mut registry);

    let mine = RegistryStorage::__new(&registry, "TestTrait");
    let names: Vec<&str> = mine.iter().map(|w| w.name()).collect();
    assert_eq!(names, vec!["MyStruct", "MyEnum"]);

    let other = RegistryStorage::__new(&registry, "OtherTrait");
    assert_eq!(1, other.iter().count());
    let instances = other.initiate_all();
    assert_eq!(1, instances.len());
    assert_eq!(instances[0].foo(), 789);

    let none = RegistryStorage::__new(&registry, "Missing");
    assert_eq!(0, none.iter().count());
    assert_eq!(0, none.initiate_all().len());
}

#[test]
fn empty_registry_gives_empty_storage() {
    let registry: Registry<Box<dyn TestTrait>> = Registry::new();
    let storage = RegistryStorage::__new(&registry, "TestTrait");
    assert_eq!(0, storage.iter().count());
    assert!(storage.initiate_all().is_empty());
}

#[test]
fn initiate_follows_has_constructor() {
    let registry = test_registry();
    let storage = RegistryStorage::__new(&registry, "TestTrait");
    for wrapper in storage.iter() {
        assert_eq!(wrapper.initiate().is_some(), wrapper.has_constructor());
    }
    let first: &RegistryImplementationWrapper<Box<dyn TestTrait>> = storage.iter().next().unwrap();
    assert!(first.has_constructor());
    assert_eq!(first.initiate().unwrap().foo(), 123);
}

#[test]
fn wrapper_getters_give_the_recorded_names() {
    let registry = test_registry();
    let storage = RegistryStorage::__new(&registry, "TestTrait");
    let second = storage.iter().nth(1).unwrap();
    assert_eq!(second.name(), "MyEnum");
    assert_eq!(second.path(), "MyEnum");
    assert_eq!(second.file(), "tests/registry_manager.rs");
    assert_eq!(second.module(), "registry_manager");
    assert_eq!(second.trait_name(), "TestTrait");
    assert!(!second.has_constructor());
    assert!(second.initiate().is_none());
}

#[test]
fn storages_share_the_registered_constructors() {
    let registry = test_registry();
    let first = RegistryStorage::__new(&registry, "TestTrait");
    let second = RegistryStorage::__new(&registry, "TestTrait");
    assert_eq!(first.initiate_all()[0].foo(), 123);
    assert_eq!(second.initiate_all()[0].foo(), 123);
    let copy = first.iter().next().unwrap().clone();
    assert_eq!(copy.name(), "MyStruct");
    assert_eq!(copy.initiate().unwrap().foo(), 123);
}

#[test]
fn debug_text_of_a_wrapper() {
    let registry = test_registry();
    let storage = RegistryStorage::__new(&registry, "TestTrait");
    let first = storage.iter().next().unwrap();
    assert_eq!(
        first.fmt_debug(false),
        "RegistryImplementation { Name: \"MyStruct\", Path: \"MyStruct\", Trait Name: \"TestTrait\", \
         Has Constructor: true, Module Path: \"registry_manager\", File: \"tests/registry_manager.rs\" }"
    );
    assert_eq!(
        first.fmt_debug(true),
        "RegistryImplementation {\n    Name: \"MyStruct\",\n    Path: \"MyStruct\",\n    Trait Name: \"TestTrait\",\n    \
         Has Constructor: true,\n    Module Path: \"registry_manager\",\n    File: \"tests/registry_manager.rs\",\n}"
    );
}

#[test]
fn debug_record_from_shown_fields() {
    assert_eq!(
        write_debug_record("n", "p", "t", false, "m", "f", false),
        "RegistryImplementation { Name: n, Path: p, Trait Name: t, Has Constructor: false, Module Path: m, File: f }"
    );
    assert_eq!(
        write_debug_record("n", "p", "t", true, "m", "f", true),
        "RegistryImplementation {\n    Name: n,\n    Path: p,\n    Trait Name: t,\n    Has Constructor: true,\n    Module Path: m,\n    File: f,\n}"
    );
}

#[test]
fn registration_decision_matches_the_recorded_implementation() {
    let registration = zoisite::expansion::register(
        "default",
        "impl TestTrait for MyStruct { fn foo(&self) -> u32 { 123 } }",
    )
    .ok()
    .unwrap();
    assert_eq!(<MyStruct as RegistryImplementation<Box<dyn TestTrait>>>::NAME, registration.name);
    assert_eq!(<MyStruct as RegistryImplementation<Box<dyn TestTrait>>>::PATH, registration.name);
    assert_eq!(
        <MyStruct as RegistryImplementation<Box<dyn TestTrait>>>::TRAIT_NAME,
        registration.trait_name
    );
    assert_eq!(
        <MyStruct as RegistryImplementation<Box<dyn TestTrait>>>::HAS_CONSTRUCTOR,
        registration.has_constructor
    );
    let registry = test_registry();
    let storage = RegistryStorage::__new(&registry, "TestTrait");
    assert_eq!(storage.iter().next().unwrap().name(), registration.name);
    assert_eq!(storage.initiate_all().len(), 1);
}
