//! A registry of trait implementations.
//!
//! Every implementation of a trait that is registered is recorded together
//! with its names and, where it has one, its constructor. A
//! [`RegistryStorage`] for one trait holds the registered implementations of
//! that trait, in the order in which they were registered, and can build an
//! instance of each of them that has a constructor.
use std::marker::PhantomData;
use std::rc::Rc;
use vstd::prelude::*;
use vstd::std_specs::iter::IteratorSpec;

verus! {

/// What the registry records of one implementation, as plain values.
#[verifier::reject_recursive_types(Trait)]
pub struct ImplementationView<Trait> {
    pub has_constructor: bool,
    pub name: Seq<char>,
    pub path: Seq<char>,
    pub file: Seq<char>,
    pub module: Seq<char>,
    pub trait_name: Seq<char>,
    /// The instances that the implementation's constructor may build.
    pub constructs: spec_fn(Trait) -> bool,
}

/// A type that can be registered as an implementation of a trait, seen
/// through `Trait` (most often a boxed trait object).
///
/// An impl records the type's name and path, the source file and module it
/// stands in, and the trait's name; `initiate` builds an instance exactly
/// when `HAS_CONSTRUCTOR` is set.
pub trait RegistryImplementation<Trait> {
    const HAS_CONSTRUCTOR: bool;
    const NAME: &'static str;
    const PATH: &'static str;
    const FILE: &'static str;
    const MODULE_PATH: &'static str;
    const TRAIT_NAME: &'static str;

    /// The instances that `initiate` may build; any instance, unless the
    /// implementation says more.
    open spec fn constructs(value: Trait) -> bool {
        true
    }

    /// Builds an instance with the registered constructor, if there is one.
    fn initiate() -> (instance: Option<Trait>)
        ensures
            instance is Some <==> Self::HAS_CONSTRUCTOR,
            instance matches Some(v) ==> Self::constructs(v),
    ;
}

/// The constructor of one registered implementation, with its type erased.
trait Initiate<Trait> {
    spec fn has_constructor(&self) -> bool;

    spec fn constructs(&self, value: Trait) -> bool;

    fn initiate(&self) -> (instance: Option<Trait>)
        ensures
            instance is Some <==> self.has_constructor(),
            instance matches Some(v) ==> self.constructs(v),
    ;
}

/// A constructor of some registered implementation.
#[verifier::reject_recursive_types(Trait)]
struct Constructor<Trait> {
    inner: Box<dyn Initiate<Trait>>,
}

/// The constructor of the implementation `Type`.
struct InitiateByType<Trait, Type> {
    marker: PhantomData<(Trait, Type)>,
}

impl<Trait, Type: RegistryImplementation<Trait>> Initiate<Trait> for InitiateByType<Trait, Type> {
    spec fn has_constructor(&self) -> bool {
        Type::HAS_CONSTRUCTOR
    }

    spec fn constructs(&self, value: Trait) -> bool {
        Type::constructs(value)
    }

    fn initiate(&self) -> (instance: Option<Trait>) {
        Type::initiate()
    }
}

/// Calls `Rc::clone`, which hands out one more pointer to the same
/// allocation: the copy holds the value that `shared` holds.
#[verifier::external_body]
fn share<T>(shared: &Rc<T>) -> (copy: Rc<T>)
    ensures
        copy == *shared,
{
    Rc::clone(shared)
}

/// One registered implementation: its constructor and its names.
#[verifier::reject_recursive_types(Trait)]
pub struct RegistryImplementationWrapper<Trait> {
    initiate: Rc<Constructor<Trait>>,
    has_constructor: bool,
    name: &'static str,
    path: &'static str,
    file: &'static str,
    module: &'static str,
    trait_name: &'static str,
}

impl<Trait> View for RegistryImplementationWrapper<Trait> {
    type V = ImplementationView<Trait>;

    closed spec fn view(&self) -> ImplementationView<Trait> {
        ImplementationView {
            has_constructor: self.has_constructor,
            name: self.name@,
            path: self.path@,
            file: self.file@,
            module: self.module@,
            trait_name: self.trait_name@,
            constructs: |v: Trait| self.initiate.inner.constructs(v),
        }
    }
}

/// The record that registering `Type` adds to a registry.
pub open spec fn implementation_of<Trait, Type: RegistryImplementation<Trait>>() -> ImplementationView<Trait> {
    ImplementationView {
        has_constructor: Type::HAS_CONSTRUCTOR,
        name: Type::NAME@,
        path: Type::PATH@,
        file: Type::FILE@,
        module: Type::MODULE_PATH@,
        trait_name: Type::TRAIT_NAME@,
        constructs: |v: Trait| Type::constructs(v),
    }
}

impl<Trait> RegistryImplementationWrapper<Trait> {
    /// The stored constructor agrees with the recorded `has_constructor`.
    #[verifier::type_invariant]
    spec fn constructor_agrees(self) -> bool {
        self.initiate.inner.has_constructor() == self.has_constructor
    }

    /// Records the implementation `Type`.
    fn of_type<Type: RegistryImplementation<Trait> + 'static>() -> (wrapper: Self)
        where Trait: 'static,
        ensures
            wrapper@ == implementation_of::<Trait, Type>(),
    {
        let constructor: InitiateByType<Trait, Type> = InitiateByType { marker: PhantomData };
        let wrapper = RegistryImplementationWrapper {
            initiate: Rc::new(Constructor { inner: Box::new(constructor) }),
            has_constructor: Type::HAS_CONSTRUCTOR,
            name: Type::NAME,
            path: Type::PATH,
            file: Type::FILE,
            module: Type::MODULE_PATH,
            trait_name: Type::TRAIT_NAME,
        };
        assert(wrapper@.constructs =~= implementation_of::<Trait, Type>().constructs);
        wrapper
    }

    /// Builds an instance with the implementation's constructor, if it has
    /// one.
    pub fn initiate(&self) -> (instance: Option<Trait>)
        ensures
            instance is Some <==> self@.has_constructor,
            instance matches Some(v) ==> (self@.constructs)(v),
    {
        proof {
            use_type_invariant(self);
        }
        self.initiate.inner.initiate()
    }

    pub fn has_constructor(&self) -> (has: bool)
        ensures
            has == self@.has_constructor,
    {
        self.has_constructor
    }

    pub fn name(&self) -> (name: &'static str)
        ensures
            name@ == self@.name,
    {
        self.name
    }

    pub fn path(&self) -> (path: &'static str)
        ensures
            path@ == self@.path,
    {
        self.path
    }

    pub fn file(&self) -> (file: &'static str)
        ensures
            file@ == self@.file,
    {
        self.file
    }

    pub fn module(&self) -> (module: &'static str)
        ensures
            module@ == self@.module,
    {
        self.module
    }

    pub fn trait_name(&self) -> (trait_name: &'static str)
        ensures
            trait_name@ == self@.trait_name,
    {
        self.trait_name
    }
}

/// What `{:?}` shows of a text: the text between double quotes, with the
/// characters that need it escaped.
pub uninterp spec fn str_debug(text: Seq<char>) -> Seq<char>;

/// Calls the `Debug` formatting of `str` (through `format!("{:?}", ..)`);
/// the result is named `str_debug`, a function of the text alone, and
/// nothing more is claimed of it.
#[verifier::external_body]
pub(crate) fn debug_str(text: &str) -> (shown: String)
    ensures
        shown@ == str_debug(text@),
{
    format!("{:?}", text)
}

/// What `{:?}` shows of a `bool`.
pub open spec fn bool_text(b: bool) -> Seq<char> {
    if b {
        "true"@
    } else {
        "false"@
    }
}

/// The debug record named `RegistryImplementation` whose fields show as
/// the texts given, in this order; `alternate` puts one field on each line,
/// as `{:#?}` does.
pub open spec fn debug_record(
    name: Seq<char>,
    path: Seq<char>,
    trait_name: Seq<char>,
    has_constructor: bool,
    module: Seq<char>,
    file: Seq<char>,
    alternate: bool,
) -> Seq<char> {
    let open_brace: Seq<char> = if alternate {
        " {\n    "@
    } else {
        " { "@
    };
    let separator: Seq<char> = if alternate {
        ",\n    "@
    } else {
        ", "@
    };
    let close_brace: Seq<char> = if alternate {
        ",\n}"@
    } else {
        " }"@
    };
    "RegistryImplementation"@ + open_brace + "Name: "@ + name + separator + "Path: "@ + path
        + separator + "Trait Name: "@ + trait_name + separator + "Has Constructor: "@ + bool_text(
        has_constructor,
    ) + separator + "Module Path: "@ + module + separator + "File: "@ + file + close_brace
}

/// The text that shows `implementation` as a debug record named
/// `RegistryImplementation`; `alternate` asks for one field per line, as
/// `{:#?}` does.
pub open spec fn debug_text<Trait>(implementation: ImplementationView<Trait>, alternate: bool) -> Seq<
    char,
> {
    debug_record(
        str_debug(implementation.name),
        str_debug(implementation.path),
        str_debug(implementation.trait_name),
        implementation.has_constructor,
        str_debug(implementation.module),
        str_debug(implementation.file),
        alternate,
    )
}

/// An implementation shows as a record named `RegistryImplementation` with
/// its fields in this order: its name, its path, its trait's name (each as
/// `{:?}` shows a text), whether it has a constructor (`true` or `false`),
/// its module and its file; on one line, or one field per line where
/// `alternate` is set.
pub proof fn lemma_debug_text_shows_fields<Trait>(
    implementation: ImplementationView<Trait>,
    alternate: bool,
)
    ensures
        !alternate ==> debug_text(implementation, alternate) == "RegistryImplementation { Name: "@
            + str_debug(implementation.name) + ", Path: "@ + str_debug(implementation.path)
            + ", Trait Name: "@ + str_debug(implementation.trait_name) + ", Has Constructor: "@ + (
        if implementation.has_constructor {
            "true"@
        } else {
            "false"@
        }) + ", Module Path: "@ + str_debug(implementation.module) + ", File: "@ + str_debug(
            implementation.file,
        ) + " }"@,
        alternate ==> debug_text(implementation, alternate) == "RegistryImplementation {\n    Name: "@
            + str_debug(implementation.name) + ",\n    Path: "@ + str_debug(implementation.path)
            + ",\n    Trait Name: "@ + str_debug(implementation.trait_name)
            + ",\n    Has Constructor: "@ + (if implementation.has_constructor {
            "true"@
        } else {
            "false"@
        }) + ",\n    Module Path: "@ + str_debug(implementation.module) + ",\n    File: "@
            + str_debug(implementation.file) + ",\n}"@,
{
    reveal_strlit("RegistryImplementation { Name: ");
    reveal_strlit(", Path: ");
    reveal_strlit(", Trait Name: ");
    reveal_strlit(", Has Constructor: ");
    reveal_strlit(", Module Path: ");
    reveal_strlit(", File: ");
    reveal_strlit(" }");
    reveal_strlit("RegistryImplementation {\n    Name: ");
    reveal_strlit(",\n    Path: ");
    reveal_strlit(",\n    Trait Name: ");
    reveal_strlit(",\n    Has Constructor: ");
    reveal_strlit(",\n    Module Path: ");
    reveal_strlit(",\n    File: ");
    reveal_strlit(",\n}");
    reveal_strlit("RegistryImplementation");
    reveal_strlit(" { ");
    reveal_strlit(", ");
    reveal_strlit(" {\n    ");
    reveal_strlit(",\n    ");
    reveal_strlit("Name: ");
    reveal_strlit("Path: ");
    reveal_strlit("Trait Name: ");
    reveal_strlit("Has Constructor: ");
    reveal_strlit("Module Path: ");
    reveal_strlit("File: ");
    assert(debug_text(implementation, alternate) =~= (if alternate {
        "RegistryImplementation {\n    Name: "@
            + str_debug(implementation.name) + ",\n    Path: "@ + str_debug(implementation.path)
            + ",\n    Trait Name: "@ + str_debug(implementation.trait_name)
            + ",\n    Has Constructor: "@ + bool_text(implementation.has_constructor)
            + ",\n    Module Path: "@ + str_debug(implementation.module) + ",\n    File: "@
            + str_debug(implementation.file) + ",\n}"@
    } else {
        "RegistryImplementation { Name: "@
            + str_debug(implementation.name) + ", Path: "@ + str_debug(implementation.path)
            + ", Trait Name: "@ + str_debug(implementation.trait_name) + ", Has Constructor: "@
            + bool_text(implementation.has_constructor) + ", Module Path: "@ + str_debug(
            implementation.module,
        ) + ", File: "@ + str_debug(implementation.file) + " }"@
    }));
}

/// Writes the debug record named `RegistryImplementation` whose fields
/// show as the texts given.
pub fn write_debug_record(
    name: &str,
    path: &str,
    trait_name: &str,
    has_constructor: bool,
    module: &str,
    file: &str,
    alternate: bool,
) -> (shown: String)
    ensures
        shown@ == debug_record(name@, path@, trait_name@, has_constructor, module@, file@, alternate),
{
    let open_brace = if alternate {
        " {\n    "
    } else {
        " { "
    };
    let separator = if alternate {
        ",\n    "
    } else {
        ", "
    };
    let close_brace = if alternate {
        ",\n}"
    } else {
        " }"
    };
    let mut shown = String::new();
    shown.append("RegistryImplementation");
    shown.append(open_brace);
    shown.append("Name: ");
    shown.append(name);
    shown.append(separator);
    shown.append("Path: ");
    shown.append(path);
    shown.append(separator);
    shown.append("Trait Name: ");
    shown.append(trait_name);
    shown.append(separator);
    shown.append("Has Constructor: ");
    shown.append(
        if has_constructor {
            "true"
        } else {
            "false"
        },
    );
    shown.append(separator);
    shown.append("Module Path: ");
    shown.append(module);
    shown.append(separator);
    shown.append("File: ");
    shown.append(file);
    shown.append(close_brace);
    shown
}

impl<Trait> RegistryImplementationWrapper<Trait> {
    /// Shows the implementation as `{:?}` shows a record, or as `{:#?}` does
    /// where `alternate` is set.
    pub fn fmt_debug(&self, alternate: bool) -> (shown: String)
        ensures
            shown@ == debug_text(self@, alternate),
            shown@ == debug_record(
                str_debug(self@.name),
                str_debug(self@.path),
                str_debug(self@.trait_name),
                self@.has_constructor,
                str_debug(self@.module),
                str_debug(self@.file),
                alternate,
            ),
    {
        let name = debug_str(self.name);
        let path = debug_str(self.path);
        let trait_name = debug_str(self.trait_name);
        let module = debug_str(self.module);
        let file = debug_str(self.file);
        write_debug_record(
            name.as_str(),
            path.as_str(),
            trait_name.as_str(),
            self.has_constructor,
            module.as_str(),
            file.as_str(),
            alternate,
        )
    }
}

impl<Trait> Clone for RegistryImplementationWrapper<Trait> {
    fn clone(&self) -> (copy: Self)
        ensures
            copy@ == self@,
    {
        proof {
            use_type_invariant(self);
        }
        let copy = RegistryImplementationWrapper {
            initiate: share(&self.initiate),
            has_constructor: self.has_constructor,
            name: self.name,
            path: self.path,
            file: self.file,
            module: self.module,
            trait_name: self.trait_name,
        };
        assert(copy@.constructs =~= self@.constructs);
        copy
    }
}

/// Whether `a` and `b` hold the same text.
fn same_text(a: &str, b: &str) -> (same: bool)
    ensures
        same == (a@ == b@),
{
    a.to_owned() == b.to_owned()
}

/// The records of `impls` that implement the trait named `trait_name`, in
/// the order of `impls`.
pub open spec fn implementations_of<Trait>(
    impls: Seq<ImplementationView<Trait>>,
    trait_name: Seq<char>,
) -> Seq<ImplementationView<Trait>> {
    impls.filter(|w: ImplementationView<Trait>| w.trait_name == trait_name)
}

/// Whether `value` is an instance that the constructor of the implementation
/// recorded in `implementation` may build.
pub open spec fn builds<Trait>(implementation: ImplementationView<Trait>, value: Trait) -> bool {
    (implementation.constructs)(value)
}

/// The records of `impls` that have a constructor, in the order of `impls`.
pub open spec fn constructible<Trait>(impls: Seq<ImplementationView<Trait>>) -> Seq<
    ImplementationView<Trait>,
> {
    impls.filter(|w: ImplementationView<Trait>| w.has_constructor)
}

/// Every implementation that has been registered, of any trait that is seen
/// through `Trait`, in the order of registration.
#[verifier::reject_recursive_types(Trait)]
pub struct Registry<Trait> {
    impls: Vec<RegistryImplementationWrapper<Trait>>,
}

impl<Trait> View for Registry<Trait> {
    type V = Seq<ImplementationView<Trait>>;

    closed spec fn view(&self) -> Seq<ImplementationView<Trait>> {
        self.impls@.map_values(|w: RegistryImplementationWrapper<Trait>| w@)
    }
}

impl<Trait> Registry<Trait> {
    /// A registry with nothing registered yet.
    pub fn new() -> (registry: Self)
        ensures
            registry@ == Seq::<ImplementationView<Trait>>::empty(),
    {
        let registry = Registry { impls: Vec::new() };
        assert(registry@ =~= Seq::<ImplementationView<Trait>>::empty());
        registry
    }
}

/// Registers the implementation `Type`: its record is added after those
/// registered before it.
pub fn __register_implementation<Trait: 'static, Type: RegistryImplementation<Trait> + 'static>(
    registry: &mut Registry<Trait>,
)
    ensures
        final(registry)@ == old(registry)@.push(implementation_of::<Trait, Type>()),
{
    let wrapper = RegistryImplementationWrapper::<Trait>::of_type::<Type>();
    registry.impls.push(wrapper);
    assert(final(registry)@ =~= old(registry)@.push(implementation_of::<Trait, Type>()));
}

/// The registered implementations of one trait.
#[verifier::reject_recursive_types(Trait)]
pub struct RegistryStorage<Trait> {
    impls: Vec<RegistryImplementationWrapper<Trait>>,
}

impl<Trait> View for RegistryStorage<Trait> {
    type V = Seq<ImplementationView<Trait>>;

    closed spec fn view(&self) -> Seq<ImplementationView<Trait>> {
        self.impls@.map_values(|w: RegistryImplementationWrapper<Trait>| w@)
    }
}

impl<Trait> RegistryStorage<Trait> {
    /// The implementations in `registry` of the trait named `trait_`, in the
    /// order in which they were registered.
    pub fn __new(registry: &Registry<Trait>, trait_: &'static str) -> (storage: Self)
        ensures
            storage@ == implementations_of(registry@, trait_@),
    {
        let mut impls: Vec<RegistryImplementationWrapper<Trait>> = Vec::new();
        let n = registry.impls.len();
        for i in 0..n
            invariant
                n == registry.impls@.len(),
                impls@.map_values(|w: RegistryImplementationWrapper<Trait>| w@)
                    == implementations_of(registry@.take(i as int), trait_@),
        {
            proof {
                reveal_with_fuel(Seq::filter, 1);
                assert(registry@.take(i + 1).drop_last() =~= registry@.take(i as int));
            }
            let item = &registry.impls[i];
            if same_text(item.trait_name, trait_) {
                let copy = item.clone();
                impls.push(copy);
                assert(impls@.map_values(|w: RegistryImplementationWrapper<Trait>| w@)
                    =~= implementations_of(registry@.take(i + 1), trait_@));
            } else {
                assert(impls@.map_values(|w: RegistryImplementationWrapper<Trait>| w@)
                    =~= implementations_of(registry@.take(i + 1), trait_@));
            }
        }
        assert(registry@.take(n as int) =~= registry@);
        RegistryStorage { impls }
    }

    /// The stored implementations, in order.
    pub fn iter(&self) -> (it: core::slice::Iter<'_, RegistryImplementationWrapper<Trait>>)
        ensures
            it.remaining().map_values(|w: &RegistryImplementationWrapper<Trait>| w@) == self@,
    {
        broadcast use vstd::std_specs::slice::axiom_spec_slice_iter;

        let it = self.impls.as_slice().iter();
        assert(it.remaining().map_values(|w: &RegistryImplementationWrapper<Trait>| w@) =~= self@);
        it
    }

    /// An instance of each stored implementation that has a constructor, in
    /// order.
    pub fn initiate_all(&self) -> (instances: Vec<Trait>)
        ensures
            instances.len() == constructible(self@).len(),
            forall|i: int|
                0 <= i < instances.len() ==> #[trigger] builds(constructible(self@)[i], instances@[i]),
    {
        let mut instances: Vec<Trait> = Vec::new();
        let n = self.impls.len();
        let mut i: usize = 0;
        while i < n
            invariant
                i <= n,
                n == self.impls@.len(),
                instances.len() == constructible(self@.take(i as int)).len(),
                forall|j: int|
                    0 <= j < instances.len() ==> #[trigger] builds(
                        constructible(self@.take(i as int))[j],
                        instances@[j],
                    ),
            decreases n - i,
        {
            let ghost before = constructible(self@.take(i as int));
            let ghost current = self@[i as int];
            let ghost earlier = instances@;
            proof {
                reveal_with_fuel(Seq::filter, 1);
                assert(self@.take(i + 1).drop_last() =~= self@.take(i as int));
                assert(self@.take(i + 1).last() == current);
            }
            match self.impls[i].initiate() {
                Some(instance) => {
                    instances.push(instance);
                },
                None => {},
            }
            let ghost after = constructible(self@.take(i + 1));
            assert forall|j: int| 0 <= j < instances.len() implies #[trigger] builds(after[j], instances@[j]) by {
                if j < earlier.len() {
                    assert(instances@[j] == earlier[j]);
                }
            }
            i = i + 1;
        }
        assert(self@.take(n as int) =~= self@);
        instances
    }
}

/// Registering an implementation adds it to the implementations of its own
/// trait, after those registered before it, and leaves the implementations
/// of every other trait as they were.
pub proof fn lemma_registration_reaches_its_trait_only<Trait>(
    impls: Seq<ImplementationView<Trait>>,
    added: ImplementationView<Trait>,
    trait_name: Seq<char>,
)
    ensures
        implementations_of(impls.push(added), trait_name) == if added.trait_name == trait_name {
            implementations_of(impls, trait_name).push(added)
        } else {
            implementations_of(impls, trait_name)
        },
{
    reveal_with_fuel(Seq::filter, 1);
    assert(impls.push(added).drop_last() =~= impls);
}

/// The implementations of a trait all name that trait, and every registered
/// implementation that names the trait is among them.
pub proof fn lemma_implementations_of_exactly<Trait>(
    impls: Seq<ImplementationView<Trait>>,
    trait_name: Seq<char>,
)
    ensures
        forall|i: int|
            0 <= i < implementations_of(impls, trait_name).len() ==> (#[trigger] implementations_of(
                impls,
                trait_name,
            )[i]).trait_name == trait_name,
        forall|i: int|
            0 <= i < impls.len() && (#[trigger] impls[i]).trait_name == trait_name
                ==> implementations_of(impls, trait_name).contains(impls[i]),
{
    let pred = |w: ImplementationView<Trait>| w.trait_name == trait_name;
    assert forall|i: int| 0 <= i < implementations_of(impls, trait_name).len() implies (
    #[trigger] implementations_of(impls, trait_name)[i]).trait_name == trait_name by {
        impls.lemma_filter_pred(pred, i);
    }
    assert forall|i: int| 0 <= i < impls.len() && (#[trigger] impls[i]).trait_name == trait_name
        implies implementations_of(impls, trait_name).contains(impls[i]) by {
        impls.lemma_filter_contains(pred, i);
    }
}

/// Registering an implementation with a constructor adds one to those that
/// can be built, after the others; one without leaves them as they were.
pub proof fn lemma_registration_constructible<Trait>(
    impls: Seq<ImplementationView<Trait>>,
    added: ImplementationView<Trait>,
)
    ensures
        constructible(impls.push(added)) == if added.has_constructor {
            constructible(impls).push(added)
        } else {
            constructible(impls)
        },
{
    reveal_with_fuel(Seq::filter, 1);
    assert(impls.push(added).drop_last() =~= impls);
}

} // verus!
