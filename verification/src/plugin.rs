//! Plugins: the trait they implement, the parameters they are run with, and
//! the plugin that says hello.
use crate::registry::RegistryImplementation;
use vstd::prelude::*;

verus! {

/// A map from parameter names to their values.
pub struct ParamMap {
    entries: Vec<(String, String)>,
}

/// The map that the entries `entries` stand for: a later entry for a key
/// replaces an earlier one.
pub open spec fn entries_map(entries: Seq<(String, String)>) -> Map<Seq<char>, Seq<char>>
    decreases entries.len(),
{
    if entries.len() == 0 {
        Map::empty()
    } else {
        entries_map(entries.drop_last()).insert(entries.last().0@, entries.last().1@)
    }
}

/// No key occurs in two entries.
pub open spec fn keys_distinct(entries: Seq<(String, String)>) -> bool {
    forall|i: int, j: int|
        0 <= i < entries.len() && 0 <= j < entries.len() && i != j ==> #[trigger] entries[i].0@
            != #[trigger] entries[j].0@
}

/// In entries whose keys are distinct, the entry at `i` is the one the map
/// holds for its key, and a key is in the map just where it is in an entry.
proof fn lemma_entries_map(entries: Seq<(String, String)>)
    requires
        keys_distinct(entries),
    ensures
        forall|i: int|
            0 <= i < entries.len() ==> #[trigger] entries_map(entries).contains_key(entries[i].0@)
                && entries_map(entries)[entries[i].0@] == entries[i].1@,
        forall|k: Seq<char>|
            #[trigger] entries_map(entries).contains_key(k) ==> exists|i: int|
                0 <= i < entries.len() && #[trigger] entries[i].0@ == k,
        entries_map(entries).dom().finite(),
        entries_map(entries).len() == entries.len(),
    decreases entries.len(),
{
    if entries.len() > 0 {
        let rest = entries.drop_last();
        assert(keys_distinct(rest));
        lemma_entries_map(rest);
        let last = entries.last();
        assert(!entries_map(rest).contains_key(last.0@)) by {
            if entries_map(rest).contains_key(last.0@) {
                let i = choose|i: int| 0 <= i < rest.len() && #[trigger] rest[i].0@ == last.0@;
                assert(entries[i].0@ == entries[entries.len() - 1].0@);
            }
        }
        assert forall|k: Seq<char>| #[trigger] entries_map(entries).contains_key(k) implies exists|
            i: int,
        | 0 <= i < entries.len() && #[trigger] entries[i].0@ == k by {
            if k != last.0@ {
                let i = choose|i: int| 0 <= i < rest.len() && #[trigger] rest[i].0@ == k;
                assert(entries[i].0@ == k);
            } else {
                assert(entries[entries.len() - 1].0@ == k);
            }
        }
        assert forall|i: int| 0 <= i < entries.len() implies #[trigger] entries_map(
            entries,
        ).contains_key(entries[i].0@) && entries_map(entries)[entries[i].0@] == entries[i].1@ by {
            if i < entries.len() - 1 {
                assert(entries[i] == rest[i]);
                assert(entries[i].0@ != last.0@);
            }
        }
    }
}

impl View for ParamMap {
    type V = Map<Seq<char>, Seq<char>>;

    closed spec fn view(&self) -> Map<Seq<char>, Seq<char>> {
        entries_map(self.entries@)
    }
}

impl ParamMap {
    #[verifier::type_invariant]
    spec fn keys_are_distinct(self) -> bool {
        keys_distinct(self.entries@)
    }

    /// A map with no parameters.
    pub fn new() -> (map: Self)
        ensures
            map@ == Map::<Seq<char>, Seq<char>>::empty(),
    {
        ParamMap { entries: Vec::new() }
    }

    /// The position of the entry for `key`, if there is one.
    fn position(&self, key: &str) -> (pos: Option<usize>)
        ensures
            match pos {
                Some(i) => i < self.entries@.len() && self.entries@[i as int].0@ == key@,
                None => forall|i: int|
                    0 <= i < self.entries@.len() ==> #[trigger] self.entries@[i].0@ != key@,
            },
    {
        let n = self.entries.len();
        let mut i: usize = 0;
        while i < n
            invariant
                i <= n,
                n == self.entries@.len(),
                forall|j: int| 0 <= j < i ==> #[trigger] self.entries@[j].0@ != key@,
            decreases n - i,
        {
            if self.entries[i].0.as_str().to_owned() == key.to_owned() {
                return Some(i);
            }
            i = i + 1;
        }
        None
    }

    /// The number of parameters.
    pub fn len(&self) -> (n: usize)
        ensures
            n == self@.len(),
    {
        proof {
            use_type_invariant(self);
            lemma_entries_map(self.entries@);
        }
        self.entries.len()
    }

    /// The value of the parameter `key`, if it is set.
    pub fn get(&self, key: &str) -> (value: Option<&String>)
        ensures
            value is Some <==> self@.contains_key(key@),
            value matches Some(v) ==> v@ == self@[key@],
    {
        proof {
            use_type_invariant(self);
            lemma_entries_map(self.entries@);
        }
        match self.position(key) {
            Some(i) => {
                assert(entries_map(self.entries@).contains_key(self.entries@[i as int].0@));
                Some(&self.entries[i].1)
            },
            None => {
                assert(!self@.contains_key(key@));
                None
            },
        }
    }

    /// Sets the parameter `key` to `value`, and gives back the value it had
    /// before, if it was set.
    pub fn insert(&mut self, key: String, value: String) -> (previous: Option<String>)
        ensures
            final(self)@ == old(self)@.insert(key@, value@),
            previous is Some <==> old(self)@.contains_key(key@),
            previous matches Some(v) ==> v@ == old(self)@[key@],
    {
        proof {
            use_type_invariant(&*self);
            lemma_entries_map(self.entries@);
        }
        match self.position(key.as_str()) {
            Some(i) => {
                let ghost before = self.entries@;
                let ghost k = key@;
                let ghost v = value@;
                let mut entries: Vec<(String, String)> = Vec::new();
                std::mem::swap(&mut entries, &mut self.entries);
                let (_, previous) = entries.remove(i);
                entries.insert(i, (key, value));
                proof {
                    assert(entries@[i as int].0@ == k);
                    assert forall|j: int| 0 <= j < entries@.len() && j != i implies #[trigger] entries@[j]
                        == before[j] by {
                        if j < i {
                        } else {
                        }
                    }
                    assert(keys_distinct(entries@));
                    lemma_entries_map(entries@);
                    lemma_entries_map(before);
                    assert(entries_map(entries@) =~= entries_map(before).insert(k, v)) by {
                        assert forall|key2: Seq<char>| #[trigger] entries_map(entries@).contains_key(key2)
                            implies entries_map(before).insert(k, v).contains_key(key2) by {
                            let j = choose|j: int| 0 <= j < entries@.len() && #[trigger] entries@[j].0@ == key2;
                            if j != i {
                                assert(before[j].0@ == key2);
                            }
                        }
                        assert forall|key2: Seq<char>| #[trigger] entries_map(before).insert(k, v).contains_key(key2)
                            implies entries_map(entries@).contains_key(key2) && entries_map(entries@)[key2]
                            == entries_map(before).insert(k, v)[key2] by {
                            if key2 != k {
                                let j = choose|j: int| 0 <= j < before.len() && #[trigger] before[j].0@ == key2;
                                assert(entries@[j] == before[j]);
                            } else {
                                assert(entries@[i as int].1@ == v);
                                assert(entries_map(entries@).contains_key(entries@[i as int].0@));
                            }
                        }
                    }
                }
                self.entries = entries;
                Some(previous)
            },
            None => {
                let ghost before = self.entries@;
                let mut entries: Vec<(String, String)> = Vec::new();
                std::mem::swap(&mut entries, &mut self.entries);
                entries.push((key, value));
                proof {
                    assert(entries@.drop_last() =~= before);
                    assert(keys_distinct(entries@));
                }
                self.entries = entries;
                None
            },
        }
    }

    /// The parameters as name and value pairs, each name once.
    pub fn pairs(&self) -> (pairs: Vec<(String, String)>)
        ensures
            pairs@.len() == self@.len(),
            keys_distinct(pairs@),
            forall|i: int|
                0 <= i < pairs@.len() ==> self@.contains_key(#[trigger] pairs@[i].0@)
                    && self@[pairs@[i].0@] == pairs@[i].1@,
    {
        proof {
            use_type_invariant(self);
            lemma_entries_map(self.entries@);
        }
        let mut pairs: Vec<(String, String)> = Vec::new();
        let n = self.entries.len();
        let mut i: usize = 0;
        while i < n
            invariant
                i <= n,
                n == self.entries@.len(),
                pairs@ == self.entries@.take(i as int),
            decreases n - i,
        {
            let (key, value) = &self.entries[i];
            pairs.push((key.clone(), value.clone()));
            proof {
                assert(pairs@ =~= self.entries@.take(i + 1));
            }
            i = i + 1;
        }
        assert(pairs@ =~= self.entries@);
        pairs
    }
}

/// Why a plugin could not do its work.
pub struct PluginError {
    message: String,
}

impl PluginError {
    pub fn new(message: String) -> (error: Self)
        ensures
            error.message() == message@,
    {
        PluginError { message }
    }

    pub closed spec fn message(&self) -> Seq<char> {
        self.message@
    }

    /// What went wrong, in words.
    pub fn describe(&self) -> (text: &str)
        ensures
            text@ == self.message(),
    {
        self.message.as_str()
    }
}

/// A run of a plugin as plain values: the answer it gave, or the message of
/// its error.
pub open spec fn outcome(result: Result<ParamMap, PluginError>) -> Result<
    Map<Seq<char>, Seq<char>>,
    Seq<char>,
> {
    match result {
        Ok(map) => Ok(map@),
        Err(error) => Err(error.message()),
    }
}

/// A plugin: something that is run with parameters and answers with
/// results.
pub trait Plugin {
    /// Whether a run on the parameters `before` may leave them as `after`
    /// and end in `outcome`; any run, unless the plugin says more.
    open spec fn runs(
        &self,
        before: Map<Seq<char>, Seq<char>>,
        after: Map<Seq<char>, Seq<char>>,
        outcome: Result<Map<Seq<char>, Seq<char>>, Seq<char>>,
    ) -> bool {
        true
    }

    fn execute(&self, params: &mut ParamMap) -> (result: Result<ParamMap, PluginError>)
        ensures
            self.runs(old(params)@, final(params)@, outcome(result)),
    ;
}

/// The answer of the plugin that says hello: `plugin = HelloPlugin`.
pub open spec fn hello_answer() -> Map<Seq<char>, Seq<char>> {
    Map::<Seq<char>, Seq<char>>::empty().insert("plugin"@, "HelloPlugin"@)
}

/// A run of the plugin that says hello: the parameters stay as they were
/// and the answer is `plugin = HelloPlugin`.
pub open spec fn hello_runs(
    before: Map<Seq<char>, Seq<char>>,
    after: Map<Seq<char>, Seq<char>>,
    outcome: Result<Map<Seq<char>, Seq<char>>, Seq<char>>,
) -> bool {
    after == before && outcome == Ok::<Map<Seq<char>, Seq<char>>, Seq<char>>(hello_answer())
}

/// The plugin that answers with its own name.
#[derive(Debug)]
pub struct HelloPlugin;

impl HelloPlugin {
    /// A boxed instance, as a plugin library hands it out: run, it leaves
    /// the parameters as they are and answers `plugin = HelloPlugin`.
    pub fn new() -> (plugin: Box<dyn Plugin>)
        ensures
            forall|
                before: Map<Seq<char>, Seq<char>>,
                after: Map<Seq<char>, Seq<char>>,
                outcome: Result<Map<Seq<char>, Seq<char>>, Seq<char>>,
            |
                #[trigger] plugin.runs(before, after, outcome) <==> hello_runs(before, after, outcome),
    {
        return Box::new(HelloPlugin);
    }
}

impl Plugin for HelloPlugin {
    open spec fn runs(
        &self,
        before: Map<Seq<char>, Seq<char>>,
        after: Map<Seq<char>, Seq<char>>,
        outcome: Result<Map<Seq<char>, Seq<char>>, Seq<char>>,
    ) -> bool {
        hello_runs(before, after, outcome)
    }

    /// Leaves the parameters as they are and answers `plugin = HelloPlugin`.
    fn execute(&self, params: &mut ParamMap) -> (result: Result<ParamMap, PluginError>)
        ensures
            final(params)@ == old(params)@,
            result matches Ok(map) && map@ == hello_answer(),
    {
        let mut map = ParamMap::new();
        map.insert("plugin".to_owned(), "HelloPlugin".to_owned());
        Ok(map)
    }
}

/// The answer of the registered plugin that says hello:
/// `plugin = HelloRegistryPlugin`.
pub open spec fn hello_registry_answer() -> Map<Seq<char>, Seq<char>> {
    Map::<Seq<char>, Seq<char>>::empty().insert("plugin"@, "HelloRegistryPlugin"@)
}

/// A run of the registered plugin that says hello: the parameters stay as
/// they were and the answer is `plugin = HelloRegistryPlugin`.
pub open spec fn hello_registry_runs(
    before: Map<Seq<char>, Seq<char>>,
    after: Map<Seq<char>, Seq<char>>,
    outcome: Result<Map<Seq<char>, Seq<char>>, Seq<char>>,
) -> bool {
    after == before && outcome == Ok::<Map<Seq<char>, Seq<char>>, Seq<char>>(
        hello_registry_answer(),
    )
}

/// The plugin that is registered with the `Plugin` registry, built with its
/// default constructor, and answers with its own name.
#[derive(Debug, Default)]
pub struct HelloRegistryPlugin;

impl Plugin for HelloRegistryPlugin {
    open spec fn runs(
        &self,
        before: Map<Seq<char>, Seq<char>>,
        after: Map<Seq<char>, Seq<char>>,
        outcome: Result<Map<Seq<char>, Seq<char>>, Seq<char>>,
    ) -> bool {
        hello_registry_runs(before, after, outcome)
    }

    /// Leaves the parameters as they are and answers
    /// `plugin = HelloRegistryPlugin`.
    fn execute(&self, params: &mut ParamMap) -> (result: Result<ParamMap, PluginError>)
        ensures
            final(params)@ == old(params)@,
            result matches Ok(map) && map@ == hello_registry_answer(),
    {
        let mut map = ParamMap::new();
        map.insert("plugin".to_owned(), "HelloRegistryPlugin".to_owned());
        Ok(map)
    }
}

impl HelloRegistryPlugin {
    /// A boxed instance, as its registered constructor builds it.
    pub fn boxed() -> (plugin: Box<dyn Plugin>)
        ensures
            forall|
                before: Map<Seq<char>, Seq<char>>,
                after: Map<Seq<char>, Seq<char>>,
                outcome: Result<Map<Seq<char>, Seq<char>>, Seq<char>>,
            |
                #[trigger] plugin.runs(before, after, outcome) <==> hello_registry_runs(
                    before,
                    after,
                    outcome,
                ),
    {
        return Box::new(HelloRegistryPlugin);
    }
}

/// `HelloRegistryPlugin` as an implementation of `Plugin` for the registry:
/// built with `boxed`, named by its type, under the trait `Plugin`.
impl RegistryImplementation<Box<dyn Plugin>> for HelloRegistryPlugin {
    const HAS_CONSTRUCTOR: bool = true;
    const NAME: &'static str = "HelloRegistryPlugin";
    const PATH: &'static str = "HelloRegistryPlugin";
    const FILE: &'static str = "src/plugin.rs";
    const MODULE_PATH: &'static str = "zoisite::plugin";
    const TRAIT_NAME: &'static str = "Plugin";

    fn initiate() -> (instance: Option<Box<dyn Plugin>>) {
        Some(HelloRegistryPlugin::boxed())
    }
}

} // verus!
