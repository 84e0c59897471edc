//! The registry of hook factories and the creation of enabled hooks.
use vstd::prelude::*;
use vstd::string::*;

use crate::hooks::traits::HookError;

verus! {

/// Creates hook instances from configuration. Implemented by each hook.
pub trait HookFactory {
    /// The hook instances this factory creates.
    type Hook;

    /// Whether `name` is the name this factory reports. The default makes
    /// no claim; a verified implementation states its own.
    open spec fn spec_reports_name(&self, name: Seq<char>) -> bool {
        true
    }

    /// Whether `r` is a result that creating a hook from `config` may give
    /// (a created hook, or the factory's configuration or initialisation
    /// error). The default makes no claim; a verified implementation states
    /// its own.
    open spec fn spec_creates(&self, config: toml::Value, r: Result<Self::Hook, HookError>) -> bool {
        true
    }

    /// The unique name of hooks created by this factory; it must match the
    /// configuration section name (`[hooks.<name>]`).
    fn name(&self) -> (r: &'static str)
        ensures
            self.spec_reports_name(r@),
    ;

    /// Creates a new hook instance from the provided configuration.
    fn create(&self, config: &toml::Value) -> (r: Result<Self::Hook, HookError>)
        ensures
            self.spec_creates(*config, r),
    ;
}

/// Settings for a single hook from configuration: whether it is enabled,
/// and everything else in its section, which its factory reads.
pub struct HookSettings {
    /// Whether this hook is enabled.
    pub enabled: bool,
    /// The hook's configuration (everything except `enabled`).
    pub config: toml::Value,
}

impl Default for HookSettings {
    fn default() -> (r: Self)
        ensures
            !r.enabled,
    {
        HookSettings { enabled: false, config: empty_table() }
    }
}

/// An empty TOML table (`toml::Value::Table` of `toml::map::Map::new()`).
/// Nothing is stated about the value: the library sees TOML values opaquely.
#[verifier::external_body]
fn empty_table() -> toml::Value {
    toml::Value::Table(toml::map::Map::new())
}

/// The text std's `Debug` gives a list of strings (such as `["a", "b"]`).
pub uninterp spec fn debug_list_text(items: Seq<Seq<char>>) -> Seq<char>;

/// The views of a list of strings.
pub open spec fn string_views(v: Seq<String>) -> Seq<Seq<char>> {
    v.map_values(|s: String| s@)
}

/// Renders a list of strings as std's `Debug` does; the text is named by
/// `debug_list_text` of the strings.
#[verifier::external_body]
fn debug_list(items: &Vec<String>) -> (r: String)
    ensures
        r@ == debug_list_text(string_views(items@)),
{
    format!("{items:?}")
}

/// The message of the error that reports an unknown hook name.
pub open spec fn not_found_message(name: Seq<char>, available: Seq<Seq<char>>) -> Seq<char> {
    "Hook '"@ + name + "' not found. Available hooks: "@ + debug_list_text(available)
}

/// The message of the error that reports a second factory of one name.
pub open spec fn duplicate_message(name: Seq<char>) -> Seq<char> {
    "Hook '"@ + name + "' is already registered"@
}

/// Registry of hook factories, kept in registration order; no two
/// factories share a name.
pub struct HookRegistry<F: HookFactory> {
    factories: Vec<(String, F)>,
}

/// No name occurs twice in a list of names.
pub open spec fn names_distinct(names: Seq<Seq<char>>) -> bool {
    forall|i: int, j: int|
        0 <= i < names.len() && 0 <= j < names.len() && i != j ==> names[i] != names[j]
}

impl<F: HookFactory> View for HookRegistry<F> {
    type V = Seq<Seq<char>>;

    /// The names of the registered factories, in registration order.
    closed spec fn view(&self) -> Seq<Seq<char>> {
        self.factories@.map_values(|e: (String, F)| e.0@)
    }
}

impl<F: HookFactory> HookRegistry<F> {
    #[verifier::type_invariant]
    closed spec fn inv(&self) -> bool {
        &&& names_distinct(self.factories@.map_values(|e: (String, F)| e.0@))
        &&& forall|i: int| 0 <= i < self.factories@.len()
            ==> (#[trigger] self.factories@[i]).1.spec_reports_name(self.factories@[i].0@)
    }

    /// The registered factories, in registration order (the `i`-th is
    /// registered under the `i`-th name of the view).
    pub closed spec fn spec_factories(&self) -> Seq<F> {
        self.factories@.map_values(|e: (String, F)| e.1)
    }

    /// Whether `r` is a result that the factory registered under `name`
    /// may give for `config`.
    pub open spec fn spec_creates_named(
        &self,
        name: Seq<char>,
        config: toml::Value,
        r: Result<F::Hook, HookError>,
    ) -> bool {
        exists|i: int|
            0 <= i < self@.len() && self@[i] == name && (#[trigger] self.spec_factories()[i]).spec_creates(config, r)
    }

    /// Creates an empty registry.
    pub fn new() -> (r: Self)
        ensures
            r@ == Seq::<Seq<char>>::empty(),
            r.spec_factories() == Seq::<F>::empty(),
    {
        let r = HookRegistry { factories: Vec::new() };
        assert(r@ =~= Seq::<Seq<char>>::empty());
        assert(r.spec_factories() =~= Seq::<F>::empty());
        r
    }

    /// Registers a factory under the name it reports. A factory whose name
    /// is already registered is refused (as a configuration error naming
    /// it) and the registry left unchanged.
    pub fn register_hook(&mut self, factory: F) -> (r: Result<(), HookError>)
        ensures
            names_distinct(final(self)@),
            match r {
                Ok(()) => exists|n: Seq<char>| {
                    &&& factory.spec_reports_name(n)
                    &&& !old(self)@.contains(n)
                    &&& final(self)@ == old(self)@.push(n)
                    &&& final(self).spec_factories() == old(self).spec_factories().push(factory)
                },
                Err(e) => {
                    &&& final(self)@ == old(self)@
                    &&& final(self).spec_factories() == old(self).spec_factories()
                    &&& factory.spec_reports_name(e.spec_hook_name())
                    &&& old(self)@.contains(e.spec_hook_name())
                    &&& e matches HookError::ConfigError { hook_name, message }
                    &&& message@ == duplicate_message(hook_name@)
                },
            },
    {
        proof { use_type_invariant(&*self); }
        let name = String::from_str(factory.name());
        if self.has_hook(name.as_str()) {
            let mut message = String::from_str("Hook '");
            message.append(name.as_str());
            message.append("' is already registered");
            return Err(HookError::ConfigError { hook_name: name, message });
        }
        let ghost n = name@;
        let mut factories: Vec<(String, F)> = Vec::new();
        std::mem::swap(&mut factories, &mut self.factories);
        let ghost before = factories@;
        let ghost f = factory;
        factories.push((name, factory));
        proof {
            let old_names = before.map_values(|e: (String, F)| e.0@);
            let new_names = factories@.map_values(|e: (String, F)| e.0@);
            assert(new_names =~= old_names.push(n));
            assert(!old_names.contains(n));
            assert forall|i: int, j: int|
                0 <= i < new_names.len() && 0 <= j < new_names.len() && i != j
                    implies new_names[i] != new_names[j] by {
                if i < old_names.len() && j < old_names.len() {
                    assert(new_names[i] == old_names[i] && new_names[j] == old_names[j]);
                } else if i == old_names.len() {
                    assert(old_names[j] == new_names[j]);
                } else {
                    assert(old_names[i] == new_names[i]);
                }
            }
            assert forall|i: int| 0 <= i < factories@.len()
                implies (#[trigger] factories@[i]).1.spec_reports_name(factories@[i].0@) by {
                if i < before.len() {
                    assert(factories@[i] == before[i]);
                }
            }
            assert(factories@.map_values(|e: (String, F)| e.1) =~= before.map_values(|e: (String, F)| e.1).push(f));
        }
        self.factories = factories;
        Ok(())
    }

    /// The names of all registered factories, in registration order.
    pub fn list_hooks(&self) -> (r: Vec<String>)
        ensures
            string_views(r@) == self@,
    {
        let mut r: Vec<String> = Vec::new();
        let mut i: usize = 0;
        while i < self.factories.len()
            invariant
                0 <= i <= self.factories@.len(),
                string_views(r@) == self@.subrange(0, i as int),
            decreases self.factories@.len() - i,
        {
            let ghost prev = r@;
            let name = self.factories[i].0.clone();
            r.push(name);
            proof {
                assert(self@[i as int] == self.factories@[i as int].0@);
                assert(string_views(r@) =~= string_views(prev).push(self@[i as int]));
                assert(self@.subrange(0, i + 1) =~= self@.subrange(0, i as int).push(self@[i as int]));
            }
            i = i + 1;
        }
        assert(self@.subrange(0, self@.len() as int) =~= self@);
        r
    }

    /// The registry's debug text: `HookRegistry { hooks: [..] }` with the
    /// registered names.
    pub fn debug_text(&self) -> (r: String)
        ensures
            r@ == "HookRegistry { hooks: "@ + debug_list_text(self@) + " }"@,
    {
        let names = self.list_hooks();
        let mut r = String::from_str("HookRegistry { hooks: ");
        let listed = debug_list(&names);
        r.append(listed.as_str());
        r.append(" }");
        r
    }

    /// Whether a factory of the given name is registered.
    pub fn has_hook(&self, name: &str) -> (r: bool)
        ensures
            r == self@.contains(name@),
    {
        self.find(name).is_some()
    }

    /// The position of the factory of the given name, if registered.
    fn find(&self, name: &str) -> (r: Option<usize>)
        ensures
            match r {
                Some(i) => i < self@.len() && self@[i as int] == name@ && self@.contains(name@),
                None => !self@.contains(name@),
            },
    {
        let key = String::from_str(name);
        let mut i: usize = 0;
        while i < self.factories.len()
            invariant
                0 <= i <= self.factories@.len(),
                key@ == name@,
                forall|j: int| 0 <= j < i ==> self@[j] != name@,
            decreases self.factories@.len() - i,
        {
            if self.factories[i].0 == key {
                assert(self@[i as int] == name@);
                return Some(i);
            }
            i = i + 1;
        }
        None
    }

    /// Creates a hook instance with the factory of the given name, handing
    /// it the configuration. An unknown name is reported as a configuration
    /// error that lists the available names, and no factory is called;
    /// otherwise the factory's own result is returned.
    pub fn create_hook(&self, name: &str, config: &toml::Value) -> (r: Result<F::Hook, HookError>)
        ensures
            !self@.contains(name@) ==> (r matches Err(HookError::ConfigError { hook_name, message })
                && hook_name@ == name@ && message@ == not_found_message(name@, self@)),
            self@.contains(name@) ==> self.spec_creates_named(name@, *config, r),
    {
        proof { use_type_invariant(self); }
        match self.find(name) {
            Some(i) => {
                let r = self.factories[i].1.create(config);
                proof {
                    assert(self.spec_factories()[i as int] == self.factories@[i as int].1);
                }
                r
            },
            None => {
                let available = self.list_hooks();
                let mut message = String::from_str("Hook '");
                message.append(name);
                message.append("' not found. Available hooks: ");
                let listed = debug_list(&available);
                message.append(listed.as_str());
                Err(HookError::ConfigError { hook_name: String::from_str(name), message })
            },
        }
    }

    /// Creates a hook for every enabled entry of the settings, in their
    /// order, skipping disabled ones (which reach no factory). Each hook is
    /// what the factory of its entry's name created from the entry's
    /// configuration; the first failure (an unknown name, or the factory's
    /// own error) is returned.
    pub fn create_enabled_hooks(&self, hook_settings: &Vec<(String, HookSettings)>) -> (r: Result<
        Vec<(String, F::Hook)>,
        HookError,
    >)
        ensures
            match r {
                Ok(hooks) => {
                    let entries = enabled_entries(hook_settings@);
                    &&& hooks@.len() == entries.len()
                    &&& forall|k: int| 0 <= k < hooks@.len() ==> {
                        &&& (#[trigger] hooks@[k]).0@ == entries[k].0@
                        &&& self.spec_creates_named(entries[k].0@, entries[k].1.config,
                            Ok::<F::Hook, HookError>(hooks@[k].1))
                    }
                },
                Err(e) => exists|i: int|
                    0 <= i < hook_settings@.len() && (#[trigger] hook_settings@[i]).1.enabled
                    && (forall|j: int| 0 <= j < i && (#[trigger] hook_settings@[j]).1.enabled
                        ==> created_ok(*self, hook_settings@[j]))
                    && (!self@.contains(hook_settings@[i].0@) ==> ((e matches HookError::ConfigError {
                        hook_name, message }) && e.spec_hook_name() == hook_settings@[i].0@
                        && e->ConfigError_message@ == not_found_message(hook_settings@[i].0@, self@)))
                    && (self@.contains(hook_settings@[i].0@) ==> self.spec_creates_named(
                        hook_settings@[i].0@, hook_settings@[i].1.config, Err(e))),
            },
    {
        let mut hooks: Vec<(String, F::Hook)> = Vec::new();
        let mut i: usize = 0;
        while i < hook_settings.len()
            invariant
                0 <= i <= hook_settings@.len(),
                hooks@.len() == enabled_entries(hook_settings@.subrange(0, i as int)).len(),
                forall|k: int| 0 <= k < hooks@.len() ==> {
                    let entries = enabled_entries(hook_settings@.subrange(0, i as int));
                    &&& (#[trigger] hooks@[k]).0@ == entries[k].0@
                    &&& self.spec_creates_named(entries[k].0@, entries[k].1.config,
                        Ok::<F::Hook, HookError>(hooks@[k].1))
                },
                forall|j: int| 0 <= j < i && (#[trigger] hook_settings@[j]).1.enabled
                    ==> created_ok(*self, hook_settings@[j]),
            decreases hook_settings@.len() - i,
        {
            let entry = &hook_settings[i];
            let ghost prefix = enabled_entries(hook_settings@.subrange(0, i as int));
            proof {
                lemma_enabled_entries_step(hook_settings@, i as int);
            }
            if entry.1.enabled {
                let created = self.create_hook(entry.0.as_str(), &entry.1.config);
                match created {
                    Ok(hook) => {
                        let ghost h = hook;
                        let ghost prev = hooks@;
                        hooks.push((entry.0.clone(), hook));
                        proof {
                            assert(self@.contains(hook_settings@[i as int].0@)) by {
                                if !self@.contains(hook_settings@[i as int].0@) {
                                    assert(created is Err);
                                }
                            }
                            assert(created_ok(*self, hook_settings@[i as int]));
                            let now = enabled_entries(hook_settings@.subrange(0, i + 1));
                            assert(now == prefix.push(hook_settings@[i as int]));
                            assert forall|k: int| 0 <= k < hooks@.len() implies {
                                &&& (#[trigger] hooks@[k]).0@ == now[k].0@
                                &&& self.spec_creates_named(now[k].0@, now[k].1.config,
                                    Ok::<F::Hook, HookError>(hooks@[k].1))
                            } by {
                                if k < prev.len() {
                                    assert(hooks@[k] == prev[k]);
                                    assert(now[k] == prefix[k]);
                                } else {
                                    assert(hooks@[k].1 == h);
                                }
                            }
                        }
                    },
                    Err(e) => {
                        return Err(e);
                    },
                }
            }
            i = i + 1;
        }
        proof {
            assert(hook_settings@.subrange(0, hook_settings@.len() as int) =~= hook_settings@);
        }
        Ok(hooks)
    }
}

/// Whether the factory registered under an entry's name exists and may
/// create a hook from the entry's configuration.
pub open spec fn created_ok<F: HookFactory>(registry: HookRegistry<F>, entry: (String, HookSettings)) -> bool {
    exists|h: F::Hook| registry.spec_creates_named(entry.0@, entry.1.config, Ok::<F::Hook, HookError>(h))
}

/// The enabled entries of the settings, in order.
pub open spec fn enabled_entries(settings: Seq<(String, HookSettings)>) -> Seq<(String, HookSettings)>
    decreases settings.len(),
{
    if settings.len() == 0 {
        Seq::empty()
    } else {
        let rest = enabled_entries(settings.drop_last());
        if settings.last().1.enabled {
            rest.push(settings.last())
        } else {
            rest
        }
    }
}

proof fn lemma_enabled_entries_step(settings: Seq<(String, HookSettings)>, i: int)
    requires
        0 <= i < settings.len(),
    ensures
        enabled_entries(settings.subrange(0, i + 1)) == (if settings[i].1.enabled {
            enabled_entries(settings.subrange(0, i)).push(settings[i])
        } else {
            enabled_entries(settings.subrange(0, i))
        }),
{
    assert(settings.subrange(0, i + 1).drop_last() =~= settings.subrange(0, i));
}

} // verus!
