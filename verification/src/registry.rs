//! The registry: the one map from module names to module handles, and the
//! one place that decides whether a request for a module runs.

use crate::assoc::{
    assoc, find, is_first, keys_of, lemma_assoc_absent, lemma_assoc_first, lemma_assoc_push,
    lemma_assoc_update,
};
use crate::config::{fault, toml_tree, ConfigData, ConfigDocument, ConfigError};
use crate::generation::{Admission, ReloadSignal};
use crate::json::Json;
use crate::plugin::{DispatchError, Plugin, PluginView, Verdict};
use crate::session::{after_add, after_set, effective, Session};
use vstd::prelude::*;

verus! {

/// What loading a module's code gave.
#[derive(Clone, Copy, Debug, PartialEq, Eq, Structural)]
pub enum LoadOutcome {
    /// The code is missing or could not be loaded.
    Missing,
    /// The code was loaded, and its entry point did not resolve.
    Unresolved,
    /// The code was loaded as this generation.
    Ready(u64),
}

/// What the watcher of the configuration directory saw happen to a file.
#[derive(Clone, Copy, Debug, PartialEq, Eq, Structural)]
pub enum WatchEvent {
    /// The file was created.
    Create,
    /// The file was written.
    Write,
    /// Anything else.
    Other,
}

/// The module whose configuration is to be read again after an event on a
/// file with the stem `stem`: the module of that name, where the file was
/// created or written and the module is known.
pub open spec fn watched(modules: Modules, event: WatchEvent, stem: Option<Seq<char>>) -> Option<
    Seq<char>,
> {
    match stem {
        Some(name) => if (event is Create || event is Write) && modules.contains_key(name) {
            Some(name)
        } else {
            None
        },
        None => None,
    }
}

/// What became of a change to a configuration file.
#[derive(Debug)]
pub enum Reconfigured {
    /// No module of that name is known: nothing was done.
    Unknown,
    /// The module's document was replaced.
    Replaced,
    /// The new text was refused, and the module keeps its document.
    Kept(ConfigError),
}

/// The modules of a registry, by name.
pub type Modules = Map<Seq<char>, PluginView>;

/// The module that the first load of `name` makes from a valid document.
pub open spec fn made(name: Seq<char>, tree: ConfigData, code: LoadOutcome) -> PluginView {
    let fresh = PluginView::fresh(name, tree);
    match code {
        LoadOutcome::Ready(id) => PluginView { life: fresh.life.installed(id), ..fresh },
        _ => fresh,
    }
}

/// Whether the first load of `name` makes a module: the name is new, the code
/// was loaded, and the configuration text is a valid document.
pub open spec fn loads(
    modules: Modules,
    name: Seq<char>,
    code: LoadOutcome,
    parsed: Option<ConfigData>,
) -> bool {
    &&& !modules.contains_key(name)
    &&& !(code is Missing)
    &&& parsed matches Some(tree) && fault(tree) is None
}

/// The modules after the first load of `name`. A load that fails makes nothing.
pub open spec fn after_load(
    modules: Modules,
    name: Seq<char>,
    code: LoadOutcome,
    parsed: Option<ConfigData>,
) -> Modules {
    if loads(modules, name, code, parsed) {
        modules.insert(name, made(name, parsed->0, code))
    } else {
        modules
    }
}

/// The modules after `step` was taken on the module `name`, where it is known.
pub open spec fn after_step(
    modules: Modules,
    name: Seq<char>,
    step: spec_fn(PluginView) -> PluginView,
) -> Modules {
    if modules.contains_key(name) {
        modules.insert(name, step(modules[name]))
    } else {
        modules
    }
}

/// The modules after a request for `name` that carries `secret` asked to run.
pub open spec fn after_run(modules: Modules, name: Seq<char>, secret: Seq<char>) -> Modules {
    after_step(modules, name, |m: PluginView| m.after_run(secret))
}

/// The modules after the reloader signalled for `name`.
pub open spec fn after_signal(modules: Modules, name: Seq<char>, signal: ReloadSignal) -> Modules {
    after_step(
        modules,
        name,
        |m: PluginView| PluginView { life: m.life.signalled(signal), ..m },
    )
}

/// The modules after the configuration file of `name` changed.
pub open spec fn after_reconfigure(
    modules: Modules,
    name: Seq<char>,
    parsed: Option<ConfigData>,
) -> Modules {
    after_step(modules, name, |m: PluginView| m.reconfigured(parsed))
}

/// What the registry decides of a request for `name` that carries `secret`:
/// nothing where the module is not known.
pub open spec fn verdict_of(modules: Modules, name: Seq<char>, secret: Seq<char>) -> Option<
    Verdict,
> {
    if modules.contains_key(name) {
        Some(modules[name].verdict(secret))
    } else {
        None
    }
}

/// A load that fails makes nothing and touches nothing.
pub proof fn law_failed_load_changes_nothing(
    modules: Modules,
    name: Seq<char>,
    code: LoadOutcome,
    parsed: Option<ConfigData>,
)
    requires
        code is Missing || parsed is None || fault(parsed->0) is Some,
    ensures
        after_load(modules, name, code, parsed) == modules,
{
}

/// Modules are isolated: whatever happens to the module `name`, be it a load
/// that fails or succeeds, a request, a signal of the reloader, a change of
/// its configuration or any other step, every other module stays as it was and
/// decides of its requests as before.
pub proof fn law_modules_are_isolated(
    modules: Modules,
    name: Seq<char>,
    other: Seq<char>,
    code: LoadOutcome,
    parsed: Option<ConfigData>,
    secret: Seq<char>,
    signal: ReloadSignal,
    step: spec_fn(PluginView) -> PluginView,
    asked: Seq<char>,
)
    requires
        name != other,
    ensures
        same_at(after_load(modules, name, code, parsed), modules, other),
        same_at(after_run(modules, name, secret), modules, other),
        same_at(after_signal(modules, name, signal), modules, other),
        same_at(after_reconfigure(modules, name, parsed), modules, other),
        same_at(after_step(modules, name, step), modules, other),
        verdict_of(after_load(modules, name, code, parsed), other, asked) == verdict_of(
            modules,
            other,
            asked,
        ),
        verdict_of(after_signal(modules, name, signal), other, asked) == verdict_of(
            modules,
            other,
            asked,
        ),
        verdict_of(after_run(modules, name, secret), other, asked) == verdict_of(
            modules,
            other,
            asked,
        ),
{
}

/// Two registries have the same at `name`: both lack the module, or both
/// have it in the same state.
pub open spec fn same_at(left: Modules, right: Modules, name: Seq<char>) -> bool {
    &&& left.contains_key(name) == right.contains_key(name)
    &&& left.contains_key(name) ==> left[name] == right[name]
}

/// A change to the configuration file of a module that was never loaded makes
/// no module and changes nothing.
pub proof fn law_unknown_module_is_not_made(
    modules: Modules,
    name: Seq<char>,
    parsed: Option<ConfigData>,
    event: WatchEvent,
)
    requires
        !modules.contains_key(name),
    ensures
        after_reconfigure(modules, name, parsed) == modules,
        watched(modules, event, Some(name)) is None,
{
}

/// A module that has loaded once can be called after a reload that failed: a
/// request with the right secret is let in to the generation that served
/// before.
pub proof fn law_dispatch_after_failed_reload(modules: Modules, name: Seq<char>, good: u64)
    requires
        modules.contains_key(name),
        modules[name].life.current == Some(good),
        !modules[name].life.swapping,
        modules[name].life.in_flight(good) < crate::generation::call_limit(),
    ensures
        verdict_of(
            after_signal(
                after_signal(modules, name, ReloadSignal::Before),
                name,
                ReloadSignal::Failed,
            ),
            name,
            modules[name].secret,
        ) == Some(Verdict::Go(Admission::Call(good))),
{
}

/// The registry of modules.
pub struct PluginRegistry {
    libs: Vec<(String, Plugin)>,
}

/// The modules of a list of handles.
pub open spec fn handles(libs: Seq<(String, Plugin)>) -> Seq<(Seq<char>, PluginView)> {
    Seq::new(libs.len(), |i: int| (libs[i].0@, libs[i].1@))
}

impl View for PluginRegistry {
    type V = Modules;

    closed spec fn view(&self) -> Modules {
        assoc(handles(self.libs@))
    }
}

impl PluginRegistry {
    /// A registry without modules.
    pub fn new() -> (r: PluginRegistry)
        ensures
            r@ == Map::<Seq<char>, PluginView>::empty(),
    {
        let r = PluginRegistry { libs: Vec::new() };
        proof {
            assert(handles(r.libs@) =~= Seq::empty());
        }
        r
    }

    /// The position of the handle of the module `lib`.
    fn slot(&self, lib: &str) -> (r: Option<usize>)
        ensures
            match r {
                Some(i) => {
                    &&& i < self.libs@.len()
                    &&& is_first(handles(self.libs@), lib@, i as int)
                    &&& self@.contains_key(lib@)
                    &&& self@[lib@] == self.libs@[i as int].1@
                },
                None => !self@.contains_key(lib@),
            },
    {
        let r = find(&self.libs, lib);
        proof {
            let pairs = handles(self.libs@);
            assert forall|j: int| 0 <= j < pairs.len() implies (#[trigger] pairs[j]).0 == keys_of(
                self.libs@,
            )[j] by {}
            match r {
                Some(i) => {
                    lemma_assoc_first(pairs, lib@, i as int);
                },
                None => {
                    lemma_assoc_absent(pairs, lib@);
                },
            }
        }
        r
    }

    /// Whether the module `lib` is known.
    pub fn contains(&self, lib: &str) -> (r: bool)
        ensures
            r == self@.contains_key(lib@),
    {
        self.slot(lib).is_some()
    }

    /// The handle of the module `lib`, where it is known.
    pub fn get(&self, lib: &str) -> (r: Option<&Plugin>)
        ensures
            match r {
                Some(plugin) => self@.contains_key(lib@) && self@[lib@] == plugin@,
                None => !self@.contains_key(lib@),
            },
    {
        match self.slot(lib) {
            Some(i) => Some(&self.libs[i].1),
            None => None,
        }
    }

    /// The first load of the module `lib`: makes its handle from what loading
    /// its code gave and from the text of its configuration file. Nothing is
    /// made where the module is known already, where the code is missing, or
    /// where the text is no valid document.
    pub fn load(&mut self, lib: &str, code: LoadOutcome, config_text: &str) -> (r: Result<
        (),
        DispatchError,
    >)
        ensures
            final(self)@ == after_load(old(self)@, lib@, code, toml_tree(config_text@)),
            old(self)@.contains_key(lib@) ==> r is Ok,
            !old(self)@.contains_key(lib@) ==> match code {
                LoadOutcome::Missing => r == Err::<(), DispatchError>(DispatchError::NotFound),
                _ => match toml_tree(config_text@) {
                    None => r matches Err(DispatchError::ConfigInvalid(ConfigError::Syntax(_))),
                    Some(tree) => match fault(tree) {
                        Some(e) => r == Err::<(), DispatchError>(DispatchError::ConfigInvalid(e)),
                        None => r is Ok,
                    },
                },
            },
    {
        if self.slot(lib).is_some() {
            return Ok(());
        }
        let id = match code {
            LoadOutcome::Missing => {
                return Err(DispatchError::NotFound);
            },
            LoadOutcome::Unresolved => None,
            LoadOutcome::Ready(id) => Some(id),
        };
        let mut plugin = match Plugin::new(lib, config_text) {
            Err(e) => {
                return Err(DispatchError::ConfigInvalid(e));
            },
            Ok(plugin) => plugin,
        };
        match id {
            Some(id) => {
                plugin.add_generation(id);
            },
            None => {},
        }
        let ghost before = handles(self.libs@);
        let ghost made_view = plugin@;
        self.libs.push((lib.to_owned(), plugin));
        proof {
            assert(handles(self.libs@) =~= before.push((lib@, made_view)));
            lemma_assoc_push(before, lib@, made_view);
        }
        Ok(())
    }

    /// Hands a signal of the reloader to the module `lib`, where it is known.
    pub fn reload_callback(&mut self, lib: &str, signal: ReloadSignal)
        ensures
            final(self)@ == after_signal(old(self)@, lib@, signal),
    {
        match self.slot(lib) {
            None => {},
            Some(i) => {
                let ghost before = handles(self.libs@);
                self.libs[i].1.reload_callback(signal);
                proof {
                    let now = self.libs@[i as int].1@;
                    assert(handles(self.libs@) =~= before.update(i as int, (lib@, now)));
                    lemma_assoc_update(before, lib@, i as int, now);
                }
            },
        }
    }

    /// Decides of a request for the module `lib` that carries `secret`.
    pub fn run_plugin(&mut self, lib: &str, secret: &str) -> (r: Result<Admission, DispatchError>)
        ensures
            final(self)@ == after_run(old(self)@, lib@, secret@),
            r == match verdict_of(old(self)@, lib@, secret@) {
                None => Err::<Admission, DispatchError>(DispatchError::NotFound),
                Some(Verdict::Denied) => Err(DispatchError::AuthMismatch),
                Some(Verdict::Unavailable) => Err(DispatchError::NotLoaded),
                Some(Verdict::Go(a)) => Ok(a),
            },
    {
        match self.slot(lib) {
            None => Err(DispatchError::NotFound),
            Some(i) => {
                let ghost before = handles(self.libs@);
                let r = self.libs[i].1.run(secret);
                proof {
                    let now = self.libs@[i as int].1@;
                    assert(handles(self.libs@) =~= before.update(i as int, (lib@, now)));
                    lemma_assoc_update(before, lib@, i as int, now);
                }
                r
            },
        }
    }

    /// Ends a swap of the code of the module `lib`, where it is known, and
    /// gives the generation that is discarded.
    pub fn swap(&mut self, lib: &str, fresh: Option<u64>) -> (r: Option<u64>)
        ensures
            final(self)@ == after_step(
                old(self)@,
                lib@,
                |m: PluginView| PluginView { life: m.life.swapped(fresh), ..m },
            ),
            r == if old(self)@.contains_key(lib@) {
                old(self)@[lib@].life.swept(fresh)
            } else {
                None
            },
    {
        match self.slot(lib) {
            None => None,
            Some(i) => {
                let ghost before = handles(self.libs@);
                let r = self.libs[i].1.swap(fresh);
                proof {
                    let now = self.libs@[i as int].1@;
                    assert(handles(self.libs@) =~= before.update(i as int, (lib@, now)));
                    lemma_assoc_update(before, lib@, i as int, now);
                }
                r
            },
        }
    }

    /// Notes that a call to generation `id` of the module `lib` has returned,
    /// and discards the generation where that made it quiescent. Says whether
    /// it discarded it.
    pub fn finish(&mut self, lib: &str, id: u64) -> (r: bool)
        ensures
            final(self)@ == after_step(
                old(self)@,
                lib@,
                |m: PluginView| PluginView { life: m.life.left(id).retired(id), ..m },
            ),
            r == (old(self)@.contains_key(lib@) && old(self)@[lib@].life.left(id).quiescent(id)),
    {
        match self.slot(lib) {
            None => false,
            Some(i) => {
                let ghost before = handles(self.libs@);
                let r = self.libs[i].1.finish(id);
                proof {
                    let now = self.libs@[i as int].1@;
                    assert(handles(self.libs@) =~= before.update(i as int, (lib@, now)));
                    lemma_assoc_update(before, lib@, i as int, now);
                }
                r
            },
        }
    }

    /// Notes that a call to generation `id` of the module `lib` has returned,
    /// and says whether the generation is now quiescent.
    pub fn leave(&mut self, lib: &str, id: u64) -> (r: bool)
        ensures
            final(self)@ == after_step(
                old(self)@,
                lib@,
                |m: PluginView| PluginView { life: m.life.left(id), ..m },
            ),
            r == (final(self)@.contains_key(lib@) && final(self)@[lib@].life.quiescent(id)),
    {
        match self.slot(lib) {
            None => false,
            Some(i) => {
                let ghost before = handles(self.libs@);
                let r = self.libs[i].1.leave(id);
                proof {
                    let now = self.libs@[i as int].1@;
                    assert(handles(self.libs@) =~= before.update(i as int, (lib@, now)));
                    lemma_assoc_update(before, lib@, i as int, now);
                }
                r
            },
        }
    }

    /// Discards generation `id` of the module `lib` where it is quiescent, and
    /// says whether it did.
    pub fn retire_generation(&mut self, lib: &str, id: u64) -> (r: bool)
        ensures
            final(self)@ == after_step(
                old(self)@,
                lib@,
                |m: PluginView| PluginView { life: m.life.retired(id), ..m },
            ),
            r == (old(self)@.contains_key(lib@) && old(self)@[lib@].life.quiescent(id)),
    {
        match self.slot(lib) {
            None => false,
            Some(i) => {
                let ghost before = handles(self.libs@);
                let r = self.libs[i].1.retire_generation(id);
                proof {
                    let now = self.libs@[i as int].1@;
                    assert(handles(self.libs@) =~= before.update(i as int, (lib@, now)));
                    lemma_assoc_update(before, lib@, i as int, now);
                }
                r
            },
        }
    }

    /// The module whose configuration is to be read again after `event` on a
    /// file with the stem `stem`. An event for a module that was never loaded
    /// asks for nothing.
    pub fn watch_target(&self, event: WatchEvent, stem: Option<&str>) -> (r: Option<String>)
        ensures
            match r {
                Some(name) => watched(
                    self@,
                    event,
                    match stem {
                        Some(s) => Some(s@),
                        None => None,
                    },
                ) == Some(name@),
                None => watched(
                    self@,
                    event,
                    match stem {
                        Some(s) => Some(s@),
                        None => None,
                    },
                ) is None,
            },
    {
        match event {
            WatchEvent::Other => None,
            _ => match stem {
                None => None,
                Some(name) => if self.contains(name) {
                    Some(name.to_owned())
                } else {
                    None
                },
            },
        }
    }

    /// Takes the new text of the configuration file of the module `lib`. A
    /// module that is not known is not made; a text that is no valid document
    /// leaves the module's document in place.
    pub fn reconfigure(&mut self, lib: &str, text: &str) -> (r: Reconfigured)
        ensures
            final(self)@ == after_reconfigure(old(self)@, lib@, toml_tree(text@)),
            !old(self)@.contains_key(lib@) ==> r is Unknown,
            old(self)@.contains_key(lib@) ==> match toml_tree(text@) {
                None => r matches Reconfigured::Kept(ConfigError::Syntax(_)),
                Some(tree) => match fault(tree) {
                    Some(e) => r matches Reconfigured::Kept(k) && k == e,
                    None => r is Replaced,
                },
            },
    {
        match self.slot(lib) {
            None => Reconfigured::Unknown,
            Some(i) => {
                let ghost before = handles(self.libs@);
                let r = self.libs[i].1.reconfigure(text);
                proof {
                    let now = self.libs@[i as int].1@;
                    assert(handles(self.libs@) =~= before.update(i as int, (lib@, now)));
                    lemma_assoc_update(before, lib@, i as int, now);
                }
                match r {
                    Ok(()) => Reconfigured::Replaced,
                    Err(e) => Reconfigured::Kept(e),
                }
            },
        }
    }

    /// The configuration document and the session store of the module `lib`,
    /// as they are handed to the module's entry point.
    pub fn parts(&mut self, lib: &str) -> (r: Option<(&ConfigDocument, &mut Session)>)
        ensures
            match r {
                Some((config, session)) => {
                    &&& old(self)@.contains_key(lib@)
                    &&& config.data() == old(self)@[lib@].config
                    &&& config.secret_text() == old(self)@[lib@].secret
                    &&& session@ == old(self)@[lib@].session
                    &&& final(self)@ == old(self)@.insert(
                        lib@,
                        PluginView { session: final(session)@, ..old(self)@[lib@] },
                    )
                },
                None => !old(self)@.contains_key(lib@) && final(self)@ == old(self)@,
            },
    {
        match self.slot(lib) {
            None => None,
            Some(i) => {
                let ghost before = handles(self.libs@);
                let ghost entry = self.libs@[i as int];
                let ghost listed = self.libs@;
                proof {
                    assert forall|p: Plugin| #[trigger]
                        assoc(handles(listed.update(i as int, (entry.0, p)))) == assoc(
                            before,
                        ).insert(lib@, p@) by {
                        assert(handles(listed.update(i as int, (entry.0, p))) =~= before.update(
                            i as int,
                            (lib@, p@),
                        ));
                        lemma_assoc_update(before, lib@, i as int, p@);
                    }
                }
                Some(self.libs[i].1.parts())
            },
        }
    }

    /// The effective session value of the module `lib` under `key`.
    pub fn session_get(&self, lib: &str, key: &str) -> (r: Option<Json>)
        ensures
            match r {
                Some(v) => self@.contains_key(lib@) && effective(self@[lib@].session, key@)
                    == Some(v@),
                None => !self@.contains_key(lib@) || effective(self@[lib@].session, key@) is None,
            },
    {
        match self.slot(lib) {
            None => None,
            Some(i) => self.libs[i].1.session_get(key),
        }
    }

    /// Replaces the session fragments of the module `lib` under `key` by
    /// `value` alone, and says whether the module is known.
    pub fn session_set(&mut self, lib: &str, key: &str, value: Json) -> (r: bool)
        ensures
            r == old(self)@.contains_key(lib@),
            final(self)@ == after_step(
                old(self)@,
                lib@,
                |m: PluginView| PluginView { session: after_set(m.session, key@, value@), ..m },
            ),
    {
        match self.slot(lib) {
            None => false,
            Some(i) => {
                let ghost before = handles(self.libs@);
                self.libs[i].1.session_set(key, value);
                proof {
                    let now = self.libs@[i as int].1@;
                    assert(handles(self.libs@) =~= before.update(i as int, (lib@, now)));
                    lemma_assoc_update(before, lib@, i as int, now);
                }
                true
            },
        }
    }

    /// Appends `value` to the session fragments of the module `lib` under
    /// `key`, and says whether the module is known.
    pub fn session_add(&mut self, lib: &str, key: &str, value: Json) -> (r: bool)
        ensures
            r == old(self)@.contains_key(lib@),
            final(self)@ == after_step(
                old(self)@,
                lib@,
                |m: PluginView| PluginView { session: after_add(m.session, key@, value@), ..m },
            ),
    {
        match self.slot(lib) {
            None => false,
            Some(i) => {
                let ghost before = handles(self.libs@);
                self.libs[i].1.session_add(key, value);
                proof {
                    let now = self.libs@[i as int].1@;
                    assert(handles(self.libs@) =~= before.update(i as int, (lib@, now)));
                    lemma_assoc_update(before, lib@, i as int, now);
                }
                true
            },
        }
    }
}

} // verus!
