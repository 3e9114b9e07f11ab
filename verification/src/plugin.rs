//! The handle of one module: its configuration, its session store and the
//! generations of its code, and the rule that lets a request through to them.

use crate::config::{fault, secret_of, token_of, toml_tree, ConfigData, ConfigDocument, ConfigError};
use crate::generation::{Admission, Generations, Lifecycle, ReloadSignal};
use crate::json::{Data, Json};
use crate::session::{after_add, after_set, effective, Session};
use vstd::prelude::*;

verus! {

/// Why a request was not served.
#[derive(Debug)]
pub enum DispatchError {
    /// The module's code is missing or cannot be loaded.
    NotFound,
    /// The module's configuration is missing, is no TOML, or lacks a setting.
    ConfigInvalid(ConfigError),
    /// The secret of the request is not the secret of the module.
    AuthMismatch,
    /// No generation of the module's code is installed: its entry point has
    /// never resolved.
    NotLoaded,
    /// The module's entry point returned nothing.
    NoResult,
    /// The module's entry point returned this error.
    Application(String),
}

impl DispatchError {
    /// The message of the error, for a person to read. An error of the module
    /// itself is given as the module worded it.
    pub open spec fn text(self) -> Seq<char> {
        match self {
            DispatchError::NotFound => "module not available"@,
            DispatchError::ConfigInvalid(e) => e.text(),
            DispatchError::AuthMismatch => "Secret mismatch"@,
            DispatchError::NotLoaded => "module not available"@,
            DispatchError::NoResult => "Null pointer exception"@,
            DispatchError::Application(message) => message@,
        }
    }

    /// The message of the error, for a person to read.
    pub fn message(&self) -> (r: String)
        ensures
            r@ == self.text(),
    {
        match self {
            DispatchError::NotFound => "module not available".to_owned(),
            DispatchError::ConfigInvalid(e) => e.message(),
            DispatchError::AuthMismatch => "Secret mismatch".to_owned(),
            DispatchError::NotLoaded => "module not available".to_owned(),
            DispatchError::NoResult => "Null pointer exception".to_owned(),
            DispatchError::Application(message) => message.clone(),
        }
    }
}

/// What a module decides of a request.
pub enum Verdict {
    /// The secret is wrong.
    Denied,
    /// The secret is right, and no generation is installed.
    Unavailable,
    /// The secret is right: the call goes here.
    Go(Admission),
}

/// The state of a module handle.
pub struct PluginView {
    /// The name of the module.
    pub name: Seq<char>,
    /// The tree of the module's configuration document.
    pub config: ConfigData,
    /// The authentication secret of the document.
    pub secret: Seq<char>,
    /// The upstream-service token of the document.
    pub token: Seq<char>,
    /// The fragments of the module's session store.
    pub session: Map<Seq<char>, Seq<Data>>,
    /// The generations of the module's code.
    pub life: Lifecycle,
}

impl PluginView {
    /// A module as it is made: with its configuration, an empty session store
    /// and no generation.
    pub open spec fn fresh(name: Seq<char>, tree: ConfigData) -> PluginView {
        PluginView {
            name,
            config: tree,
            secret: secret_of(tree),
            token: token_of(tree),
            session: Map::empty(),
            life: Lifecycle::empty(),
        }
    }

    /// What the module decides of a request that carries `secret`. The secret
    /// is checked before anything else.
    pub open spec fn verdict(self, secret: Seq<char>) -> Verdict {
        if secret != self.secret {
            Verdict::Denied
        } else {
            match self.life.entry() {
                None => Verdict::Unavailable,
                Some(a) => Verdict::Go(a),
            }
        }
    }

    /// The module after a request that carries `secret` asked to run: a call
    /// is in flight only where the verdict was to call.
    pub open spec fn after_run(self, secret: Seq<char>) -> PluginView {
        if secret == self.secret {
            PluginView { life: self.life.admitted(), ..self }
        } else {
            self
        }
    }

    /// The module with the configuration document `tree` in place of its own.
    pub open spec fn with_config(self, tree: ConfigData) -> PluginView {
        PluginView { config: tree, secret: secret_of(tree), token: token_of(tree), ..self }
    }

    /// The module after the text of its configuration file changed to a text
    /// that is the document `parsed`, or is no document: a valid document
    /// replaces the old one as a whole, anything else leaves the old one.
    pub open spec fn reconfigured(self, parsed: Option<ConfigData>) -> PluginView {
        match parsed {
            Some(tree) => if fault(tree) is None {
                self.with_config(tree)
            } else {
                self
            },
            None => self,
        }
    }
}

/// The check of the secret precedes the invocation: a request with a wrong
/// secret is denied whatever the state of the module, and no call enters any
/// generation on its account.
pub proof fn law_auth_precedes_invocation(m: PluginView, secret: Seq<char>)
    requires
        secret != m.secret,
    ensures
        m.verdict(secret) is Denied,
        m.after_run(secret) == m,
{
}

/// A request with the right secret is never refused on account of a swap: a
/// module that has a generation lets it in or tells it to wait.
pub proof fn law_right_secret_is_served(m: PluginView)
    requires
        m.life.loaded(),
    ensures
        m.verdict(m.secret) is Go,
        (PluginView { life: m.life.signalled(ReloadSignal::Before), ..m }).verdict(m.secret)
            == Verdict::Go(Admission::Wait),
        (PluginView { life: m.life.signalled(ReloadSignal::Failed), ..m }).verdict(m.secret) is Go,
{
}

/// A configuration text that is no valid document does not touch the
/// document that the module has; a valid one replaces it as a whole, and
/// touches neither the session store nor the generations.
pub proof fn law_bad_config_keeps_the_good_one(m: PluginView, parsed: Option<ConfigData>)
    ensures
        parsed is None ==> m.reconfigured(parsed) == m,
        parsed matches Some(tree) ==> (fault(tree) is Some ==> m.reconfigured(parsed) == m),
        parsed matches Some(tree) ==> (fault(tree) is None ==> m.reconfigured(parsed)
            == m.with_config(tree)),
        m.reconfigured(parsed).session == m.session,
        m.reconfigured(parsed).life == m.life,
        m.reconfigured(parsed).name == m.name,
{
}

/// A swap of the code leaves the session store and the configuration as they
/// were.
pub proof fn law_session_survives_swap(m: PluginView, signal: ReloadSignal)
    ensures
        (PluginView { life: m.life.signalled(signal), ..m }).session == m.session,
        (PluginView { life: m.life.signalled(signal), ..m }).config == m.config,
{
}

/// What a module's entry point returned becomes the result of the request,
/// unchanged: its value, its own error, or the lack of any result.
pub fn relay(outcome: Option<Result<Json, String>>) -> (r: Result<Json, DispatchError>)
    ensures
        r == match outcome {
            Some(Ok(value)) => Ok::<Json, DispatchError>(value),
            Some(Err(message)) => Err(DispatchError::Application(message)),
            None => Err(DispatchError::NoResult),
        },
{
    match outcome {
        Some(Ok(value)) => Ok(value),
        Some(Err(message)) => Err(DispatchError::Application(message)),
        None => Err(DispatchError::NoResult),
    }
}

/// The handle of one module.
pub struct Plugin {
    name: String,
    config: ConfigDocument,
    session: Session,
    generations: Generations,
}

impl View for Plugin {
    type V = PluginView;

    closed spec fn view(&self) -> PluginView {
        PluginView {
            name: self.name@,
            config: self.config.data(),
            secret: self.config.secret_text(),
            token: self.config.token_text(),
            session: self.session@,
            life: self.generations@,
        }
    }
}

impl Plugin {
    /// Makes the handle of the module `name` from the text of its
    /// configuration file.
    pub fn new(name: &str, config_text: &str) -> (r: Result<Plugin, ConfigError>)
        ensures
            match toml_tree(config_text@) {
                None => r matches Err(ConfigError::Syntax(_)),
                Some(tree) => match r {
                    Ok(plugin) => fault(tree) is None && plugin@ == PluginView::fresh(name@, tree),
                    Err(e) => fault(tree) == Some(e),
                },
            },
    {
        match ConfigDocument::parse(config_text) {
            Err(e) => Err(e),
            Ok(config) => Ok(
                Plugin {
                    name: name.to_owned(),
                    config,
                    session: Session::new(),
                    generations: Generations::new(),
                },
            ),
        }
    }

    /// The name of the module.
    pub fn name(&self) -> (r: &str)
        ensures
            r@ == self@.name,
    {
        self.name.as_str()
    }

    /// The configuration document of the module.
    pub fn config(&self) -> (r: &ConfigDocument)
        ensures
            r.data() == self@.config,
            r.secret_text() == self@.secret,
            r.token_text() == self@.token,
    {
        &self.config
    }

    /// The session store of the module.
    pub fn session(&self) -> (r: &Session)
        ensures
            r@ == self@.session,
    {
        &self.session
    }

    /// The configuration document and the session store of the module, as
    /// they are handed to the module's entry point: the document to read, the
    /// store to read and to change.
    pub fn parts(&mut self) -> (r: (&ConfigDocument, &mut Session))
        ensures
            r.0.data() == old(self)@.config,
            r.0.secret_text() == old(self)@.secret,
            r.0.token_text() == old(self)@.token,
            r.1@ == old(self)@.session,
            final(self)@ == (PluginView { session: final(r.1)@, ..old(self)@ }),
    {
        (&self.config, &mut self.session)
    }

    /// The generations of the module's code.
    pub fn generations(&self) -> (r: &Generations)
        ensures
            r@ == self@.life,
    {
        &self.generations
    }

    /// The effective session value under `key`.
    pub fn session_get(&self, key: &str) -> (r: Option<Json>)
        ensures
            match r {
                Some(v) => effective(self@.session, key@) == Some(v@),
                None => effective(self@.session, key@) is None,
            },
    {
        self.session.get(key)
    }

    /// Replaces the session fragments under `key` by `value` alone.
    pub fn session_set(&mut self, key: &str, value: Json)
        ensures
            final(self)@ == (PluginView {
                session: after_set(old(self)@.session, key@, value@),
                ..old(self)@
            }),
    {
        self.session.set(key, value);
    }

    /// Appends `value` to the session fragments under `key`.
    pub fn session_add(&mut self, key: &str, value: Json)
        ensures
            final(self)@ == (PluginView {
                session: after_add(old(self)@.session, key@, value@),
                ..old(self)@
            }),
    {
        self.session.add(key, value);
    }

    /// Installs generation `id` of the module's code.
    pub fn add_generation(&mut self, id: u64)
        ensures
            final(self)@ == (PluginView { life: old(self)@.life.installed(id), ..old(self)@ }),
    {
        self.generations.add_generation(id);
    }

    /// Discards generation `id` where it is retiring and has no call in
    /// flight, and says whether it did.
    pub fn retire_generation(&mut self, id: u64) -> (r: bool)
        ensures
            r == old(self)@.life.quiescent(id),
            final(self)@ == (PluginView { life: old(self)@.life.retired(id), ..old(self)@ }),
    {
        self.generations.retire_generation(id)
    }

    /// Takes a signal of the reloader.
    pub fn reload_callback(&mut self, signal: ReloadSignal)
        ensures
            final(self)@ == (PluginView { life: old(self)@.life.signalled(signal), ..old(self)@ }),
    {
        self.generations.reload_callback(signal);
    }

    /// Ends a swap of the module's code: installs the generation that was
    /// loaded, or keeps the current one where none was. Gives the generation
    /// that is discarded.
    pub fn swap(&mut self, fresh: Option<u64>) -> (r: Option<u64>)
        ensures
            final(self)@ == (PluginView { life: old(self)@.life.swapped(fresh), ..old(self)@ }),
            r == old(self)@.life.swept(fresh),
    {
        self.generations.swap(fresh)
    }

    /// Notes that the call that was let in to generation `id` has returned,
    /// and discards the generation where that made it quiescent. Says whether
    /// it discarded it.
    pub fn finish(&mut self, id: u64) -> (r: bool)
        ensures
            final(self)@ == (PluginView {
                life: old(self)@.life.left(id).retired(id),
                ..old(self)@
            }),
            r == old(self)@.life.left(id).quiescent(id),
    {
        self.generations.finish(id)
    }

    /// Decides of a request that carries `secret`: refuses it where the secret
    /// is not the module's, and else lets it in where a generation can take it.
    pub fn run(&mut self, secret: &str) -> (r: Result<Admission, DispatchError>)
        ensures
            final(self)@ == old(self)@.after_run(secret@),
            r == match old(self)@.verdict(secret@) {
                Verdict::Denied => Err::<Admission, DispatchError>(DispatchError::AuthMismatch),
                Verdict::Unavailable => Err(DispatchError::NotLoaded),
                Verdict::Go(a) => Ok(a),
            },
    {
        if !self.config.secret_is(secret) {
            return Err(DispatchError::AuthMismatch);
        }
        match self.generations.enter() {
            None => Err(DispatchError::NotLoaded),
            Some(a) => Ok(a),
        }
    }

    /// Notes that the call that was let in to generation `id` has returned,
    /// and says whether the generation is now quiescent.
    pub fn leave(&mut self, id: u64) -> (r: bool)
        ensures
            final(self)@ == (PluginView { life: old(self)@.life.left(id), ..old(self)@ }),
            r == final(self)@.life.quiescent(id),
    {
        self.generations.leave(id)
    }

    /// Replaces the configuration document by the one that `text` is. A text
    /// that is no valid document leaves the old document in place.
    pub fn reconfigure(&mut self, text: &str) -> (r: Result<(), ConfigError>)
        ensures
            final(self)@ == old(self)@.reconfigured(toml_tree(text@)),
            match toml_tree(text@) {
                None => r matches Err(ConfigError::Syntax(_)),
                Some(tree) => match fault(tree) {
                    Some(e) => r == Err::<(), ConfigError>(e),
                    None => r is Ok,
                },
            },
    {
        match ConfigDocument::parse(text) {
            Err(e) => Err(e),
            Ok(config) => {
                self.config = config;
                Ok(())
            },
        }
    }
}

} // verus!
