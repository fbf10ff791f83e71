//! The startup as a state machine.
//!
//! The caller does the outside work and reports each outcome as an
//! [`Event`]; [`SyntaxesFairing::step`] answers with the next state and the
//! [`Action`] to perform:
//!
//! ```text
//! Unconfigured --Configuration--> Locating --Normalized--> PathResolved
//!     --Loaded--> RegistryInstalled --Liftoff--> Ready
//! any failing outcome --> StartupAborted
//! ```
//!
//! `Ready` and `StartupAborted` are never left, and an event that the
//! current phase does not wait for changes nothing.
use vstd::prelude::*;
use syntect::parsing::SyntaxSet;
use crate::error::{StartupError, StartupErrorView};
use crate::path::{candidate, spec_candidate, Configured, ConfiguredView};
use crate::registry::{Syntaxes, SyntaxesView};

verus! {

/// The name under which the startup hooks are registered.
pub const FAIRING_NAME: &'static str = "Syntaxes";

/// How far the startup has come.
#[derive(Debug)]
pub enum Phase {
    /// Nothing is known yet; waits for the configuration.
    Unconfigured,
    /// A directory was chosen; waits for its normalization.
    Locating { candidate: String },
    /// The chosen directory exists under the absolute `path`; waits for the
    /// definitions to be loaded from it.
    PathResolved { candidate: String, path: String },
    /// The registry was handed over for installation; waits for liftoff.
    RegistryInstalled { path: String },
    /// The application serves requests.
    Ready { path: String },
    /// The startup failed; the application does not launch.
    StartupAborted,
}

/// A [`Phase`] with its texts as sequences of characters.
pub enum PhaseView {
    Unconfigured,
    Locating { candidate: Seq<char> },
    PathResolved { candidate: Seq<char>, path: Seq<char> },
    RegistryInstalled { path: Seq<char> },
    Ready { path: Seq<char> },
    StartupAborted,
}

impl View for Phase {
    type V = PhaseView;

    open spec fn view(&self) -> PhaseView {
        match *self {
            Phase::Unconfigured => PhaseView::Unconfigured,
            Phase::Locating { candidate } => PhaseView::Locating { candidate: candidate@ },
            Phase::PathResolved { candidate, path } => PhaseView::PathResolved {
                candidate: candidate@,
                path: path@,
            },
            Phase::RegistryInstalled { path } => PhaseView::RegistryInstalled { path: path@ },
            Phase::Ready { path } => PhaseView::Ready { path: path@ },
            Phase::StartupAborted => PhaseView::StartupAborted,
        }
    }
}

/// The outcome of a piece of outside work, or the framework's signal.
pub enum Event {
    /// The configuration was read: the application's root, and what is set
    /// under [`crate::path::CONFIG_KEY`].
    Configuration { root: String, value: Configured },
    /// The file system normalized the chosen directory to an absolute path,
    /// or said why it cannot.
    Normalized(Result<String, String>),
    /// The parser read every definition of the directory, or said why it
    /// cannot.
    Loaded(Result<SyntaxSet, String>),
    /// The application is about to serve requests.
    Liftoff,
}

/// An [`Event`] with its texts as sequences of characters.
pub enum EventView {
    Configuration { root: Seq<char>, value: ConfiguredView },
    Normalized(Result<Seq<char>, Seq<char>>),
    Loaded(Result<SyntaxSet, Seq<char>>),
    Liftoff,
}

impl View for Event {
    type V = EventView;

    open spec fn view(&self) -> EventView {
        match *self {
            Event::Configuration { root, value } => EventView::Configuration {
                root: root@,
                value: value@,
            },
            Event::Normalized(Ok(path)) => EventView::Normalized(Ok(path@)),
            Event::Normalized(Err(cause)) => EventView::Normalized(Err(cause@)),
            Event::Loaded(Ok(definitions)) => EventView::Loaded(Ok(definitions)),
            Event::Loaded(Err(cause)) => EventView::Loaded(Err(cause@)),
            Event::Liftoff => EventView::Liftoff,
        }
    }
}

/// What the caller has to do next.
pub enum Action {
    /// Normalize this directory and report [`Event::Normalized`].
    Normalize { path: String },
    /// Load the definitions of this directory and report [`Event::Loaded`].
    Load { path: String },
    /// Put the registry into the application's shared state.
    Install(Syntaxes),
    /// Report the error and do not launch.
    Abort(StartupError),
    /// Announce the directory that the definitions came from.
    Banner { path: String },
    /// Nothing: the event was not waited for.
    Nothing,
}

/// An [`Action`] with its texts as sequences of characters.
pub enum ActionView {
    Normalize { path: Seq<char> },
    Load { path: Seq<char> },
    Install(SyntaxesView),
    Abort(StartupErrorView),
    Banner { path: Seq<char> },
    Nothing,
}

impl View for Action {
    type V = ActionView;

    open spec fn view(&self) -> ActionView {
        match *self {
            Action::Normalize { path } => ActionView::Normalize { path: path@ },
            Action::Load { path } => ActionView::Load { path: path@ },
            Action::Install(registry) => ActionView::Install(registry@),
            Action::Abort(error) => ActionView::Abort(error@),
            Action::Banner { path } => ActionView::Banner { path: path@ },
            Action::Nothing => ActionView::Nothing,
        }
    }
}

/// The phase that follows `phase` on `event`, and the action that goes with
/// the change.
pub open spec fn spec_step(phase: PhaseView, event: EventView) -> (PhaseView, ActionView) {
    match (phase, event) {
        (PhaseView::Unconfigured, EventView::Configuration { root, value }) => match spec_candidate(
            root,
            value,
        ) {
            Ok(path) => (PhaseView::Locating { candidate: path }, ActionView::Normalize { path }),
            Err(error) => (PhaseView::StartupAborted, ActionView::Abort(error)),
        },
        (PhaseView::Locating { candidate }, EventView::Normalized(Ok(path))) => (
            PhaseView::PathResolved { candidate, path },
            ActionView::Load { path },
        ),
        (PhaseView::Locating { candidate }, EventView::Normalized(Err(cause))) => (
            PhaseView::StartupAborted,
            ActionView::Abort(StartupErrorView::Normalization { path: candidate, cause }),
        ),
        (PhaseView::PathResolved { candidate, path }, EventView::Loaded(Ok(definitions))) => (
            PhaseView::RegistryInstalled { path },
            ActionView::Install(SyntaxesView { definitions, path }),
        ),
        (PhaseView::PathResolved { candidate, path }, EventView::Loaded(Err(cause))) => (
            PhaseView::StartupAborted,
            ActionView::Abort(StartupErrorView::Parse { path: candidate, cause }),
        ),
        (PhaseView::RegistryInstalled { path }, EventView::Liftoff) => (
            PhaseView::Ready { path },
            ActionView::Banner { path },
        ),
        (phase, _) => (phase, ActionView::Nothing),
    }
}

/// The hooks that the startup asks the framework to call.
#[derive(Debug)]
pub struct HookInfo {
    /// The name under which the hooks are registered.
    pub name: &'static str,
    /// The hook that runs before launch and may stop it.
    pub ignite: bool,
    /// The hook that runs once the application serves requests.
    pub liftoff: bool,
}

/// The startup of one application: the phase it has reached.
#[derive(Debug)]
pub struct SyntaxesFairing {
    phase: Phase,
}

impl View for SyntaxesFairing {
    type V = PhaseView;

    closed spec fn view(&self) -> PhaseView {
        self.phase@
    }
}

impl Syntaxes {
    /// A startup that has not begun: it waits for [`Event::Configuration`].
    pub fn fairing() -> (fairing: SyntaxesFairing)
        ensures
            fairing@ == PhaseView::Unconfigured,
    {
        SyntaxesFairing { phase: Phase::Unconfigured }
    }
}

impl SyntaxesFairing {
    /// The hooks to register: both, under [`FAIRING_NAME`].
    pub fn info(&self) -> (info: HookInfo)
        ensures
            info.name@ == FAIRING_NAME@,
            info.ignite,
            info.liftoff,
    {
        HookInfo { name: FAIRING_NAME, ignite: true, liftoff: true }
    }

    /// The phase that the startup has reached.
    pub fn phase(&self) -> (phase: &Phase)
        ensures
            phase@ == self@,
    {
        &self.phase
    }

    /// Takes the outcome of the last action and says what to do next.
    pub fn step(self, event: Event) -> (next: (SyntaxesFairing, Action))
        ensures
            (next.0@, next.1@) == spec_step(self@, event@),
    {
        match self.phase {
            Phase::Unconfigured => match event {
                Event::Configuration { root, value } => match candidate(root.as_str(), value) {
                    Ok(path) => {
                        let kept = path.clone();
                        (
                            SyntaxesFairing { phase: Phase::Locating { candidate: kept } },
                            Action::Normalize { path },
                        )
                    },
                    Err(error) => (
                        SyntaxesFairing { phase: Phase::StartupAborted },
                        Action::Abort(error),
                    ),
                },
                _ => (SyntaxesFairing { phase: Phase::Unconfigured }, Action::Nothing),
            },
            Phase::Locating { candidate } => match event {
                Event::Normalized(Ok(path)) => {
                    let kept = path.clone();
                    (
                        SyntaxesFairing { phase: Phase::PathResolved { candidate, path: kept } },
                        Action::Load { path },
                    )
                },
                Event::Normalized(Err(cause)) => (
                    SyntaxesFairing { phase: Phase::StartupAborted },
                    Action::Abort(StartupError::Normalization { path: candidate, cause }),
                ),
                _ => (SyntaxesFairing { phase: Phase::Locating { candidate } }, Action::Nothing),
            },
            Phase::PathResolved { candidate, path } => match event {
                Event::Loaded(Ok(definitions)) => {
                    let kept = path.clone();
                    (
                        SyntaxesFairing { phase: Phase::RegistryInstalled { path: kept } },
                        Action::Install(Syntaxes::new(definitions, path)),
                    )
                },
                Event::Loaded(Err(cause)) => (
                    SyntaxesFairing { phase: Phase::StartupAborted },
                    Action::Abort(StartupError::Parse { path: candidate, cause }),
                ),
                _ => (
                    SyntaxesFairing { phase: Phase::PathResolved { candidate, path } },
                    Action::Nothing,
                ),
            },
            Phase::RegistryInstalled { path } => match event {
                Event::Liftoff => {
                    let kept = path.clone();
                    (SyntaxesFairing { phase: Phase::Ready { path: kept } }, Action::Banner { path })
                },
                _ => (
                    SyntaxesFairing { phase: Phase::RegistryInstalled { path } },
                    Action::Nothing,
                ),
            },
            Phase::Ready { path } => (SyntaxesFairing { phase: Phase::Ready { path } }, Action::Nothing),
            Phase::StartupAborted => (
                SyntaxesFairing { phase: Phase::StartupAborted },
                Action::Nothing,
            ),
        }
    }
}

} // verus!
