//! Startup sequence after `run`: plugins are initialized in registration order,
//! then the setup hook runs once, then the event loop is entered. Each step is
//! a decision from the current phase and the event that the host reports.

use vstd::prelude::*;

use crate::builder::SetupHook;
use crate::config::{Capability, StartupError};

verus! {

/// Where a startup sequence stands.
#[derive(Clone, Copy, Debug, PartialEq, Eq, Structural)]
pub enum Phase {
    /// The first `done` plugins are initialized; the next one is being initialized.
    Plugins { done: usize },
    /// All plugins are initialized; the setup hook is running.
    Setup,
    /// The event loop is running.
    Running,
    /// The event loop exited.
    Terminated,
    /// Startup failed before the event loop was entered.
    Aborted { error: StartupError },
}

/// What the host reports back after performing the last action.
#[derive(Clone, Copy, Debug, PartialEq, Eq, Structural)]
pub enum Event {
    PluginReady,
    PluginFailed,
    SetupSucceeded,
    SetupFailed { error: StartupError },
    LoopExited,
}

/// What the host is to do next.
#[derive(Clone, Copy, Debug, PartialEq, Eq, Structural)]
pub enum Action {
    /// Initialize this plugin and report `PluginReady` or `PluginFailed`.
    InitPlugin { plugin: Capability },
    /// Run this setup hook and report `SetupSucceeded` or `SetupFailed`.
    RunSetup { hook: SetupHook },
    /// Enter the event loop and report `LoopExited` when it ends.
    EnterEventLoop,
    /// Stop startup: a fatal error, reported through the host.
    Abort { error: StartupError },
    /// The process may end.
    Exit,
    /// The event does not belong to the current phase; nothing changes.
    Ignore,
}

/// Mathematical model of a startup sequence.
pub struct LaunchView {
    pub plugins: Seq<Capability>,
    pub hook: SetupHook,
    pub phase: Phase,
}

/// The phase and action once the first `done` plugins are initialized.
pub open spec fn after_plugins(plugins: Seq<Capability>, hook: SetupHook, done: int) -> (Phase, Action) {
    if done < plugins.len() {
        (Phase::Plugins { done: done as usize }, Action::InitPlugin { plugin: plugins[done] })
    } else {
        (Phase::Setup, Action::RunSetup { hook })
    }
}

/// The next phase and the action taken when `e` arrives in state `v`.
pub open spec fn step_spec(v: LaunchView, e: Event) -> (Phase, Action) {
    match v.phase {
        Phase::Plugins { done } => match e {
            Event::PluginReady => after_plugins(v.plugins, v.hook, done + 1),
            Event::PluginFailed => (
                Phase::Aborted { error: StartupError::PluginInit },
                Action::Abort { error: StartupError::PluginInit },
            ),
            _ => (v.phase, Action::Ignore),
        },
        Phase::Setup => match e {
            Event::SetupSucceeded => (Phase::Running, Action::EnterEventLoop),
            Event::SetupFailed { error } => (Phase::Aborted { error }, Action::Abort { error }),
            _ => (v.phase, Action::Ignore),
        },
        Phase::Running => match e {
            Event::LoopExited => (Phase::Terminated, Action::Exit),
            _ => (v.phase, Action::Ignore),
        },
        _ => (v.phase, Action::Ignore),
    }
}

/// The state after `e` arrives in state `v`.
pub open spec fn next_view(v: LaunchView, e: Event) -> LaunchView {
    LaunchView { plugins: v.plugins, hook: v.hook, phase: step_spec(v, e).0 }
}

/// The actions taken when `events` arrive, in order, starting from state `v`.
pub open spec fn trace(v: LaunchView, events: Seq<Event>) -> Seq<Action>
    decreases events.len(),
{
    if events.len() == 0 {
        Seq::empty()
    } else {
        seq![step_spec(v, events[0]).1] + trace(next_view(v, events[0]), events.drop_first())
    }
}

/// The state in which `run` leaves a builder with these plugins and this hook,
/// and the first action.
pub open spec fn start_spec(plugins: Seq<Capability>, hook: SetupHook) -> (LaunchView, Action) {
    let (phase, action) = after_plugins(plugins, hook, 0);
    (LaunchView { plugins, hook, phase }, action)
}

/// A startup sequence in progress. Created only by `AppBuilder::run`.
pub struct Launch {
    plugins: Vec<Capability>,
    hook: SetupHook,
    phase: Phase,
}

impl View for Launch {
    type V = LaunchView;

    closed spec fn view(&self) -> LaunchView {
        LaunchView { plugins: self.plugins@, hook: self.hook, phase: self.phase }
    }
}

/// Well-formed state: while plugins are being initialized, one is still left.
pub open spec fn launch_wf(v: LaunchView) -> bool {
    v.phase matches Phase::Plugins { done } ==> done < v.plugins.len()
}

impl Launch {
    /// See `launch_wf`.
    pub open spec fn wf(&self) -> bool {
        launch_wf(self@)
    }

    /// The phase and action once the first `done` plugins are initialized.
    fn advance(plugins: &Vec<Capability>, hook: SetupHook, done: usize) -> (r: (Phase, Action))
        requires
            done <= plugins.len(),
        ensures
            r == after_plugins(plugins@, hook, done as int),
    {
        if done < plugins.len() {
            (Phase::Plugins { done }, Action::InitPlugin { plugin: plugins[done] })
        } else {
            (Phase::Setup, Action::RunSetup { hook })
        }
    }

    /// Begins startup with these plugins and this hook: returns the sequence and
    /// its first action.
    pub(crate) fn start(plugins: Vec<Capability>, hook: SetupHook) -> (r: (Launch, Action))
        ensures
            (r.0@, r.1) == start_spec(plugins@, hook),
            r.0.wf(),
    {
        let (phase, action) = Launch::advance(&plugins, hook, 0);
        (Launch { plugins, hook, phase }, action)
    }

    /// Takes in what the host reports and decides the next action.
    pub fn step(&mut self, e: Event) -> (r: Action)
        requires
            old(self).wf(),
        ensures
            final(self).wf(),
            final(self)@ == next_view(old(self)@, e),
            r == step_spec(old(self)@, e).1,
    {
        let len = self.plugins.len();
        let (phase, action) = match self.phase {
            Phase::Plugins { done } => match e {
                Event::PluginReady => {
                    Launch::advance(&self.plugins, self.hook, done + 1)
                },
                Event::PluginFailed => (
                    Phase::Aborted { error: StartupError::PluginInit },
                    Action::Abort { error: StartupError::PluginInit },
                ),
                _ => (self.phase, Action::Ignore),
            },
            Phase::Setup => match e {
                Event::SetupSucceeded => (Phase::Running, Action::EnterEventLoop),
                Event::SetupFailed { error } => (Phase::Aborted { error }, Action::Abort { error }),
                _ => (self.phase, Action::Ignore),
            },
            Phase::Running => match e {
                Event::LoopExited => (Phase::Terminated, Action::Exit),
                _ => (self.phase, Action::Ignore),
            },
            _ => (self.phase, Action::Ignore),
        };
        self.phase = phase;
        action
    }

    /// The current phase.
    pub fn phase(&self) -> (r: Phase)
        ensures
            r == self@.phase,
    {
        self.phase
    }

    /// The plugins of this sequence, in the order they are initialized.
    pub fn plugins(&self) -> (r: &Vec<Capability>)
        ensures
            r@ == self@.plugins,
    {
        &self.plugins
    }
}

} // verus!
