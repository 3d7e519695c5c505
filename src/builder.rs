//! The application builder: an ordered plugin list and a single setup hook,
//! consumed by `run`.

use vstd::prelude::*;

use crate::config::{BuildProfile, Capability, StartupError};
use crate::launch::{start_spec, Action, Launch};

verus! {

/// The setup hook of an entry point, run once after the runtime context exists
/// and before the event loop starts.
#[derive(Clone, Copy, Debug, PartialEq, Eq, Structural)]
pub enum SetupHook {
    /// Opens developer tools on the main window under a debug profile.
    Desktop { profile: BuildProfile },
    /// Mobile setup: no developer tools, nothing to fail.
    Mobile,
}

/// What the setup hook sees of the live runtime, and what it asks of it.
/// Handed to the hook by reference for the duration of one call.
#[derive(Clone, Copy, Debug, PartialEq, Eq, Structural)]
pub struct SetupContext {
    /// Whether the main window exists.
    pub main_window: bool,
    /// Whether developer tools are open on the main window.
    pub devtools_open: bool,
}

impl SetupContext {
    /// A context for a runtime whose main window exists or not, with developer tools closed.
    pub fn new(main_window: bool) -> (r: SetupContext)
        ensures
            r.main_window == main_window,
            !r.devtools_open,
    {
        SetupContext { main_window, devtools_open: false }
    }
}

/// The context after `hook` ran on `ctx`, and what the hook returned.
pub open spec fn hook_outcome(hook: SetupHook, ctx: SetupContext) -> (SetupContext, Result<(), StartupError>) {
    match hook {
        SetupHook::Desktop { profile } => {
            if profile == BuildProfile::Release {
                (ctx, Ok(()))
            } else if ctx.main_window {
                (SetupContext { devtools_open: true, ..ctx }, Ok(()))
            } else {
                (ctx, Err(StartupError::PreconditionViolation))
            }
        },
        SetupHook::Mobile => (ctx, Ok(())),
    }
}

/// Runs `hook` against the runtime seen through `ctx`.
pub fn run_setup_hook(hook: SetupHook, ctx: &mut SetupContext) -> (r: Result<(), StartupError>)
    ensures
        (*final(ctx), r) == hook_outcome(hook, *old(ctx)),
{
    match hook {
        SetupHook::Desktop { profile } => crate::desktop::setup_desktop(profile, ctx),
        SetupHook::Mobile => crate::mobile::setup_mobile(ctx),
    }
}

/// Mathematical model of a builder: its plugins in registration order and its
/// setup hook, if one was set.
pub struct BuilderView {
    pub plugins: Seq<Capability>,
    pub hook: Option<SetupHook>,
}

/// Accumulates plugin registrations and one setup hook, then hands over to `run`.
pub struct AppBuilder {
    plugins: Vec<Capability>,
    hook: Option<SetupHook>,
}

impl View for AppBuilder {
    type V = BuilderView;

    closed spec fn view(&self) -> BuilderView {
        BuilderView { plugins: self.plugins@, hook: self.hook }
    }
}

impl AppBuilder {
    /// An empty builder: no plugins and no setup hook.
    pub fn new() -> (r: AppBuilder)
        ensures
            r@.plugins == Seq::<Capability>::empty(),
            r@.hook is None,
    {
        AppBuilder { plugins: Vec::new(), hook: None }
    }

    /// Stores the setup hook. A builder takes one hook only: a second call does
    /// not verify.
    pub fn setup(self, hook: SetupHook) -> (r: AppBuilder)
        requires
            self@.hook is None,
        ensures
            r@.plugins == self@.plugins,
            r@.hook == Some(hook),
    {
        AppBuilder { plugins: self.plugins, hook: Some(hook) }
    }

    /// Appends `p` to the plugin list.
    pub fn plugin(self, p: Capability) -> (r: AppBuilder)
        ensures
            r@.plugins == self@.plugins.push(p),
            r@.hook == self@.hook,
    {
        let mut plugins = self.plugins;
        plugins.push(p);
        AppBuilder { plugins, hook: self.hook }
    }

    /// Consumes the builder and begins startup: plugins are initialized in
    /// registration order, then the setup hook runs, then the event loop is
    /// entered. Returns the sequence and the first action for the host.
    pub fn run(self) -> (r: (Launch, Action))
        requires
            self@.hook is Some,
        ensures
            (r.0@, r.1) == start_spec(self@.plugins, self@.hook->0),
            r.0.wf(),
    {
        let hook = self.hook.unwrap();
        Launch::start(self.plugins, hook)
    }

    /// The registered plugins, in registration order.
    pub fn plugins(&self) -> (r: &Vec<Capability>)
        ensures
            r@ == self@.plugins,
    {
        &self.plugins
    }

    /// The setup hook, if one was set.
    pub fn hook(&self) -> (r: Option<SetupHook>)
        ensures
            r == self@.hook,
    {
        self.hook
    }
}

} // verus!
