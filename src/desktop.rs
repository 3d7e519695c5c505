//! Entry point for desktop targets.

use vstd::prelude::*;

use crate::builder::{hook_outcome, AppBuilder, SetupContext, SetupHook};
use crate::config::{entry_plugins, BuildProfile, Capability, Platform, StartupError};
use crate::launch::{start_spec, Action, Launch};

verus! {

/// Desktop setup: under a debug profile, opens developer tools on the main
/// window. A missing main window is a sequencing bug and fails setup.
pub fn setup_desktop(profile: BuildProfile, ctx: &mut SetupContext) -> (r: Result<(), StartupError>)
    ensures
        (*final(ctx), r) == hook_outcome(SetupHook::Desktop { profile }, *old(ctx)),
{
    if profile.is_debug() {
        if !ctx.main_window {
            return Err(StartupError::PreconditionViolation);
        }
        ctx.devtools_open = true;
    }
    Ok(())
}

/// The desktop builder: the desktop setup hook, then the update-check and
/// process-lifecycle plugins.
pub fn builder(profile: BuildProfile) -> (r: AppBuilder)
    ensures
        r@.plugins == entry_plugins(Platform::Desktop),
        r@.hook == Some(SetupHook::Desktop { profile }),
{
    let b = AppBuilder::new().setup(SetupHook::Desktop { profile }).plugin(Capability::UpdateCheck).plugin(
        Capability::ProcessLifecycle,
    );
    assert(b@.plugins =~= entry_plugins(Platform::Desktop));
    b
}

/// Builds the desktop configuration and begins startup.
pub fn run(profile: BuildProfile) -> (r: (Launch, Action))
    ensures
        (r.0@, r.1) == start_spec(entry_plugins(Platform::Desktop), SetupHook::Desktop { profile }),
        r.0.wf(),
{
    builder(profile).run()
}

} // verus!
