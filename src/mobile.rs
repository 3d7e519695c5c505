//! Entry point invoked by the mobile host runtime. It registers no plugins: the
//! update-check capability is not available on this platform.

use vstd::prelude::*;

use crate::builder::{hook_outcome, AppBuilder, SetupContext, SetupHook};
use crate::config::{entry_plugins, Platform, StartupError};
use crate::launch::{start_spec, Action, Launch};

verus! {

/// Mobile setup: nothing to open, nothing to fail.
pub fn setup_mobile(ctx: &mut SetupContext) -> (r: Result<(), StartupError>)
    ensures
        (*final(ctx), r) == hook_outcome(SetupHook::Mobile, *old(ctx)),
{
    Ok(())
}

/// The mobile builder: the mobile setup hook and no plugins.
pub fn builder() -> (r: AppBuilder)
    ensures
        r@.plugins == entry_plugins(Platform::Mobile),
        r@.hook == Some(SetupHook::Mobile),
{
    let b = AppBuilder::new().setup(SetupHook::Mobile);
    assert(b@.plugins =~= entry_plugins(Platform::Mobile));
    b
}

/// Builds the mobile configuration and begins startup.
pub fn run() -> (r: (Launch, Action))
    ensures
        (r.0@, r.1) == start_spec(entry_plugins(Platform::Mobile), SetupHook::Mobile),
        r.0.wf(),
{
    builder().run()
}

} // verus!
