//! Bootstrap layer of a webview application: which plugins are registered,
//! whether developer tools are opened, and in what order startup proceeds
//! before the host event loop takes over.

pub mod builder;
pub mod config;
pub mod desktop;
pub mod launch;
pub mod laws;
pub mod mobile;

use vstd::prelude::*;

use crate::builder::SetupHook;
use crate::config::{entry_plugins, BuildProfile, Platform};
use crate::launch::{start_spec, Action, Launch};

verus! {

/// The setup hook of the entry point of `platform` under `profile`.
pub open spec fn entry_hook(platform: Platform, profile: BuildProfile) -> SetupHook {
    match platform {
        Platform::Desktop => SetupHook::Desktop { profile },
        Platform::Mobile => SetupHook::Mobile,
    }
}

/// Dispatches to the entry point of `platform` and begins startup.
pub fn start(platform: Platform, profile: BuildProfile) -> (r: (Launch, Action))
    ensures
        (r.0@, r.1) == start_spec(entry_plugins(platform), entry_hook(platform, profile)),
        r.0.wf(),
{
    match platform {
        Platform::Desktop => desktop::run(profile),
        Platform::Mobile => mobile::run(),
    }
}

} // verus!
