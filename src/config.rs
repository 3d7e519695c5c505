//! Compile-time configuration values and the capabilities they select.

use vstd::prelude::*;

verus! {

/// Debug or release compilation mode, resolved once at startup.
#[derive(Clone, Copy, Debug, PartialEq, Eq, Structural)]
pub enum BuildProfile {
    Debug,
    Release,
}

/// Target family that the running entry point was built for.
#[derive(Clone, Copy, Debug, PartialEq, Eq, Structural)]
pub enum Platform {
    Desktop,
    Mobile,
}

/// A plugin, identified by the capability it provides.
#[derive(Clone, Copy, Debug, PartialEq, Eq, Structural)]
pub enum Capability {
    /// Checks for and installs application updates.
    UpdateCheck,
    /// Process lifecycle control (exit, restart).
    ProcessLifecycle,
}

/// Fatal startup failures. None is retried; each one ends startup.
#[derive(Clone, Copy, Debug, PartialEq, Eq, Structural)]
pub enum StartupError {
    /// A registered plugin failed its own initialization.
    PluginInit,
    /// The setup hook reported failure.
    Setup,
    /// A sequencing bug: something guaranteed to exist at this stage was absent
    /// (the main window, when developer tools are requested).
    PreconditionViolation,
}

/// The plugins that the entry point of `platform` registers, in registration order.
pub open spec fn entry_plugins(platform: Platform) -> Seq<Capability> {
    match platform {
        Platform::Desktop => seq![Capability::UpdateCheck, Capability::ProcessLifecycle],
        Platform::Mobile => seq![],
    }
}

/// Whether the entry point of `platform` opens developer tools under `profile`.
pub open spec fn devtools_wanted(platform: Platform, profile: BuildProfile) -> bool {
    platform == Platform::Desktop && profile == BuildProfile::Debug
}

impl BuildProfile {
    /// True exactly for debug builds.
    pub fn is_debug(self) -> (r: bool)
        ensures
            r <==> self == BuildProfile::Debug,
    {
        match self {
            BuildProfile::Debug => true,
            BuildProfile::Release => false,
        }
    }
}

/// Whether developer tools are opened for the entry point of `platform` under `profile`.
pub fn devtools_enabled(platform: Platform, profile: BuildProfile) -> (r: bool)
    ensures
        r == devtools_wanted(platform, profile),
{
    match platform {
        Platform::Desktop => profile.is_debug(),
        Platform::Mobile => false,
    }
}

} // verus!
