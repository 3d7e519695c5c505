//! Properties that hold across the entry points, the setup hooks and the
//! startup sequence.

use vstd::prelude::*;

use crate::builder::{hook_outcome, SetupContext, SetupHook};
use crate::config::{devtools_wanted, entry_plugins, BuildProfile, Capability, Platform};
use crate::entry_hook;
use crate::launch::{launch_wf, next_view, start_spec, step_spec, trace, Action, Event, LaunchView, Phase};

verus! {

/// After the setup hook of an entry point ran with the main window present and
/// developer tools closed, developer tools are open exactly when that entry
/// point wants them; on desktop, exactly under a debug profile.
pub proof fn devtools_open_iff_debug(platform: Platform, profile: BuildProfile, ctx: SetupContext)
    requires
        ctx.main_window,
        !ctx.devtools_open,
    ensures
        hook_outcome(entry_hook(platform, profile), ctx).1 is Ok,
        hook_outcome(entry_hook(platform, profile), ctx).0.devtools_open <==> devtools_wanted(platform, profile),
        platform == Platform::Desktop ==> (hook_outcome(entry_hook(platform, profile), ctx).0.devtools_open
            <==> profile == BuildProfile::Debug),
{
}

/// The update-check plugin is registered exactly by the desktop entry point.
pub proof fn update_check_iff_desktop(platform: Platform)
    ensures
        entry_plugins(platform).contains(Capability::UpdateCheck) <==> platform == Platform::Desktop,
{
    if platform == Platform::Desktop {
        assert(entry_plugins(platform)[0] == Capability::UpdateCheck);
    }
}

/// No action asks for the setup hook.
pub open spec fn no_setup(t: Seq<Action>) -> bool {
    forall|i: int| 0 <= i < t.len() ==> !(#[trigger] t[i] is RunSetup)
}

/// No action asks to enter the event loop.
pub open spec fn no_event_loop(t: Seq<Action>) -> bool {
    forall|i: int| 0 <= i < t.len() ==> !(#[trigger] t[i] is EnterEventLoop)
}

/// At most one action asks for the setup hook.
pub open spec fn setup_at_most_once(t: Seq<Action>) -> bool {
    forall|i: int, k: int|
        0 <= i < t.len() && 0 <= k < t.len() && #[trigger] t[i] is RunSetup && #[trigger] t[k] is RunSetup
            ==> i == k
}

/// Every action that asks to enter the event loop comes after one that asks
/// for the setup hook `hook`.
pub open spec fn event_loop_after_setup(t: Seq<Action>, hook: SetupHook) -> bool {
    forall|j: int|
        0 <= j < t.len() && #[trigger] t[j] is EnterEventLoop
            ==> exists|i: int| 0 <= i < j && #[trigger] t[i] == (Action::RunSetup { hook })
}

/// Every plugin that an action initializes is one of `plugins`.
pub open spec fn inits_within(t: Seq<Action>, plugins: Seq<Capability>) -> bool {
    forall|i: int| 0 <= i < t.len() && #[trigger] t[i] is InitPlugin ==> plugins.contains(t[i]->plugin)
}

proof fn lemma_cons_index(a: Action, r: Seq<Action>)
    ensures
        (seq![a] + r).len() == r.len() + 1,
        (seq![a] + r)[0] == a,
        forall|k: int| 0 < k < r.len() + 1 ==> #[trigger] (seq![a] + r)[k] == r[k - 1],
{
    let t = seq![a] + r;
    assert forall|k: int| 0 < k < r.len() + 1 implies #[trigger] t[k] == r[k - 1] by {}
}

proof fn lemma_cons_no_setup(a: Action, r: Seq<Action>)
    requires
        !(a is RunSetup),
        no_setup(r),
    ensures
        no_setup(seq![a] + r),
{
    lemma_cons_index(a, r);
}

proof fn lemma_cons_no_event_loop(a: Action, r: Seq<Action>)
    requires
        !(a is EnterEventLoop),
        no_event_loop(r),
    ensures
        no_event_loop(seq![a] + r),
{
    lemma_cons_index(a, r);
}

proof fn lemma_cons_setup_at_most_once(a: Action, r: Seq<Action>)
    requires
        a is RunSetup ==> no_setup(r),
        setup_at_most_once(r),
    ensures
        setup_at_most_once(seq![a] + r),
{
    let t = seq![a] + r;
    lemma_cons_index(a, r);
    assert forall|i: int, k: int|
        0 <= i < t.len() && 0 <= k < t.len() && #[trigger] t[i] is RunSetup && #[trigger] t[k] is RunSetup
            implies i == k by {
        if i > 0 && k > 0 {
            assert(r[i - 1] is RunSetup && r[k - 1] is RunSetup);
        }
    }
}

proof fn lemma_cons_event_loop_after_setup(a: Action, r: Seq<Action>, hook: SetupHook)
    requires
        a == (Action::RunSetup { hook }) || (!(a is EnterEventLoop) && (event_loop_after_setup(r, hook)
            || no_event_loop(r))),
    ensures
        event_loop_after_setup(seq![a] + r, hook),
{
    let t = seq![a] + r;
    lemma_cons_index(a, r);
    assert forall|j: int| 0 <= j < t.len() && #[trigger] t[j] is EnterEventLoop implies exists|i: int|
        0 <= i < j && #[trigger] t[i] == (Action::RunSetup { hook }) by {
        if a != (Action::RunSetup { hook }) {
            assert(r[j - 1] is EnterEventLoop);
            let i0 = choose|i: int| 0 <= i < j - 1 && #[trigger] r[i] == (Action::RunSetup { hook });
            assert(t[i0 + 1] == r[i0]);
        }
    }
}

proof fn lemma_cons_inits_within(a: Action, r: Seq<Action>, plugins: Seq<Capability>)
    requires
        a is InitPlugin ==> plugins.contains(a->plugin),
        inits_within(r, plugins),
    ensures
        inits_within(seq![a] + r, plugins),
{
    let t = seq![a] + r;
    lemma_cons_index(a, r);
    assert forall|i: int| 0 <= i < t.len() && #[trigger] t[i] is InitPlugin implies plugins.contains(
        t[i]->plugin,
    ) by {
        if i > 0 {
            assert(r[i - 1] is InitPlugin);
        }
    }
}

/// What a startup sequence does from state `v` on, whatever the host reports:
/// it asks for the setup hook at most once, and only while plugins are still
/// being initialized; it asks to enter the event loop only from the setup
/// phase or after asking for the setup hook; it initializes only its own plugins.
proof fn lemma_trace(v: LaunchView, events: Seq<Event>)
    requires
        launch_wf(v),
    ensures
        setup_at_most_once(trace(v, events)),
        !(v.phase is Plugins) ==> no_setup(trace(v, events)),
        v.phase is Plugins ==> event_loop_after_setup(trace(v, events), v.hook),
        !(v.phase is Plugins) && !(v.phase is Setup) ==> no_event_loop(trace(v, events)),
        inits_within(trace(v, events), v.plugins),
    decreases events.len(),
{
    if events.len() > 0 {
        let e = events[0];
        let a = step_spec(v, e).1;
        let v2 = next_view(v, e);
        let rest = events.drop_first();
        let r = trace(v2, rest);
        lemma_trace(v2, rest);
        assert(trace(v, events) == seq![a] + r);
        if let Phase::Plugins { done } = v.phase {
            if a is InitPlugin {
                assert(v.plugins[done + 1] == a->plugin);
            }
        }
        lemma_cons_inits_within(a, r, v.plugins);
        lemma_cons_setup_at_most_once(a, r);
        if v.phase is Plugins {
            lemma_cons_event_loop_after_setup(a, r, v.hook);
        } else {
            lemma_cons_no_setup(a, r);
            if !(v.phase is Setup) {
                lemma_cons_no_event_loop(a, r);
            }
        }
    }
}

/// For any builder with a setup hook and whatever the host reports, the actions
/// of startup (the first one, from `run`, included) ask for the setup hook at
/// most once, and ask to enter the event loop only after the setup hook was asked for.
pub proof fn setup_once_before_event_loop(plugins: Seq<Capability>, hook: SetupHook, events: Seq<Event>)
    ensures
        setup_at_most_once(seq![start_spec(plugins, hook).1] + trace(start_spec(plugins, hook).0, events)),
        event_loop_after_setup(seq![start_spec(plugins, hook).1] + trace(start_spec(plugins, hook).0, events), hook),
{
    let (v, first) = start_spec(plugins, hook);
    lemma_trace(v, events);
    lemma_cons_setup_at_most_once(first, trace(v, events));
    lemma_cons_event_loop_after_setup(first, trace(v, events), hook);
}

/// A sequence that terminated or aborted stays where it is: whatever the host
/// reports afterwards, nothing is restarted and every event is ignored.
pub proof fn ended_sequence_stays_ended(v: LaunchView, events: Seq<Event>)
    requires
        v.phase is Terminated || v.phase is Aborted,
    ensures
        forall|i: int| 0 <= i < trace(v, events).len() ==> #[trigger] trace(v, events)[i] == Action::Ignore,
    decreases events.len(),
{
    if events.len() > 0 {
        let e = events[0];
        let rest = events.drop_first();
        assert(next_view(v, e) == v);
        ended_sequence_stays_ended(v, rest);
        lemma_cons_index(Action::Ignore, trace(v, rest));
        assert(trace(v, events) == seq![Action::Ignore] + trace(v, rest));
    }
}

/// The mobile entry point never registers nor initializes the update-check
/// plugin, whatever the build profile and whatever the host reports.
pub proof fn mobile_never_update_check(profile: BuildProfile, events: Seq<Event>)
    ensures
        !entry_plugins(Platform::Mobile).contains(Capability::UpdateCheck),
        start_spec(entry_plugins(Platform::Mobile), entry_hook(Platform::Mobile, profile)).1
            != (Action::InitPlugin { plugin: Capability::UpdateCheck }),
        forall|i: int|
            0 <= i < trace(start_spec(entry_plugins(Platform::Mobile), entry_hook(Platform::Mobile, profile)).0, events).len()
                ==> #[trigger] trace(start_spec(entry_plugins(Platform::Mobile), entry_hook(Platform::Mobile, profile)).0, events)[i]
                != (Action::InitPlugin { plugin: Capability::UpdateCheck }),
{
    let v = start_spec(entry_plugins(Platform::Mobile), entry_hook(Platform::Mobile, profile)).0;
    lemma_trace(v, events);
    assert(inits_within(trace(v, events), Seq::empty()));
}

} // verus!
