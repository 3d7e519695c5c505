use app_bootstrap::builder::{run_setup_hook, AppBuilder, SetupContext, SetupHook};
use app_bootstrap::config::{devtools_enabled, BuildProfile, Capability, Platform, StartupError};
use app_bootstrap::launch::{Action, Event, Phase};
use app_bootstrap::{desktop, mobile, start};

/// Runs startup for an entry point the way a host would, with every plugin
/// initializing successfully. Returns every action taken and the context after
/// the setup hook.
fn drive(platform: Platform, profile: BuildProfile, main_window: bool) -> (Vec<Action>, SetupContext, Phase) {
    let (mut launch, mut action) = start(platform, profile);
    let mut actions = vec![action];
    let mut ctx = SetupContext::new(main_window);
    loop {
        let event = match action {
            Action::InitPlugin { .. } => Event::PluginReady,
            Action::RunSetup { hook } => match run_setup_hook(hook, &mut ctx) {
                Ok(()) => Event::SetupSucceeded,
                Err(error) => Event::SetupFailed { error },
            },
            Action::EnterEventLoop => Event::LoopExited,
            Action::Abort { .. } | Action::Exit | Action::Ignore => break,
        };
        action = launch.step(event);
        actions.push(action);
    }
    (actions, ctx, launch.phase())
}

fn count_setups(actions: &[Action]) -> usize {
    actions.iter().filter(|a| matches!(a, Action::RunSetup { .. })).count()
}

#[test]
fn desktop_debug_opens_devtools_with_both_plugins() {
    let b = desktop::builder(BuildProfile::Debug);
    assert_eq!(b.plugins(), &vec![Capability::UpdateCheck, Capability::ProcessLifecycle]);
    let (actions, ctx, phase) = drive(Platform::Desktop, BuildProfile::Debug, true);
    assert!(ctx.devtools_open);
    assert_eq!(
        actions,
        vec![
            Action::InitPlugin { plugin: Capability::UpdateCheck },
            Action::InitPlugin { plugin: Capability::ProcessLifecycle },
            Action::RunSetup { hook: SetupHook::Desktop { profile: BuildProfile::Debug } },
            Action::EnterEventLoop,
            Action::Exit,
        ]
    );
    assert_eq!(phase, Phase::Terminated);
}

#[test]
fn desktop_release_keeps_devtools_closed_with_both_plugins() {
    let b = desktop::builder(BuildProfile::Release);
    assert_eq!(b.plugins(), &vec![Capability::UpdateCheck, Capability::ProcessLifecycle]);
    let (actions, ctx, phase) = drive(Platform::Desktop, BuildProfile::Release, true);
    assert!(!ctx.devtools_open);
    assert_eq!(actions.len(), 5);
    assert_eq!(actions[3], Action::EnterEventLoop);
    assert_eq!(phase, Phase::Terminated);
}

#[test]
fn mobile_has_no_plugins_and_no_devtools() {
    for profile in [BuildProfile::Debug, BuildProfile::Release] {
        let b = mobile::builder();
        assert!(b.plugins().is_empty());
        assert_eq!(b.hook(), Some(SetupHook::Mobile));
        let (actions, ctx, phase) = drive(Platform::Mobile, profile, true);
        assert!(!ctx.devtools_open);
        assert_eq!(
            actions,
            vec![Action::RunSetup { hook: SetupHook::Mobile }, Action::EnterEventLoop, Action::Exit]
        );
        assert_eq!(phase, Phase::Terminated);
    }
}

#[test]
fn setup_failure_aborts_before_event_loop() {
    for platform in [Platform::Desktop, Platform::Mobile] {
        let (mut launch, mut action) = start(platform, BuildProfile::Release);
        while let Action::InitPlugin { .. } = action {
            action = launch.step(Event::PluginReady);
        }
        assert!(matches!(action, Action::RunSetup { .. }));
        let action = launch.step(Event::SetupFailed { error: StartupError::Setup });
        assert_eq!(action, Action::Abort { error: StartupError::Setup });
        assert_eq!(launch.phase(), Phase::Aborted { error: StartupError::Setup });
        assert_eq!(launch.step(Event::SetupSucceeded), Action::Ignore);
        assert_eq!(launch.step(Event::LoopExited), Action::Ignore);
        assert_eq!(launch.phase(), Phase::Aborted { error: StartupError::Setup });
    }
}

#[test]
fn missing_main_window_is_a_precondition_violation() {
    let (actions, ctx, phase) = drive(Platform::Desktop, BuildProfile::Debug, false);
    assert!(!ctx.devtools_open);
    assert_eq!(actions.last(), Some(&Action::Abort { error: StartupError::PreconditionViolation }));
    assert!(!actions.contains(&Action::EnterEventLoop));
    assert_eq!(phase, Phase::Aborted { error: StartupError::PreconditionViolation });
}

#[test]
fn release_desktop_does_not_need_main_window() {
    let (_, ctx, phase) = drive(Platform::Desktop, BuildProfile::Release, false);
    assert!(!ctx.devtools_open);
    assert_eq!(phase, Phase::Terminated);
}

#[test]
fn plugin_failure_aborts_without_running_setup() {
    let (mut launch, action) = desktop::run(BuildProfile::Debug);
    assert_eq!(action, Action::InitPlugin { plugin: Capability::UpdateCheck });
    let action = launch.step(Event::PluginFailed);
    assert_eq!(action, Action::Abort { error: StartupError::PluginInit });
    assert_eq!(launch.phase(), Phase::Aborted { error: StartupError::PluginInit });
    assert_eq!(launch.step(Event::PluginReady), Action::Ignore);
}

#[test]
fn devtools_only_for_desktop_debug() {
    assert!(devtools_enabled(Platform::Desktop, BuildProfile::Debug));
    assert!(!devtools_enabled(Platform::Desktop, BuildProfile::Release));
    assert!(!devtools_enabled(Platform::Mobile, BuildProfile::Debug));
    assert!(!devtools_enabled(Platform::Mobile, BuildProfile::Release));
    assert!(BuildProfile::Debug.is_debug());
    assert!(!BuildProfile::Release.is_debug());
}

#[test]
fn update_check_only_on_desktop() {
    for profile in [BuildProfile::Debug, BuildProfile::Release] {
        let (d, _) = start(Platform::Desktop, profile);
        assert!(d.plugins().contains(&Capability::UpdateCheck));
        let (m, _) = start(Platform::Mobile, profile);
        assert!(!m.plugins().contains(&Capability::UpdateCheck));
    }
}

#[test]
fn setup_runs_once_before_event_loop() {
    for platform in [Platform::Desktop, Platform::Mobile] {
        for profile in [BuildProfile::Debug, BuildProfile::Release] {
            let (actions, _, _) = drive(platform, profile, true);
            assert_eq!(count_setups(&actions), 1);
            let setup = actions.iter().position(|a| matches!(a, Action::RunSetup { .. })).unwrap();
            let event_loop = actions.iter().position(|a| *a == Action::EnterEventLoop).unwrap();
            assert!(setup < event_loop);
        }
    }
}

#[test]
fn events_out_of_phase_are_ignored() {
    let (mut launch, _) = desktop::run(BuildProfile::Release);
    assert_eq!(launch.phase(), Phase::Plugins { done: 0 });
    assert_eq!(launch.step(Event::SetupSucceeded), Action::Ignore);
    assert_eq!(launch.step(Event::LoopExited), Action::Ignore);
    assert_eq!(launch.phase(), Phase::Plugins { done: 0 });
    assert_eq!(launch.step(Event::PluginReady), Action::InitPlugin { plugin: Capability::ProcessLifecycle });
    assert_eq!(launch.phase(), Phase::Plugins { done: 1 });
}

#[test]
fn builder_keeps_registration_order() {
    let b = AppBuilder::new();
    assert!(b.plugins().is_empty());
    assert_eq!(b.hook(), None);
    let b = b
        .plugin(Capability::ProcessLifecycle)
        .setup(SetupHook::Mobile)
        .plugin(Capability::UpdateCheck)
        .plugin(Capability::ProcessLifecycle);
    assert_eq!(
        b.plugins(),
        &vec![Capability::ProcessLifecycle, Capability::UpdateCheck, Capability::ProcessLifecycle]
    );
    let (launch, first) = b.run();
    assert_eq!(first, Action::InitPlugin { plugin: Capability::ProcessLifecycle });
    assert_eq!(launch.plugins().len(), 3);
}

#[test]
fn builder_without_plugins_goes_straight_to_setup() {
    let hook = SetupHook::Desktop { profile: BuildProfile::Debug };
    let (mut launch, first) = AppBuilder::new().setup(hook).run();
    assert_eq!(first, Action::RunSetup { hook });
    assert_eq!(launch.phase(), Phase::Setup);
    assert_eq!(launch.step(Event::SetupSucceeded), Action::EnterEventLoop);
    assert_eq!(launch.phase(), Phase::Running);
}

#[test]
fn setup_hooks_on_context() {
    let mut ctx = SetupContext::new(true);
    assert_eq!(mobile::setup_mobile(&mut ctx), Ok(()));
    assert!(!ctx.devtools_open);
    assert_eq!(desktop::setup_desktop(BuildProfile::Release, &mut ctx), Ok(()));
    assert!(!ctx.devtools_open);
    assert_eq!(desktop::setup_desktop(BuildProfile::Debug, &mut ctx), Ok(()));
    assert!(ctx.devtools_open);
    let mut none = SetupContext::new(false);
    assert_eq!(
        desktop::setup_desktop(BuildProfile::Debug, &mut none),
        Err(StartupError::PreconditionViolation)
    );
}
