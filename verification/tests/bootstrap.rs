use nova_bootstrap::builder::{Application, Builder};
use nova_bootstrap::errors::{FatalError, RuntimeStartError, SetupError};
use nova_bootstrap::plugin::{ApplicationContext, PluginDescriptor, SetupHook};
use nova_bootstrap::runtime::{Action, Event, Phase, Runtime};
use nova_bootstrap::trace::replay;

fn two_plugin_app(hook: Option<SetupHook>) -> Application {
    let mut b = Builder::new()
        .with_plugin(PluginDescriptor::new("fs".to_string()))
        .with_plugin(PluginDescriptor::new("dialog".to_string()));
    if let Some(h) = hook {
        b = b.with_setup(h);
    }
    b.build(ApplicationContext::new("Nova Editor".to_string()))
        .expect("well formed")
}

#[test]
fn deterministic_composition() {
    let hook = SetupHook::new(7);
    let app = two_plugin_app(Some(hook));
    assert_eq!(app.plugins[0].name, "fs");
    assert_eq!(app.plugins[1].name, "dialog");
    let events = vec![
        Event::Start,
        Event::ContextResolved,
        Event::PluginRegistered,
        Event::PluginRegistered,
        Event::SetupCompleted,
        Event::EventLoopStarted,
        Event::ShutdownRequested,
    ];
    let actions = replay(app, events);
    assert_eq!(
        actions,
        vec![
            Action::ResolveContext,
            Action::RegisterPlugin(0),
            Action::RegisterPlugin(1),
            Action::InvokeSetup(hook),
            Action::StartEventLoop,
            Action::ServeEventLoop,
            Action::Exit(0),
        ]
    );
}

#[test]
fn setup_invoked_once_after_all_registrations() {
    let app = two_plugin_app(Some(SetupHook::new(7)));
    let events = vec![
        Event::Start,
        Event::ContextResolved,
        Event::PluginRegistered,
        Event::PluginRegistered,
        Event::SetupCompleted,
        Event::EventLoopStarted,
        Event::ShutdownRequested,
    ];
    let actions = replay(app, events);
    let invocations: Vec<usize> = actions
        .iter()
        .enumerate()
        .filter(|(_, a)| matches!(a, Action::InvokeSetup(_)))
        .map(|(i, _)| i)
        .collect();
    assert_eq!(invocations.len(), 1);
    let last_registration = actions
        .iter()
        .rposition(|a| matches!(a, Action::RegisterPlugin(_)))
        .expect("two registrations were requested");
    assert!(invocations[0] > last_registration);
}

#[test]
fn setup_failure_aborts_before_event_loop() {
    let app = two_plugin_app(Some(SetupHook::new(7)));
    let mut rt = Runtime::new(app);
    let mut actions = Vec::new();
    actions.push(rt.step(Event::Start));
    actions.push(rt.step(Event::ContextResolved));
    actions.push(rt.step(Event::PluginRegistered));
    actions.push(rt.step(Event::PluginRegistered));
    let last = rt.step(Event::SetupFailed("disk full".to_string()));
    assert_eq!(last, Action::Exit(1));
    assert_eq!(rt.phase, Phase::FatalExit);
    assert_eq!(
        rt.fault,
        Some(FatalError::Setup(SetupError { message: "disk full".to_string() }))
    );
    assert!(!actions.iter().any(|a| matches!(a, Action::StartEventLoop)));
    assert!(!actions.iter().any(|a| matches!(a, Action::ServeEventLoop)));
}

#[test]
fn minimal_configuration_enters_event_loop() {
    let hook = SetupHook::new(1);
    let app = Builder::new()
        .with_setup(hook)
        .build(ApplicationContext::new("Nova Editor".to_string()))
        .expect("zero plugins and a hook are a valid configuration");
    let mut rt = Runtime::new(app);
    assert_eq!(rt.step(Event::Start), Action::ResolveContext);
    assert_eq!(rt.step(Event::ContextResolved), Action::InvokeSetup(hook));
    assert_eq!(rt.step(Event::SetupCompleted), Action::StartEventLoop);
    assert_eq!(rt.step(Event::EventLoopStarted), Action::ServeEventLoop);
    assert_eq!(rt.phase, Phase::EventLoopRunning);
    assert_eq!(rt.step(Event::ShutdownRequested), Action::Exit(0));
    assert_eq!(rt.phase, Phase::Terminated);
}

#[test]
fn last_write_wins_at_run_time() {
    let first = SetupHook::new(1);
    let second = SetupHook::new(2);
    let app = Builder::new()
        .with_setup(first)
        .with_setup(second)
        .build(ApplicationContext::new("Nova Editor".to_string()))
        .expect("well formed");
    let mut rt = Runtime::new(app);
    rt.step(Event::Start);
    assert_eq!(rt.step(Event::ContextResolved), Action::InvokeSetup(second));
}

#[test]
fn no_hook_goes_straight_to_event_loop() {
    let app = Builder::new()
        .with_plugin(PluginDescriptor::new("fs".to_string()))
        .build(ApplicationContext::new("Nova Editor".to_string()))
        .expect("well formed");
    let mut rt = Runtime::new(app);
    rt.step(Event::Start);
    assert_eq!(rt.step(Event::ContextResolved), Action::RegisterPlugin(0));
    assert_eq!(rt.step(Event::PluginRegistered), Action::StartEventLoop);
    assert_eq!(rt.phase, Phase::PluginsRegistered);
}

#[test]
fn context_failure_is_fatal() {
    let app = two_plugin_app(Some(SetupHook::new(7)));
    let mut rt = Runtime::new(app);
    rt.step(Event::Start);
    assert_eq!(
        rt.step(Event::ContextFailed("no packaged metadata".to_string())),
        Action::Exit(1)
    );
    assert_eq!(rt.phase, Phase::FatalExit);
    assert_eq!(
        rt.fault,
        Some(FatalError::Start(RuntimeStartError::ContextLoad(
            "no packaged metadata".to_string()
        )))
    );
}

#[test]
fn plugin_rejection_is_fatal() {
    let app = two_plugin_app(Some(SetupHook::new(7)));
    let mut rt = Runtime::new(app);
    rt.step(Event::Start);
    rt.step(Event::ContextResolved);
    assert_eq!(
        rt.step(Event::PluginRejected("fs capability denied".to_string())),
        Action::Exit(1)
    );
    assert_eq!(rt.phase, Phase::FatalExit);
    assert_eq!(
        rt.fault,
        Some(FatalError::Start(RuntimeStartError::PluginRegistration(
            "fs capability denied".to_string()
        )))
    );
    assert_eq!(rt.registered, 0);
}

#[test]
fn event_loop_start_failure_is_fatal() {
    let app = two_plugin_app(Some(SetupHook::new(7)));
    let mut rt = Runtime::new(app);
    rt.step(Event::Start);
    rt.step(Event::ContextResolved);
    rt.step(Event::PluginRegistered);
    rt.step(Event::PluginRegistered);
    rt.step(Event::SetupCompleted);
    assert_eq!(
        rt.step(Event::EventLoopFailed("no display".to_string())),
        Action::Exit(1)
    );
    assert_eq!(
        rt.fault,
        Some(FatalError::Start(RuntimeStartError::EventLoopStart(
            "no display".to_string()
        )))
    );
}

#[test]
fn event_loop_crash_is_fatal() {
    let app = two_plugin_app(Some(SetupHook::new(7)));
    let mut rt = Runtime::new(app);
    rt.step(Event::Start);
    rt.step(Event::ContextResolved);
    rt.step(Event::PluginRegistered);
    rt.step(Event::PluginRegistered);
    rt.step(Event::SetupCompleted);
    rt.step(Event::EventLoopStarted);
    assert_eq!(rt.phase, Phase::EventLoopRunning);
    assert_eq!(
        rt.step(Event::EventLoopCrashed("renderer lost".to_string())),
        Action::Exit(1)
    );
    assert_eq!(rt.phase, Phase::FatalExit);
    assert_eq!(
        rt.fault,
        Some(FatalError::EventLoop("renderer lost".to_string()))
    );
}
