use bridge_core::actor::{ActorAction, BrowserActor, BrowserCommand};
use bridge_core::dispatch::{
    DispatchAction, DispatchEvent, DispatchMachine, DispatchPhase, MAX_RETRIES,
};
use bridge_core::state::StateActor;

/// Drives one dispatch with a driver that always fails and counts how often
/// the driver would have been invoked.
fn run_always_failing_dispatch(state: &mut StateActor, agent: &str) -> (u64, bool) {
    let mut m = DispatchMachine::start();
    let mut invocations: u64 = 0;
    let mut action = m.step(DispatchEvent::BusyAcquired(state.try_set_busy(agent)));
    loop {
        match action {
            DispatchAction::RunHealthCheck => {
                action = m.step(DispatchEvent::Healthy(true));
            }
            DispatchAction::AcquireSession | DispatchAction::PurgeThenAcquire => {
                action = m.step(DispatchEvent::SessionReady(true));
            }
            DispatchAction::InvokeDriver | DispatchAction::RetryAfterDelay => {
                invocations += 1;
                // the driver always fails
                action = m.step(DispatchEvent::DriverFinished(false));
            }
            DispatchAction::ReportFailureAndRelease => {
                state.set_idle(agent);
                return (invocations, matches!(m.phase, DispatchPhase::Failed));
            }
            DispatchAction::ReportSuccessAndRelease => {
                state.set_idle(agent);
                return (invocations, false);
            }
            DispatchAction::Stop => {
                return (invocations, false);
            }
        }
    }
}

#[test]
fn always_failing_driver_is_invoked_exactly_max_retries_times() {
    let mut state = StateActor::new(Vec::new());
    let (invocations, failed) = run_always_failing_dispatch(&mut state, "ChatGPT");
    assert_eq!(invocations, MAX_RETRIES);
    assert_eq!(invocations, 2);
    assert!(failed);
    // the busy flag is released on the failure path
    assert!(!state.is_busy("ChatGPT"));
}

#[test]
fn two_rapid_dispatches_invoke_the_driver_once() {
    let mut state = StateActor::new(Vec::new());

    // first dispatch passes its entry guard and reaches the driver
    let mut first = DispatchMachine::start();
    let a1 = first.step(DispatchEvent::BusyAcquired(state.try_set_busy("ChatGPT")));
    assert_eq!(a1, DispatchAction::RunHealthCheck);
    let a1 = first.step(DispatchEvent::Healthy(true));
    assert_eq!(a1, DispatchAction::AcquireSession);
    let a1 = first.step(DispatchEvent::SessionReady(true));
    assert_eq!(a1, DispatchAction::InvokeDriver);

    // second dispatch for the same agent, while the first is in flight
    let mut second = DispatchMachine::start();
    let a2 = second.step(DispatchEvent::BusyAcquired(state.try_set_busy("ChatGPT")));
    assert_eq!(a2, DispatchAction::Stop);
    assert!(matches!(second.phase, DispatchPhase::Dropped));
    assert_eq!(second.invocations, 0);

    // exactly one driver invocation happened
    assert_eq!(first.invocations, 1);

    // first dispatch completes and releases the flag
    let a1 = first.step(DispatchEvent::DriverFinished(true));
    assert_eq!(a1, DispatchAction::ReportSuccessAndRelease);
    state.set_idle("ChatGPT");
    assert!(!state.is_busy("ChatGPT"));
}

#[test]
fn failed_health_check_purges_then_proceeds() {
    let mut m = DispatchMachine::start();
    let a = m.step(DispatchEvent::BusyAcquired(true));
    assert_eq!(a, DispatchAction::RunHealthCheck);
    let a = m.step(DispatchEvent::Healthy(false));
    // recovery is attempted inline: purge, then acquire fresh
    assert_eq!(a, DispatchAction::PurgeThenAcquire);
    let a = m.step(DispatchEvent::SessionReady(true));
    assert_eq!(a, DispatchAction::InvokeDriver);
    let a = m.step(DispatchEvent::DriverFinished(true));
    assert_eq!(a, DispatchAction::ReportSuccessAndRelease);
    assert!(matches!(m.phase, DispatchPhase::Succeeded));
    assert_eq!(m.invocations, 1);
}

#[test]
fn session_construction_failure_is_terminal() {
    let mut m = DispatchMachine::start();
    m.step(DispatchEvent::BusyAcquired(true));
    m.step(DispatchEvent::Healthy(true));
    let a = m.step(DispatchEvent::SessionReady(false));
    assert_eq!(a, DispatchAction::ReportFailureAndRelease);
    assert!(matches!(m.phase, DispatchPhase::Failed));
    assert_eq!(m.invocations, 0);
}

#[test]
fn terminal_machine_ignores_further_events() {
    let mut m = DispatchMachine::start();
    m.step(DispatchEvent::BusyAcquired(false));
    assert!(matches!(m.phase, DispatchPhase::Dropped));
    let a = m.step(DispatchEvent::DriverFinished(true));
    assert_eq!(a, DispatchAction::Stop);
    assert!(matches!(m.phase, DispatchPhase::Dropped));
}

#[test]
fn actor_serves_pages_and_counts_tasks() {
    let mut actor = BrowserActor::new();
    let a = actor.step(BrowserCommand::GetPage { url: "https://chatgpt.com/".to_string() });
    match a {
        ActorAction::OpenPage { url } => assert_eq!(url, "https://chatgpt.com/"),
        other => panic!("expected a page action, got {:?}", other),
    }
    let a = actor.step(BrowserCommand::Ping);
    assert!(matches!(a, ActorAction::Probe));
}

#[test]
fn actor_close_is_idempotent_safe() {
    let mut actor = BrowserActor::new();
    let a = actor.step(BrowserCommand::Close);
    assert!(matches!(a, ActorAction::Shutdown));
    // a command after shutdown is a no-op, not a crash
    let a = actor.step(BrowserCommand::Close);
    assert!(matches!(a, ActorAction::Ignore));
    let a = actor.step(BrowserCommand::Ping);
    assert!(matches!(a, ActorAction::Ignore));
}
