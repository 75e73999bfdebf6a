use node_health::env::Network;
use node_health::readiness::CheckPolicy;
use node_health::readiness::Verdict;
use node_health::scheduler::Phase;
use node_health::scheduler::Scheduler;
use node_health::scheduler::StartupStep;
use node_health::scheduler::MAX_STARTUP_WAIT_SECS;
use node_health::scheduler::POLL_INTERVAL_SECS;
use node_health::server::livez_status;
use node_health::server::readyz_status;
use node_health::server::AppState;
use node_health::server::ReadinessState;

#[test]
fn startup_times_out_when_pings_keep_failing() {
    // Both pings fail past the deadline: the process must die with the
    // startup timeout rather than serve with unreachable upstreams.
    let mut scheduler = Scheduler::new(CheckPolicy::standard(Network::Mainnet));
    let mut elapsed: u64 = 0;
    let mut last = StartupStep::KeepWaiting;
    while last == StartupStep::KeepWaiting {
        last = scheduler.on_startup_tick(MAX_STARTUP_WAIT_SECS, elapsed, false, false);
        elapsed += POLL_INTERVAL_SECS;
    }
    assert_eq!(last, StartupStep::TimedOut);
    assert_eq!(scheduler.phase, Phase::Startup);
}

#[test]
fn startup_advances_only_when_both_answer() {
    let mut scheduler = Scheduler::new(CheckPolicy::standard(Network::Mainnet));
    assert_eq!(
        scheduler.on_startup_tick(MAX_STARTUP_WAIT_SECS, 0, true, false),
        StartupStep::KeepWaiting
    );
    assert_eq!(
        scheduler.on_startup_tick(MAX_STARTUP_WAIT_SECS, 4, false, true),
        StartupStep::KeepWaiting
    );
    assert_eq!(scheduler.phase, Phase::Startup);
    assert_eq!(
        scheduler.on_startup_tick(MAX_STARTUP_WAIT_SECS, 8, true, true),
        StartupStep::BothUp
    );
    assert_eq!(scheduler.phase, Phase::Steady);
}

#[test]
fn startup_deadline_boundary() {
    // A failing ping exactly at the deadline still waits; one past it
    // times out.
    let mut scheduler = Scheduler::new(CheckPolicy::standard(Network::Mainnet));
    assert_eq!(
        scheduler.on_startup_tick(900, 900, false, false),
        StartupStep::KeepWaiting
    );
    assert_eq!(
        scheduler.on_startup_tick(900, 901, false, false),
        StartupStep::TimedOut
    );
}

#[test]
fn ping_success_does_not_make_ready() {
    // Liveness gates only the phase change; readiness stays where the
    // evaluator left it.
    let state = ReadinessState::new();
    let mut scheduler = Scheduler::new(CheckPolicy::standard(Network::Mainnet));
    let step = scheduler.on_startup_tick(MAX_STARTUP_WAIT_SECS, 0, true, true);
    assert_eq!(step, StartupStep::BothUp);
    assert!(!state.is_ready());
}

#[test]
fn readiness_state_reflects_published_verdicts() {
    let state = ReadinessState::new();
    assert!(!state.is_ready());
    state.publish(&Verdict::Ready);
    assert!(state.is_ready());
    state.set_ready(false);
    assert!(!state.is_ready());
}

#[test]
fn app_state_shares_one_flag() {
    let app = AppState::new();
    let handler_view = app.clone();
    assert!(!handler_view.is_ready.is_ready());
    app.is_ready.set_ready(true);
    assert!(handler_view.is_ready.is_ready());
}

#[test]
fn endpoint_status_codes() {
    assert_eq!(livez_status(), 200);
    assert_eq!(readyz_status(true), 200);
    assert_eq!(readyz_status(false), 503);
}
