//! The full session walk: idle, toggle, preparing, active with a live
//! listener, a qualifying event, the lockdown, and the external reset.

use std::time::Duration;
use snaplock::{
    arming_timer_fired, begin_lockdown, force_reset, on_input_event, status_label, toggle,
    AppState, ArmingOutcome, Debouncer, EventDecision, InputEvent, MonitoringFlags,
    MonitoringState, PostTriggerAction, ToggleOutcome,
};

#[test]
fn full_session_walk() {
    let rt = tokio::runtime::Builder::new_multi_thread()
        .worker_threads(1)
        .enable_time()
        .build()
        .unwrap();

    let mut state = AppState::new(2);
    let mut flags = MonitoringFlags::new();
    let mut debouncer = Debouncer::new(0);
    assert_eq!(state.status(), MonitoringState::Idle);

    // Toggle: the session starts preparing and announces it.
    let t = toggle(&mut state, &mut flags, &mut debouncer, 1_000, false);
    assert_eq!(t, ToggleOutcome::BeginPreparing);
    assert_eq!(state.status(), MonitoringState::Preparing);
    assert_eq!(status_label(state.status()), "preparing");

    // After the preparation delay with no further toggle, the arming
    // timer fires, the state becomes active and the listener starts.
    let a = arming_timer_fired(&mut state);
    assert_eq!(a, ArmingOutcome::StartListener);
    assert_eq!(state.status(), MonitoringState::Active);
    assert_eq!(status_label(state.status()), "active");
    let listener = rt.spawn(async {
        tokio::time::sleep(Duration::from_secs(3600)).await;
    });
    assert!(flags.start_monitoring_atomic(listener));
    assert!(flags.monitoring_active());

    // The settling window closes on its own timer.
    flags.set_shortcut_in_progress(false);

    // A qualifying event arrives well after the toggle.
    let alive = flags.is_monitoring_thread_alive();
    assert!(alive);
    let d = on_input_event(&mut state, &mut flags, 10_000, &InputEvent::Pointer, alive);
    assert_eq!(d, EventDecision::Triggered);
    assert_eq!(state.status(), MonitoringState::Triggered);
    assert!(!flags.monitoring_active());

    // The lockdown snapshots the configuration of the moment.
    let plan = begin_lockdown(&state).unwrap();
    assert_eq!(status_label(state.status()), "locking");
    assert_eq!(plan.camera_id, 2);
    assert_eq!(plan.action, PostTriggerAction::CaptureAndLock);
    assert!(plan.lock_screen);
    assert!(!plan.exit_after);

    // Capture-and-lock holds the state until the external reset.
    assert_eq!(state.status(), MonitoringState::Triggered);
    force_reset(&mut state, &mut flags);
    assert_eq!(state.status(), MonitoringState::Idle);
    assert_eq!(status_label(state.status()), "idle");
    assert!(!flags.monitoring_active());
    assert!(!flags.is_monitoring_thread_alive());
}
