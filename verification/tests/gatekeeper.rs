use snaplock::{
    arming_timer_fired, begin_lockdown, finish_lockdown, force_reset, idle_tick, on_input_event,
    reset_to_idle, toggle, AppState, ArmingOutcome, Debouncer, EventDecision, IdleAction,
    InputEvent, InputKey, MonitoringFlags, MonitoringState, PostTriggerAction, ToggleOutcome,
};

fn armed_setup() -> (AppState, MonitoringFlags) {
    let mut state = AppState::new(0);
    state.set_status(MonitoringState::Preparing).unwrap();
    state.set_status(MonitoringState::Active).unwrap();
    let mut flags = MonitoringFlags::new();
    flags.set_monitoring_active(true);
    (state, flags)
}

#[test]
fn toggle_debounce_keeps_one_state_change() {
    let mut state = AppState::new(0);
    let mut flags = MonitoringFlags::new();
    let mut debouncer = Debouncer::new(0);
    let first = toggle(&mut state, &mut flags, &mut debouncer, 1000, false);
    assert_eq!(first, ToggleOutcome::BeginPreparing);
    assert_eq!(state.status(), MonitoringState::Preparing);
    // 499 ms later: inside the window, nothing moves.
    let second = toggle(&mut state, &mut flags, &mut debouncer, 1499, false);
    assert_eq!(second, ToggleOutcome::Debounced);
    assert_eq!(state.status(), MonitoringState::Preparing);
    // 500 ms later: accepted, and it cancels the preparing session.
    let third = toggle(&mut state, &mut flags, &mut debouncer, 1500, false);
    assert_eq!(third, ToggleOutcome::StoppedFromPreparing);
    assert_eq!(state.status(), MonitoringState::Idle);
}

#[test]
fn toggle_opens_settling_window() {
    let mut state = AppState::new(0);
    let mut flags = MonitoringFlags::new();
    let mut debouncer = Debouncer::new(0);
    toggle(&mut state, &mut flags, &mut debouncer, 2000, false);
    assert!(flags.shortcut_in_progress());
    assert_eq!(flags.last_shortcut_time(), 2000);
}

#[test]
fn toggle_ignored_while_triggered() {
    let (mut state, mut flags) = armed_setup();
    state.set_status(MonitoringState::Triggered).unwrap();
    let mut debouncer = Debouncer::new(0);
    let r = toggle(&mut state, &mut flags, &mut debouncer, 5000, true);
    assert_eq!(r, ToggleOutcome::Ignored);
    assert_eq!(state.status(), MonitoringState::Triggered);
}

#[test]
fn arming_cancel_prevents_activation() {
    let mut state = AppState::new(0);
    let mut flags = MonitoringFlags::new();
    let mut debouncer = Debouncer::new(0);
    toggle(&mut state, &mut flags, &mut debouncer, 1000, false);
    assert_eq!(state.status(), MonitoringState::Preparing);
    // The user toggles again before the preparation delay elapses.
    toggle(&mut state, &mut flags, &mut debouncer, 1600, false);
    assert_eq!(state.status(), MonitoringState::Idle);
    // The scheduled arming timer fires afterwards and must do nothing.
    assert_eq!(arming_timer_fired(&mut state), ArmingOutcome::Cancelled);
    assert_eq!(state.status(), MonitoringState::Idle);
}

#[test]
fn arming_timer_activates_when_still_preparing() {
    let mut state = AppState::new(0);
    state.set_status(MonitoringState::Preparing).unwrap();
    assert_eq!(arming_timer_fired(&mut state), ArmingOutcome::StartListener);
    assert_eq!(state.status(), MonitoringState::Active);
}

#[test]
fn gatekeeper_ignores_when_disarmed() {
    let mut state = AppState::new(0);
    let mut flags = MonitoringFlags::new();
    let d = on_input_event(&mut state, &mut flags, 9000, &InputEvent::Pointer, true);
    assert_eq!(d, EventDecision::Inactive);
    assert_eq!(flags.last_activity_time(), 0);
}

#[test]
fn gatekeeper_self_heals_on_dead_listener() {
    let (mut state, mut flags) = armed_setup();
    let d = on_input_event(&mut state, &mut flags, 9000, &InputEvent::Pointer, false);
    assert_eq!(d, EventDecision::SelfHealed);
    assert!(!flags.monitoring_active());
    assert_eq!(state.status(), MonitoringState::Idle);
    // The activity clock still advanced before the health check.
    assert_eq!(flags.last_activity_time(), 9000);
}

#[test]
fn gatekeeper_respects_settling_window() {
    let (mut state, mut flags) = armed_setup();
    flags.set_shortcut_in_progress(true);
    let d = on_input_event(&mut state, &mut flags, 9000, &InputEvent::Pointer, true);
    assert_eq!(d, EventDecision::Settling);
    assert_eq!(state.status(), MonitoringState::Active);
}

#[test]
fn gatekeeper_respects_ignore_window() {
    let (mut state, mut flags) = armed_setup();
    flags.set_last_shortcut_time(8800);
    let d = on_input_event(&mut state, &mut flags, 9000, &InputEvent::Pointer, true);
    assert_eq!(d, EventDecision::InIgnoreWindow);
    assert_eq!(state.status(), MonitoringState::Active);
    // At exactly the window's edge the event goes through.
    let d2 = on_input_event(&mut state, &mut flags, 9300, &InputEvent::Pointer, true);
    assert_eq!(d2, EventDecision::Triggered);
}

#[test]
fn gatekeeper_swallows_hotkey_echo() {
    let (mut state, mut flags) = armed_setup();
    state.set_shortcut_key("Ctrl+Alt+L".to_string());
    let echo = InputEvent::KeyRelease(InputKey::KeyL);
    let d = on_input_event(&mut state, &mut flags, 9000, &echo, true);
    assert_eq!(d, EventDecision::HotkeyEcho);
    assert_eq!(state.status(), MonitoringState::Active);
    assert!(flags.monitoring_active());
}

#[test]
fn gatekeeper_only_feeds_activity_in_recording_mode() {
    let (mut state, mut flags) = armed_setup();
    state.set_post_trigger_action(PostTriggerAction::ScreenRecording);
    let d = on_input_event(&mut state, &mut flags, 9000, &InputEvent::Pointer, true);
    assert_eq!(d, EventDecision::ActivityOnly);
    assert_eq!(state.status(), MonitoringState::Active);
    assert_eq!(flags.last_activity_time(), 9000);
}

#[test]
fn at_most_one_trigger_across_events() {
    let (mut state, mut flags) = armed_setup();
    let first = on_input_event(&mut state, &mut flags, 9000, &InputEvent::Pointer, true);
    assert_eq!(first, EventDecision::Triggered);
    assert_eq!(state.status(), MonitoringState::Triggered);
    assert!(!flags.monitoring_active());
    // Concurrently queued events arrive after the winner: all ignored.
    let second = on_input_event(&mut state, &mut flags, 9001, &InputEvent::Pointer, true);
    assert_eq!(second, EventDecision::Inactive);
    let third = on_input_event(&mut state, &mut flags, 9002, &InputEvent::Pointer, true);
    assert_eq!(third, EventDecision::Inactive);
    assert_eq!(state.status(), MonitoringState::Triggered);
}

#[test]
fn trigger_race_lost_when_not_active() {
    let (mut state, mut flags) = armed_setup();
    // Another actor reset the state while the flag stayed up.
    reset_to_idle(&mut state);
    let d = on_input_event(&mut state, &mut flags, 9000, &InputEvent::Pointer, true);
    assert_eq!(d, EventDecision::RaceLost);
    assert_eq!(state.status(), MonitoringState::Idle);
}

#[test]
fn lockdown_aborts_unless_triggered() {
    let state = AppState::new(0);
    assert!(begin_lockdown(&state).is_none());
}

#[test]
fn lockdown_plan_snapshots_configuration() {
    let (mut state, _flags) = armed_setup();
    state.set_camera_id(3);
    state.set_save_path(Some("/evidence".to_string()));
    state.set_status(MonitoringState::Triggered).unwrap();
    let plan = begin_lockdown(&state).unwrap();
    assert_eq!(plan.camera_id, 3);
    assert_eq!(plan.save_path, Some("/evidence".to_string()));
    assert_eq!(plan.action, PostTriggerAction::CaptureAndLock);
    assert!(!plan.start_recording);
    assert!(plan.notify);
    assert!(plan.lock_screen);
    assert!(!plan.exit_after);
}

#[test]
fn lockdown_plan_per_action() {
    let (mut state, _flags) = armed_setup();
    state.set_post_trigger_action(PostTriggerAction::ScreenRecording);
    state.set_status(MonitoringState::Triggered).unwrap();
    let plan = begin_lockdown(&state).unwrap();
    assert!(plan.start_recording);
    assert!(!plan.lock_screen);

    let (mut state2, _flags2) = armed_setup();
    state2.set_post_trigger_action(PostTriggerAction::CaptureOnly);
    state2.set_enable_notifications(false);
    state2.set_status(MonitoringState::Triggered).unwrap();
    let plan2 = begin_lockdown(&state2).unwrap();
    assert!(!plan2.start_recording);
    assert!(!plan2.lock_screen);
    assert!(!plan2.notify);
}

#[test]
fn finish_lockdown_self_resets_capture_only() {
    let (mut state, _flags) = armed_setup();
    state.set_status(MonitoringState::Triggered).unwrap();
    assert!(finish_lockdown(&mut state, PostTriggerAction::CaptureOnly));
    assert_eq!(state.status(), MonitoringState::Idle);
}

#[test]
fn finish_lockdown_holds_triggered_otherwise() {
    let (mut state, _flags) = armed_setup();
    state.set_status(MonitoringState::Triggered).unwrap();
    assert!(!finish_lockdown(&mut state, PostTriggerAction::CaptureAndLock));
    assert_eq!(state.status(), MonitoringState::Triggered);
    assert!(!finish_lockdown(&mut state, PostTriggerAction::ScreenRecording));
    assert_eq!(state.status(), MonitoringState::Triggered);
}

#[test]
fn force_reset_from_any_state() {
    let (mut state, mut flags) = armed_setup();
    state.set_status(MonitoringState::Triggered).unwrap();
    force_reset(&mut state, &mut flags);
    assert_eq!(state.status(), MonitoringState::Idle);
    assert!(!flags.monitoring_active());
}

#[test]
fn idle_supervisor_pauses_and_resumes_once() {
    let mut flags = MonitoringFlags::new();
    flags.set_monitoring_active(true);
    flags.set_last_activity_time(100_000);
    // Inactivity beyond 20 s stops a running recording.
    assert_eq!(idle_tick(&flags, 121_000, true), IdleAction::StopRecording);
    // Fresh activity within 20 s restarts it...
    flags.set_last_activity_time(130_000);
    assert_eq!(idle_tick(&flags, 131_000, false), IdleAction::StartRecording);
    // ...and exactly once: with the recording running, the next tick
    // with recent activity changes nothing.
    assert_eq!(idle_tick(&flags, 136_000, true), IdleAction::NoAction);
}

#[test]
fn idle_supervisor_boundary_and_termination() {
    let mut flags = MonitoringFlags::new();
    flags.set_monitoring_active(true);
    flags.set_last_activity_time(100_000);
    // Exactly 20 s of inactivity is not yet past the threshold.
    assert_eq!(idle_tick(&flags, 120_000, true), IdleAction::NoAction);
    assert_eq!(idle_tick(&flags, 120_001, true), IdleAction::StopRecording);
    flags.set_monitoring_active(false);
    assert_eq!(idle_tick(&flags, 120_001, true), IdleAction::Terminate);
}

#[test]
fn listener_failure_is_fatal_to_session_only() {
    let (mut state, mut flags) = armed_setup();
    snaplock::listener_failed(&mut state, &mut flags);
    assert_eq!(state.status(), MonitoringState::Idle);
    assert!(!flags.monitoring_active());
}
