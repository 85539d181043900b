use snaplock::{
    apply_shortcut_change, status_label, AppConfig, AppState, CaptureMode, MonitoringState,
    PostTriggerAction,
};

fn all_states() -> [MonitoringState; 4] {
    [
        MonitoringState::Idle,
        MonitoringState::Preparing,
        MonitoringState::Active,
        MonitoringState::Triggered,
    ]
}

#[test]
fn transition_table_exact() {
    for from in all_states() {
        for to in all_states() {
            let allowed = matches!(
                (from, to),
                (MonitoringState::Idle, MonitoringState::Preparing)
                    | (MonitoringState::Preparing, MonitoringState::Active)
                    | (MonitoringState::Active, MonitoringState::Triggered)
                    | (_, MonitoringState::Idle)
            );
            let r = from.transition_to(to);
            assert_eq!(r.is_ok(), allowed, "transition {:?} -> {:?}", from, to);
            if let Ok(next) = r {
                assert_eq!(next, to);
            }
        }
    }
}

#[test]
fn transition_error_message() {
    let r = MonitoringState::Idle.transition_to(MonitoringState::Triggered);
    assert_eq!(r, Err("Invalid state transition"));
}

#[test]
fn any_state_resets_to_idle() {
    for from in all_states() {
        assert_eq!(from.transition_to(MonitoringState::Idle), Ok(MonitoringState::Idle));
    }
}

#[test]
fn new_state_defaults() {
    let state = AppState::new(7);
    assert_eq!(state.status(), MonitoringState::Idle);
    assert_eq!(state.camera_id(), 7);
    assert_eq!(state.save_path(), None);
    assert_eq!(state.shortcut_key(), "Alt+L");
    assert!(!state.shortcuts_disabled());
    assert!(!state.show_debug_logs());
    assert!(!state.save_logs_to_file());
    assert!(!state.exit_on_lock());
    assert!(!state.dark_mode());
    assert!(state.enable_screen_lock());
    assert!(state.enable_notifications());
    assert_eq!(state.post_trigger_action(), PostTriggerAction::CaptureAndLock);
    assert_eq!(state.capture_delay_seconds(), 0);
    assert_eq!(state.capture_mode(), CaptureMode::Video);
}

#[test]
fn set_status_follows_table() {
    let mut state = AppState::new(0);
    assert!(state.set_status(MonitoringState::Triggered).is_err());
    assert_eq!(state.status(), MonitoringState::Idle);
    assert!(state.set_status(MonitoringState::Preparing).is_ok());
    assert_eq!(state.status(), MonitoringState::Preparing);
    assert!(state.set_status(MonitoringState::Active).is_ok());
    assert!(state.set_status(MonitoringState::Preparing).is_err());
    assert_eq!(state.status(), MonitoringState::Active);
}

#[test]
fn setters_and_getters_round_trip() {
    let mut state = AppState::new(0);
    state.set_camera_id(4);
    assert_eq!(state.camera_id(), 4);
    state.set_save_path(Some("/tmp/captures".to_string()));
    assert_eq!(state.save_path(), Some("/tmp/captures".to_string()));
    assert_eq!(state.get_effective_save_path(), "/tmp/captures");
    state.set_shortcut_key("Ctrl+Alt+L".to_string());
    assert_eq!(state.shortcut_key(), "Ctrl+Alt+L");
    state.set_shortcuts_disabled(true);
    assert!(state.shortcuts_disabled());
    state.set_show_debug_logs(true);
    assert!(state.show_debug_logs());
    state.set_save_logs_to_file(true);
    assert!(state.save_logs_to_file());
    state.set_exit_on_lock(true);
    assert!(state.exit_on_lock());
    state.set_dark_mode(true);
    assert!(state.dark_mode());
    state.set_enable_screen_lock(false);
    assert!(!state.enable_screen_lock());
    state.set_enable_notifications(false);
    assert!(!state.enable_notifications());
    state.set_post_trigger_action(PostTriggerAction::ScreenRecording);
    assert_eq!(state.post_trigger_action(), PostTriggerAction::ScreenRecording);
    state.set_capture_delay_seconds(9);
    assert_eq!(state.capture_delay_seconds(), 9);
    state.set_capture_mode(CaptureMode::Video);
    assert_eq!(state.capture_mode(), CaptureMode::Video);
}

#[test]
fn config_default_values() {
    let config = AppConfig::default();
    assert_eq!(config.shortcut_key, "Alt+L");
    assert_eq!(config.save_path, None);
    assert!(!config.show_debug_logs);
    assert!(!config.save_logs_to_file);
    assert!(!config.dark_mode);
    assert!(!config.exit_on_lock);
    assert_eq!(config.post_trigger_action, PostTriggerAction::CaptureAndLock);
    assert!(config.enable_notifications);
    assert_eq!(config.default_camera_id, None);
    assert_eq!(config.capture_delay_seconds, 0);
    assert_eq!(config.capture_mode, CaptureMode::Video);
}

#[test]
fn config_update_from_state_snapshots_everything() {
    let mut state = AppState::new(2);
    state.set_shortcut_key("Ctrl+Shift+D".to_string());
    state.set_save_path(Some("/data".to_string()));
    state.set_exit_on_lock(true);
    state.set_post_trigger_action(PostTriggerAction::CaptureOnly);
    let mut config = AppConfig::default();
    config.update_from_state(&state);
    assert_eq!(config.shortcut_key, "Ctrl+Shift+D");
    assert_eq!(config.save_path, Some("/data".to_string()));
    assert!(config.exit_on_lock);
    assert_eq!(config.post_trigger_action, PostTriggerAction::CaptureOnly);
    assert_eq!(config.default_camera_id, Some(2));
}

#[test]
fn config_apply_derives_screen_lock_switch() {
    let mut config = AppConfig::default();
    config.post_trigger_action = PostTriggerAction::CaptureAndLock;
    let mut state = AppState::new(0);
    config.apply_to_state(&mut state);
    assert!(state.enable_screen_lock());

    config.post_trigger_action = PostTriggerAction::CaptureOnly;
    config.apply_to_state(&mut state);
    assert!(!state.enable_screen_lock());
    assert_eq!(state.post_trigger_action(), PostTriggerAction::CaptureOnly);

    config.post_trigger_action = PostTriggerAction::ScreenRecording;
    config.apply_to_state(&mut state);
    assert!(!state.enable_screen_lock());
}

#[test]
fn config_apply_keeps_camera_when_unset() {
    let mut state = AppState::new(6);
    let mut config = AppConfig::default();
    config.default_camera_id = None;
    config.apply_to_state(&mut state);
    assert_eq!(state.camera_id(), 6);
    config.default_camera_id = Some(1);
    config.apply_to_state(&mut state);
    assert_eq!(state.camera_id(), 1);
}

#[test]
fn status_labels() {
    assert_eq!(status_label(MonitoringState::Idle), "idle");
    assert_eq!(status_label(MonitoringState::Preparing), "preparing");
    assert_eq!(status_label(MonitoringState::Active), "active");
    assert_eq!(status_label(MonitoringState::Triggered), "locking");
}

#[test]
fn shortcut_change_rejects_bad_format() {
    let mut state = AppState::new(0);
    assert_eq!(
        apply_shortcut_change(&mut state, "justakey".to_string()),
        Err("invalid shortcut format")
    );
    assert_eq!(state.shortcut_key(), "Alt+L");
    assert_eq!(apply_shortcut_change(&mut state, "Ctrl+Alt+L".to_string()), Ok(()));
    assert_eq!(state.shortcut_key(), "Ctrl+Alt+L");
}
