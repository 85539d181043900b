//! Monitoring lifecycle controller for an input-watching security utility.
//!
//! While armed, the controller interprets raw input events and, on a
//! qualifying event, performs a configurable response (photo capture,
//! optional screen recording, screen lock, notification, process exit).
//! This crate holds the verified core: the session state machine, the
//! debounced toggle handler, the input gatekeeper, the arming timer and
//! idle-supervisor decisions, and the lockdown plan. The surrounding
//! shell owns the runtime, timers and device I/O and drives the
//! controller through these functions.

mod camera;
mod config;
mod constants;
mod flags;
mod hotkey;
mod idle;
mod laws;
mod lockdown;
mod logbuf;
mod monitor;
mod session;
mod state;
mod strutil;

pub use camera::{
    camera_list_from_enumeration, capture_filename, find_camera, parse_u32_digits,
    resolve_camera_id, screen_recording_filename, video_filename, CameraError, CameraIndexKind,
    CameraListItem,
};
pub use config::{
    clone_opt_string, default_capture_delay_seconds, default_enable_notifications,
    get_default_save_path, AppConfig, CaptureMode, PostTriggerAction,
};
pub use constants::{
    EVENT_IGNORE_WINDOW_MS, IDLE_THRESHOLD_MS, IDLE_TICK_MS, LOCK_SETTLE_DELAY_MS,
    PREPARATION_DELAY_MS, SHORTCUT_DEBOUNCE_MS, SHORTCUT_FLAG_CLEAR_DELAY_MS,
};
pub use flags::MonitoringFlags;
pub use hotkey::{is_valid_shortcut, should_ignore_event, should_ignore_key, InputEvent, InputKey};
pub use idle::{idle_tick, IdleAction};
pub use laws::{
    lemma_arming_cancel, lemma_at_most_one_trigger, lemma_debounce, lemma_disarmed_never_triggers,
    lemma_hotkey_self_immunity, lemma_idle_supervisor, lemma_self_healing,
};
pub use lockdown::{begin_lockdown, finish_lockdown, LockdownPlan};
pub use logbuf::{log_enabled, LogBuffer, LogEntry, LogLevel};
pub use monitor::{
    apply_shortcut_change, arming_timer_fired, elapsed_ms, force_reset, listener_failed,
    on_input_event, reset_to_idle, status_label, toggle, ArmingOutcome, Debouncer, EventDecision,
    GateInput, GateModel, ToggleOutcome,
};
pub use session::{LockDetector, SessionEvent, LOCK_DETECTION_THRESHOLD};
pub use state::{AppState, MonitoringState};
pub use strutil::{split_parts, str_contains, str_eq_str, str_starts_with};
