//! The session state machine: the single source of truth for the
//! monitoring lifecycle, mutated only through `transition_to`.

use vstd::prelude::*;
use crate::config::{CaptureMode, PostTriggerAction};

verus! {

/// Represents the monitoring status of the application.
#[derive(Debug, Clone, Copy, PartialEq, Eq, Structural)]
pub enum MonitoringState {
    /// The application is idle and not monitoring for input.
    Idle,
    /// The application is preparing to start monitoring, with a short delay.
    Preparing,
    /// The application is actively monitoring for input.
    Active,
    /// The application has detected an event and is processing the action.
    Triggered,
}

/// The fixed transition table. Only these pairs succeed; every state may
/// fall back to `Idle` (the external force-reset escape hatch).
pub open spec fn transition_allowed(current: MonitoringState, next: MonitoringState) -> bool {
    ||| (current == MonitoringState::Idle && next == MonitoringState::Preparing)
    ||| (current == MonitoringState::Preparing && next == MonitoringState::Active)
    ||| (current == MonitoringState::Active && next == MonitoringState::Triggered)
    ||| next == MonitoringState::Idle
}

impl MonitoringState {
    /// Transitions to a new state, enforcing valid state transitions.
    pub fn transition_to(&self, next_state: MonitoringState) -> (r: Result<
        MonitoringState,
        &'static str,
    >)
        ensures
            r is Ok <==> transition_allowed(*self, next_state),
            r is Ok ==> r->Ok_0 == next_state,
    {
        match (self, next_state) {
            (MonitoringState::Idle, MonitoringState::Preparing) => Ok(next_state),
            (MonitoringState::Preparing, MonitoringState::Active) => Ok(next_state),
            (MonitoringState::Preparing, MonitoringState::Idle) => Ok(next_state),
            (MonitoringState::Active, MonitoringState::Triggered) => Ok(next_state),
            (MonitoringState::Active, MonitoringState::Idle) => Ok(next_state),
            (MonitoringState::Triggered, MonitoringState::Idle) => Ok(next_state),
            (_, MonitoringState::Idle) => Ok(next_state),
            _ => Err("Invalid state transition"),
        }
    }
}

/// Holds the shared state of the application: the current session state
/// and the trigger configuration the lockdown sequence snapshots.
pub struct AppState {
    /// The current monitoring status.
    pub status: MonitoringState,
    /// The id of the camera used for capturing photos.
    pub camera_id: u32,
    /// The custom path to save captures under, if any.
    pub save_path: Option<String>,
    /// The configured hotkey combination, e.g. `"Alt+L"`.
    pub shortcut_key: String,
    /// Temporarily disables the global hotkey (e.g. while rebinding it).
    pub shortcuts_disabled: bool,
    /// Whether debug logs are shown in the UI.
    pub show_debug_logs: bool,
    /// Whether logs are also written to a file.
    pub save_logs_to_file: bool,
    /// Whether the process exits once the screen is locked.
    pub exit_on_lock: bool,
    /// Whether the dark UI theme is on.
    pub dark_mode: bool,
    /// Whether the screen-lock step of the lockdown runs at all.
    pub enable_screen_lock: bool,
    /// Whether system notifications are shown.
    pub enable_notifications: bool,
    /// The configured response to a trigger.
    pub post_trigger_action: PostTriggerAction,
    /// Seconds to wait before a capture.
    pub capture_delay_seconds: u32,
    /// The capture style used by the camera collaborator.
    pub capture_mode: CaptureMode,
}

impl AppState {
    /// A fresh state: idle, with the given camera and every setting at
    /// its default.
    pub fn new(camera_id: u32) -> (r: Self)
        ensures
            r.status == MonitoringState::Idle,
            r.camera_id == camera_id,
            r.save_path is None,
            r.shortcut_key@ == "Alt+L"@,
            !r.shortcuts_disabled,
            !r.show_debug_logs,
            !r.save_logs_to_file,
            !r.exit_on_lock,
            !r.dark_mode,
            r.enable_screen_lock,
            r.enable_notifications,
            r.post_trigger_action == PostTriggerAction::CaptureAndLock,
            r.capture_delay_seconds == 0,
            r.capture_mode == CaptureMode::Video,
    {
        AppState {
            status: MonitoringState::Idle,
            camera_id,
            save_path: None,
            shortcut_key: String::from_str("Alt+L"),
            shortcuts_disabled: false,
            show_debug_logs: false,
            save_logs_to_file: false,
            exit_on_lock: false,
            dark_mode: false,
            enable_screen_lock: true,
            enable_notifications: true,
            post_trigger_action: PostTriggerAction::CaptureAndLock,
            capture_delay_seconds: 0,
            capture_mode: CaptureMode::Video,
        }
    }

    pub fn status(&self) -> (r: MonitoringState)
        ensures
            r == self.status,
    {
        self.status
    }

    /// Moves the session state along the transition table; on an invalid
    /// pair the state is left untouched and the error says so.
    pub fn set_status(&mut self, new_status: MonitoringState) -> (r: Result<(), &'static str>)
        ensures
            r is Ok <==> transition_allowed(old(self).status, new_status),
            r is Ok ==> *final(self) == (AppState { status: new_status, ..*old(self) }),
            r is Err ==> *final(self) == *old(self),
    {
        match self.status.transition_to(new_status) {
            Ok(state) => {
                self.status = state;
                Ok(())
            },
            Err(e) => Err(e),
        }
    }

    pub fn camera_id(&self) -> (r: u32)
        ensures
            r == self.camera_id,
    {
        self.camera_id
    }

    pub fn set_camera_id(&mut self, id: u32)
        ensures
            *final(self) == (AppState { camera_id: id, ..*old(self) }),
    {
        self.camera_id = id;
    }

    pub fn save_path(&self) -> (r: Option<String>)
        ensures
            r == self.save_path,
    {
        match &self.save_path {
            Some(p) => Some(p.clone()),
            None => None,
        }
    }

    /// The directory captures land in: the configured path when one is
    /// set, the platform default otherwise.
    pub fn get_effective_save_path(&self) -> (r: String)
        ensures
            self.save_path is Some ==> r == self.save_path.unwrap(),
    {
        match &self.save_path {
            Some(path) => path.clone(),
            None => crate::config::get_default_save_path(),
        }
    }

    pub fn set_save_path(&mut self, path: Option<String>)
        ensures
            *final(self) == (AppState { save_path: path, ..*old(self) }),
    {
        self.save_path = path;
    }

    pub fn shortcut_key(&self) -> (r: String)
        ensures
            r == self.shortcut_key,
    {
        self.shortcut_key.clone()
    }

    pub fn set_shortcut_key(&mut self, key: String)
        ensures
            *final(self) == (AppState { shortcut_key: key, ..*old(self) }),
    {
        self.shortcut_key = key;
    }

    pub fn shortcuts_disabled(&self) -> (r: bool)
        ensures
            r == self.shortcuts_disabled,
    {
        self.shortcuts_disabled
    }

    pub fn set_shortcuts_disabled(&mut self, disabled: bool)
        ensures
            *final(self) == (AppState { shortcuts_disabled: disabled, ..*old(self) }),
    {
        self.shortcuts_disabled = disabled;
    }

    pub fn show_debug_logs(&self) -> (r: bool)
        ensures
            r == self.show_debug_logs,
    {
        self.show_debug_logs
    }

    pub fn set_show_debug_logs(&mut self, show: bool)
        ensures
            *final(self) == (AppState { show_debug_logs: show, ..*old(self) }),
    {
        self.show_debug_logs = show;
    }

    pub fn save_logs_to_file(&self) -> (r: bool)
        ensures
            r == self.save_logs_to_file,
    {
        self.save_logs_to_file
    }

    pub fn set_save_logs_to_file(&mut self, save: bool)
        ensures
            *final(self) == (AppState { save_logs_to_file: save, ..*old(self) }),
    {
        self.save_logs_to_file = save;
    }

    pub fn exit_on_lock(&self) -> (r: bool)
        ensures
            r == self.exit_on_lock,
    {
        self.exit_on_lock
    }

    pub fn set_exit_on_lock(&mut self, enabled: bool)
        ensures
            *final(self) == (AppState { exit_on_lock: enabled, ..*old(self) }),
    {
        self.exit_on_lock = enabled;
    }

    pub fn dark_mode(&self) -> (r: bool)
        ensures
            r == self.dark_mode,
    {
        self.dark_mode
    }

    pub fn set_dark_mode(&mut self, enabled: bool)
        ensures
            *final(self) == (AppState { dark_mode: enabled, ..*old(self) }),
    {
        self.dark_mode = enabled;
    }

    pub fn enable_screen_lock(&self) -> (r: bool)
        ensures
            r == self.enable_screen_lock,
    {
        self.enable_screen_lock
    }

    pub fn set_enable_screen_lock(&mut self, enabled: bool)
        ensures
            *final(self) == (AppState { enable_screen_lock: enabled, ..*old(self) }),
    {
        self.enable_screen_lock = enabled;
    }

    pub fn enable_notifications(&self) -> (r: bool)
        ensures
            r == self.enable_notifications,
    {
        self.enable_notifications
    }

    pub fn set_enable_notifications(&mut self, enabled: bool)
        ensures
            *final(self) == (AppState { enable_notifications: enabled, ..*old(self) }),
    {
        self.enable_notifications = enabled;
    }

    pub fn post_trigger_action(&self) -> (r: PostTriggerAction)
        ensures
            r == self.post_trigger_action,
    {
        self.post_trigger_action
    }

    pub fn set_post_trigger_action(&mut self, action: PostTriggerAction)
        ensures
            *final(self) == (AppState { post_trigger_action: action, ..*old(self) }),
    {
        self.post_trigger_action = action;
    }

    pub fn capture_delay_seconds(&self) -> (r: u32)
        ensures
            r == self.capture_delay_seconds,
    {
        self.capture_delay_seconds
    }

    pub fn set_capture_delay_seconds(&mut self, seconds: u32)
        ensures
            *final(self) == (AppState { capture_delay_seconds: seconds, ..*old(self) }),
    {
        self.capture_delay_seconds = seconds;
    }

    pub fn capture_mode(&self) -> (r: CaptureMode)
        ensures
            r == self.capture_mode,
    {
        self.capture_mode
    }

    pub fn set_capture_mode(&mut self, mode: CaptureMode)
        ensures
            *final(self) == (AppState { capture_mode: mode, ..*old(self) }),
    {
        self.capture_mode = mode;
    }
}

} // verus!
