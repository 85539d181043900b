//! The trigger configuration: what happens after a qualifying input
//! event, and the persisted user settings.

use vstd::prelude::*;
use crate::state::AppState;

verus! {

/// The configured response to a trigger.
#[derive(Debug, Clone, Copy, PartialEq, Eq, Structural)]
pub enum PostTriggerAction {
    /// Capture a photo, then lock the screen.
    CaptureAndLock,
    /// Capture a photo only; the session resets itself afterwards.
    CaptureOnly,
    /// Record the screen while activity continues; no lock.
    ScreenRecording,
}

impl Default for PostTriggerAction {
    fn default() -> (r: Self)
        ensures
            r == PostTriggerAction::CaptureAndLock,
    {
        PostTriggerAction::CaptureAndLock
    }
}

/// The capture style used by the camera collaborator.
#[derive(Debug, Clone, Copy, PartialEq, Eq, Structural)]
pub enum CaptureMode {
    /// Record a short video clip.
    Video,
}

impl Default for CaptureMode {
    fn default() -> (r: Self)
        ensures
            r == CaptureMode::Video,
    {
        CaptureMode::Video
    }
}

/// Default for the notifications switch.
pub fn default_enable_notifications() -> (r: bool)
    ensures
        r,
{
    true
}

/// Default for the capture delay, in seconds.
pub fn default_capture_delay_seconds() -> (r: u32)
    ensures
        r == 0,
{
    0
}

/// The persisted user settings.
#[derive(Debug, Clone)]
pub struct AppConfig {
    pub shortcut_key: String,
    pub save_path: Option<String>,
    pub show_debug_logs: bool,
    pub save_logs_to_file: bool,
    pub dark_mode: bool,
    pub exit_on_lock: bool,
    pub post_trigger_action: PostTriggerAction,
    pub enable_notifications: bool,
    pub default_camera_id: Option<u32>,
    pub capture_delay_seconds: u32,
    pub capture_mode: CaptureMode,
}

impl Default for AppConfig {
    fn default() -> (r: Self)
        ensures
            r.shortcut_key@ == "Alt+L"@,
            r.save_path is None,
            !r.show_debug_logs,
            !r.save_logs_to_file,
            !r.dark_mode,
            !r.exit_on_lock,
            r.post_trigger_action == PostTriggerAction::CaptureAndLock,
            r.enable_notifications,
            r.default_camera_id is None,
            r.capture_delay_seconds == 0,
            r.capture_mode == CaptureMode::Video,
    {
        AppConfig {
            shortcut_key: String::from_str("Alt+L"),
            save_path: None,
            show_debug_logs: false,
            save_logs_to_file: false,
            dark_mode: false,
            exit_on_lock: false,
            post_trigger_action: PostTriggerAction::CaptureAndLock,
            enable_notifications: true,
            default_camera_id: None,
            capture_delay_seconds: 0,
            capture_mode: CaptureMode::Video,
        }
    }
}

impl AppConfig {
    /// Refreshes every persisted setting from the live application state.
    pub fn update_from_state(&mut self, state: &AppState)
        ensures
            *final(self) == (AppConfig {
                shortcut_key: state.shortcut_key,
                save_path: state.save_path,
                show_debug_logs: state.show_debug_logs,
                save_logs_to_file: state.save_logs_to_file,
                exit_on_lock: state.exit_on_lock,
                dark_mode: state.dark_mode,
                post_trigger_action: state.post_trigger_action,
                enable_notifications: state.enable_notifications,
                default_camera_id: Some(state.camera_id),
                capture_delay_seconds: state.capture_delay_seconds,
                capture_mode: state.capture_mode,
            }),
    {
        self.shortcut_key = state.shortcut_key();
        self.save_path = state.save_path();
        self.show_debug_logs = state.show_debug_logs();
        self.save_logs_to_file = state.save_logs_to_file();
        self.exit_on_lock = state.exit_on_lock();
        self.dark_mode = state.dark_mode();
        self.post_trigger_action = state.post_trigger_action();
        self.enable_notifications = state.enable_notifications();
        self.default_camera_id = Some(state.camera_id());
        self.capture_delay_seconds = state.capture_delay_seconds();
        self.capture_mode = state.capture_mode();
    }

    /// Applies every persisted setting to the live application state.
    /// The screen-lock switch is derived from the configured action, and
    /// the camera id is only overwritten when the configuration holds one.
    pub fn apply_to_state(&self, state: &mut AppState)
        ensures
            *final(state) == (AppState {
                shortcut_key: self.shortcut_key,
                save_path: self.save_path,
                show_debug_logs: self.show_debug_logs,
                save_logs_to_file: self.save_logs_to_file,
                exit_on_lock: self.exit_on_lock,
                dark_mode: self.dark_mode,
                enable_screen_lock: self.post_trigger_action
                    == PostTriggerAction::CaptureAndLock,
                enable_notifications: self.enable_notifications,
                camera_id: if self.default_camera_id is Some {
                    self.default_camera_id.unwrap()
                } else {
                    old(state).camera_id
                },
                capture_delay_seconds: self.capture_delay_seconds,
                capture_mode: self.capture_mode,
                post_trigger_action: self.post_trigger_action,
                ..*old(state)
            }),
    {
        state.set_shortcut_key(self.shortcut_key.clone());
        state.set_save_path(clone_opt_string(&self.save_path));
        state.set_show_debug_logs(self.show_debug_logs);
        state.set_save_logs_to_file(self.save_logs_to_file);
        state.set_exit_on_lock(self.exit_on_lock);
        state.set_dark_mode(self.dark_mode);
        match self.post_trigger_action {
            PostTriggerAction::CaptureAndLock => state.set_enable_screen_lock(true),
            PostTriggerAction::CaptureOnly => state.set_enable_screen_lock(false),
            PostTriggerAction::ScreenRecording => state.set_enable_screen_lock(false),
        }
        state.set_enable_notifications(self.enable_notifications);
        if let Some(camera_id) = self.default_camera_id {
            state.set_camera_id(camera_id);
        }
        state.set_capture_delay_seconds(self.capture_delay_seconds);
        state.set_capture_mode(self.capture_mode);
        state.set_post_trigger_action(self.post_trigger_action);
    }
}

/// A field-exact copy of an optional path.
pub fn clone_opt_string(s: &Option<String>) -> (r: Option<String>)
    ensures
        r == *s,
{
    match s {
        Some(p) => Some(p.clone()),
        None => None,
    }
}

/// Relies on dirs::desktop_dir for the platform's desktop directory;
/// the result depends on the environment, so nothing is promised of it.
#[verifier::external_body]
fn desktop_dir_string() -> Option<String> {
    dirs::desktop_dir().map(|p| p.to_string_lossy().to_string())
}

/// The directory captures land in when no explicit path is configured:
/// the desktop where the environment defines one, the working directory
/// marker otherwise.
pub fn get_default_save_path() -> String {
    match desktop_dir_string() {
        Some(desktop) => desktop,
        None => String::from_str("."),
    }
}

} // verus!
