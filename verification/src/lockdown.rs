//! The lockdown orchestrator's decisions: what the one-shot response
//! sequence does, snapshotted from the configuration at the instant the
//! trigger fired.

use vstd::prelude::*;
use crate::config::{clone_opt_string, PostTriggerAction};
use crate::state::{AppState, MonitoringState};

verus! {

/// The steps of one lockdown run, fixed when it starts. The caller
/// performs them in order: start the recording sub-session (recording
/// mode only), capture a photo, show the notification, lock the screen
/// and wait the settle delay, then either exit the process or call
/// `finish_lockdown`. Each step is best-effort: a failed capture must
/// not prevent the lock.
pub struct LockdownPlan {
    /// Camera to capture with.
    pub camera_id: u32,
    /// Where the capture lands; the platform default when `None`.
    pub save_path: Option<String>,
    /// The configured response, driving the steps below.
    pub action: PostTriggerAction,
    /// Start the recording sub-session before capturing.
    pub start_recording: bool,
    /// Show a security notification.
    pub notify: bool,
    /// Invoke the operating system's lock call.
    pub lock_screen: bool,
    /// Terminate the process once locked.
    pub exit_after: bool,
}

/// Validates that the session is still mid-trigger and snapshots the
/// configuration into a plan; any other state means a concurrent reset
/// got there first and the lockdown aborts silently. A plan in hand,
/// the caller announces the lockdown before performing it. The screen
/// is locked if and only if the action is capture-and-lock, and the
/// recording sub-session starts if and only if the action is screen
/// recording.
pub fn begin_lockdown(state: &AppState) -> (r: Option<LockdownPlan>)
    ensures
        r is Some <==> state.status == MonitoringState::Triggered,
        r is Some ==> r.unwrap() == (LockdownPlan {
            camera_id: state.camera_id,
            save_path: state.save_path,
            action: state.post_trigger_action,
            start_recording: state.post_trigger_action == PostTriggerAction::ScreenRecording,
            notify: state.enable_notifications,
            lock_screen: state.post_trigger_action == PostTriggerAction::CaptureAndLock,
            exit_after: state.exit_on_lock,
        }),
{
    if state.status() != MonitoringState::Triggered {
        return None;
    }
    let action = state.post_trigger_action();
    let lock_screen = match action {
        PostTriggerAction::CaptureAndLock => true,
        PostTriggerAction::CaptureOnly => false,
        PostTriggerAction::ScreenRecording => false,
    };
    let start_recording = match action {
        PostTriggerAction::ScreenRecording => true,
        _ => false,
    };
    Some(
        LockdownPlan {
            camera_id: state.camera_id(),
            save_path: clone_opt_string(&state.save_path),
            action,
            start_recording,
            notify: state.enable_notifications(),
            lock_screen,
            exit_after: state.exit_on_lock(),
        },
    )
}

/// Closes a lockdown that did not exit the process. Capture-only is the
/// self-resetting mode: the session returns to `Idle` and the caller
/// announces it. The other modes stay `Triggered` until the external
/// force-reset, so the session cannot re-arm while the screen is locked
/// or a recording still runs.
pub fn finish_lockdown(state: &mut AppState, action: PostTriggerAction) -> (emit_idle: bool)
    ensures
        emit_idle == (action == PostTriggerAction::CaptureOnly),
        *final(state) == (AppState {
            status: if action == PostTriggerAction::CaptureOnly {
                MonitoringState::Idle
            } else {
                old(state).status
            },
            ..*old(state)
        }),
{
    if action == PostTriggerAction::CaptureOnly {
        let _ = state.set_status(MonitoringState::Idle);
        true
    } else {
        false
    }
}

} // verus!
