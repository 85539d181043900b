//! The idle-aware recording supervisor's per-tick decision: pause the
//! recording sub-session during true inactivity, resume it on fresh
//! activity, and wind the task down once the session disarms.

use vstd::prelude::*;
use crate::constants::IDLE_THRESHOLD_MS;
use crate::flags::MonitoringFlags;
use crate::monitor::{elapsed_ms, sat_sub64};

verus! {

/// What one supervisor tick does.
#[derive(Debug, Clone, Copy, PartialEq, Eq, Structural)]
pub enum IdleAction {
    /// The session is no longer armed: the supervisor task ends.
    Terminate,
    /// Inactivity outlasted the threshold while recording: stop the
    /// recording sub-session.
    StopRecording,
    /// Recent activity and no running recording: start one (which also
    /// takes a fresh capture).
    StartRecording,
    /// Nothing to change this tick.
    NoAction,
}

/// The tick decision for a given armed flag, activity clock and
/// recording status.
pub open spec fn idle_action_spec(
    armed: bool,
    last_activity: u64,
    now: u64,
    recording: bool,
) -> IdleAction {
    if !armed {
        IdleAction::Terminate
    } else if sat_sub64(now, last_activity) > IDLE_THRESHOLD_MS && recording {
        IdleAction::StopRecording
    } else if sat_sub64(now, last_activity) <= IDLE_THRESHOLD_MS && !recording {
        IdleAction::StartRecording
    } else {
        IdleAction::NoAction
    }
}

/// One tick of the supervisor: `recording` reports whether the
/// recording sub-session currently runs. A recording is stopped exactly
/// when inactivity outlasted the threshold, started exactly when
/// activity is recent and none runs, and never started while one runs.
pub fn idle_tick(flags: &MonitoringFlags, now: u64, recording: bool) -> (a: IdleAction)
    ensures
        a == idle_action_spec(flags.monitoring_active, flags.last_activity_time, now, recording),
{
    if !flags.monitoring_active() {
        return IdleAction::Terminate;
    }
    let idle_time_ms = elapsed_ms(now, flags.last_activity_time());
    if idle_time_ms > IDLE_THRESHOLD_MS && recording {
        IdleAction::StopRecording
    } else if idle_time_ms <= IDLE_THRESHOLD_MS && !recording {
        IdleAction::StartRecording
    } else {
        IdleAction::NoAction
    }
}

} // verus!
