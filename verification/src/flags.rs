//! The shared monitoring flags: the armed switch, the shortcut-settling
//! window, activity timestamps, and the supervised handles of the two
//! background tasks (input listener, idle supervisor).

use vstd::prelude::*;

verus! {

/// Task handles of the asynchronous runtime carry no visible state;
/// they are held only to probe liveness and to request cancellation.
#[verifier::external_type_specification]
#[verifier::external_body]
#[verifier::reject_recursive_types(T)]
pub struct ExJoinHandle<T>(tokio::task::JoinHandle<T>);

/// The error a joined task reports; this crate never joins, so the type
/// is only declared so the handle's interface can be.
#[verifier::external_type_specification]
#[verifier::external_body]
pub struct ExJoinError(tokio::task::JoinError);

/// Relies on tokio::task::JoinHandle::is_finished. Whether the task has
/// completed depends on scheduling, so nothing is promised of the result.
pub assume_specification<T>[ tokio::task::JoinHandle::<T>::is_finished ](
    h: &tokio::task::JoinHandle<T>,
) -> bool;

/// Relies on tokio::task::JoinHandle::abort, which asks the runtime to
/// cancel the task; cancellation is best-effort and changes no value
/// this crate reasons about.
pub assume_specification<T>[ tokio::task::JoinHandle::<T>::abort ](
    h: &tokio::task::JoinHandle<T>,
);

/// Holds the monitoring flags for the application. `monitoring_active`
/// is meant to be true only while the listener task of the current
/// session is expected to deliver events; `health_check_with` restores
/// that whenever the listener died underneath it.
pub struct MonitoringFlags {
    /// Whether monitoring is active (the session is armed).
    pub monitoring_active: bool,
    /// Whether a toggle is still settling (hotkey echo suppression).
    pub shortcut_in_progress: bool,
    /// Timestamp of the last toggle, in milliseconds since the epoch.
    pub last_shortcut_time: u64,
    /// Timestamp of the last observed input activity, in milliseconds.
    pub last_activity_time: u64,
    /// Handle of the background listener task, while one is owned.
    pub monitoring_handle: Option<tokio::task::JoinHandle<()>>,
    /// Handle of the idle-supervisor task, while one is owned.
    pub idle_check_handle: Option<tokio::task::JoinHandle<()>>,
}

impl MonitoringFlags {
    /// Fresh flags: disarmed, no settling window, no owned tasks.
    pub fn new() -> (r: Self)
        ensures
            !r.monitoring_active,
            !r.shortcut_in_progress,
            r.last_shortcut_time == 0,
            r.last_activity_time == 0,
            r.monitoring_handle is None,
            r.idle_check_handle is None,
    {
        MonitoringFlags {
            monitoring_active: false,
            shortcut_in_progress: false,
            last_shortcut_time: 0,
            last_activity_time: 0,
            monitoring_handle: None,
            idle_check_handle: None,
        }
    }

    pub fn monitoring_active(&self) -> (r: bool)
        ensures
            r == self.monitoring_active,
    {
        self.monitoring_active
    }

    pub fn set_monitoring_active(&mut self, value: bool)
        ensures
            *final(self) == (MonitoringFlags { monitoring_active: value, ..*old(self) }),
    {
        self.monitoring_active = value;
    }

    pub fn shortcut_in_progress(&self) -> (r: bool)
        ensures
            r == self.shortcut_in_progress,
    {
        self.shortcut_in_progress
    }

    pub fn set_shortcut_in_progress(&mut self, value: bool)
        ensures
            *final(self) == (MonitoringFlags { shortcut_in_progress: value, ..*old(self) }),
    {
        self.shortcut_in_progress = value;
    }

    pub fn last_shortcut_time(&self) -> (r: u64)
        ensures
            r == self.last_shortcut_time,
    {
        self.last_shortcut_time
    }

    pub fn set_last_shortcut_time(&mut self, value: u64)
        ensures
            *final(self) == (MonitoringFlags { last_shortcut_time: value, ..*old(self) }),
    {
        self.last_shortcut_time = value;
    }

    pub fn last_activity_time(&self) -> (r: u64)
        ensures
            r == self.last_activity_time,
    {
        self.last_activity_time
    }

    pub fn set_last_activity_time(&mut self, value: u64)
        ensures
            *final(self) == (MonitoringFlags { last_activity_time: value, ..*old(self) }),
    {
        self.last_activity_time = value;
    }

    /// Stores the listener task handle without arming.
    pub fn set_monitoring_handle(&mut self, handle: tokio::task::JoinHandle<()>)
        ensures
            *final(self) == (MonitoringFlags {
                monitoring_handle: Some(handle),
                ..*old(self)
            }),
    {
        self.monitoring_handle = Some(handle);
    }

    /// Stores the idle-supervisor task handle.
    pub fn set_idle_check_handle(&mut self, handle: tokio::task::JoinHandle<()>)
        ensures
            *final(self) == (MonitoringFlags {
                idle_check_handle: Some(handle),
                ..*old(self)
            }),
    {
        self.idle_check_handle = Some(handle);
    }

    /// Whether the owned listener task still runs. Without an owned
    /// handle the listener is dead by definition; with one, liveness is
    /// whatever the runtime reports.
    pub fn is_monitoring_thread_alive(&self) -> (r: bool)
        ensures
            self.monitoring_handle is None ==> !r,
    {
        match &self.monitoring_handle {
            Some(handle) => !handle.is_finished(),
            None => false,
        }
    }

    /// Stops the monitoring session: aborts both owned tasks, drops
    /// their handles and disarms.
    pub fn stop_monitoring_thread(&mut self)
        ensures
            *final(self) == (MonitoringFlags {
                monitoring_active: false,
                monitoring_handle: None,
                idle_check_handle: None,
                ..*old(self)
            }),
    {
        match self.monitoring_handle.take() {
            Some(handle) => {
                if !handle.is_finished() {
                    handle.abort();
                }
            },
            None => {},
        }
        match self.idle_check_handle.take() {
            Some(handle) => {
                if !handle.is_finished() {
                    handle.abort();
                }
            },
            None => {},
        }
        self.monitoring_active = false;
    }

    /// Atomically adopts a freshly created listener: only when the
    /// session is not already armed is the handle stored and the armed
    /// flag raised; a racing second listener is aborted and refused.
    pub fn start_monitoring_atomic(&mut self, handle: tokio::task::JoinHandle<()>) -> (r: bool)
        ensures
            r == !old(self).monitoring_active,
            r ==> *final(self) == (MonitoringFlags {
                monitoring_active: true,
                monitoring_handle: Some(handle),
                ..*old(self)
            }),
            !r ==> *final(self) == *old(self),
    {
        if self.monitoring_active {
            handle.abort();
            return false;
        }
        self.monitoring_handle = Some(handle);
        self.monitoring_active = true;
        true
    }

    /// The health verdict and repair for a given liveness report: the
    /// state is healthy when the armed flag agrees with the report, and
    /// an armed session whose listener died is disarmed on the spot.
    pub fn health_check_with(&mut self, thread_alive: bool) -> (r: bool)
        ensures
            r == (old(self).monitoring_active == thread_alive),
            *final(self) == (MonitoringFlags {
                monitoring_active: old(self).monitoring_active && thread_alive,
                ..*old(self)
            }),
    {
        let monitoring_active = self.monitoring_active;
        let is_healthy: bool = monitoring_active == thread_alive;
        if !is_healthy {
            if monitoring_active && !thread_alive {
                self.monitoring_active = false;
            }
        }
        is_healthy
    }

    /// Probes the owned listener handle and repairs the armed flag from
    /// the report, as `health_check_with` describes; whatever the
    /// runtime reported, an armed result implies the session was armed
    /// before.
    pub fn health_check(&mut self) -> (r: bool)
        ensures
            final(self).monitoring_active ==> old(self).monitoring_active,
            r ==> final(self).monitoring_active == old(self).monitoring_active,
            *final(self) == (MonitoringFlags {
                monitoring_active: final(self).monitoring_active,
                ..*old(self)
            }),
            old(self).monitoring_active && old(self).monitoring_handle is None
                ==> !final(self).monitoring_active && !r,
    {
        let thread_alive = self.is_monitoring_thread_alive();
        self.health_check_with(thread_alive)
    }
}

} // verus!
