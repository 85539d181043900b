//! The session-lock detector: debounces the operating system's noisy
//! lock probes into clean locked/unlocked transitions, so an unlock can
//! drive the external force-reset.

use vstd::prelude::*;

verus! {

/// Consecutive lock readings needed before a lock is believed.
pub const LOCK_DETECTION_THRESHOLD: u32 = 3;

/// A confirmed change of the session's lock state.
#[derive(Debug, Clone, Copy, PartialEq, Eq, Structural)]
pub enum SessionEvent {
    /// The system just became locked.
    Locked,
    /// The system just became unlocked.
    Unlocked,
}

/// Debounces raw lock probes: a lock is reported only after the
/// threshold of consecutive locked readings, an unlock immediately.
pub struct LockDetector {
    /// Whether the system is currently believed locked.
    pub was_locked: bool,
    /// Consecutive locked readings seen so far while believed unlocked.
    pub count: u32,
}

impl LockDetector {
    /// The reading count never reaches the threshold between probes.
    pub open spec fn wf(&self) -> bool {
        self.count < LOCK_DETECTION_THRESHOLD
    }

    pub fn new() -> (r: Self)
        ensures
            r.wf(),
            !r.was_locked,
            r.count == 0,
    {
        LockDetector { was_locked: false, count: 0 }
    }

    /// Feeds one raw probe. A locked reading while believed unlocked
    /// counts toward the threshold and reports `Locked` exactly when it
    /// is reached; an unlocked reading while believed locked reports
    /// `Unlocked` at once; a reading that matches the belief resets the
    /// count and reports nothing.
    pub fn observe(&mut self, locked_now: bool) -> (r: Option<SessionEvent>)
        requires
            old(self).wf(),
        ensures
            final(self).wf(),
            locked_now && !old(self).was_locked && old(self).count + 1 >= LOCK_DETECTION_THRESHOLD
                ==> r == Some(SessionEvent::Locked) && final(self).was_locked
                && final(self).count == 0,
            locked_now && !old(self).was_locked && old(self).count + 1 < LOCK_DETECTION_THRESHOLD
                ==> r is None && !final(self).was_locked
                && final(self).count == old(self).count + 1,
            !locked_now && old(self).was_locked
                ==> r == Some(SessionEvent::Unlocked) && !final(self).was_locked
                && final(self).count == 0,
            locked_now == old(self).was_locked
                ==> r is None && final(self).was_locked == old(self).was_locked
                && final(self).count == 0,
    {
        if locked_now && !self.was_locked {
            self.count = self.count + 1;
            if self.count >= LOCK_DETECTION_THRESHOLD {
                self.was_locked = true;
                self.count = 0;
                Some(SessionEvent::Locked)
            } else {
                None
            }
        } else if !locked_now && self.was_locked {
            self.was_locked = false;
            self.count = 0;
            Some(SessionEvent::Unlocked)
        } else {
            self.count = 0;
            None
        }
    }
}

} // verus!
