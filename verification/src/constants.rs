//! Timing constants of the monitoring lifecycle, in milliseconds.

use vstd::prelude::*;

verus! {

/// Delay between a toggle from `Idle` and the attempt to become `Active`.
pub const PREPARATION_DELAY_MS: u64 = 2000;

/// Two toggle requests closer than this are treated as one.
pub const SHORTCUT_DEBOUNCE_MS: u64 = 500;

/// How long the shortcut-settling flag stays set after a toggle.
pub const SHORTCUT_FLAG_CLEAR_DELAY_MS: u64 = 1000;

/// Input events this close to the last toggle are never triggers.
pub const EVENT_IGNORE_WINDOW_MS: u64 = 500;

/// Inactivity longer than this pauses an ongoing screen recording.
pub const IDLE_THRESHOLD_MS: u64 = 20000;

/// Tick interval of the idle-aware recording supervisor.
pub const IDLE_TICK_MS: u64 = 5000;

/// How long the lockdown sequence waits for the lock call to take effect.
pub const LOCK_SETTLE_DELAY_MS: u64 = 1000;

} // verus!
