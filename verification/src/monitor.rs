//! The toggle handler, arming timer and input gatekeeper: every
//! decision the monitoring lifecycle makes, as functions from the
//! current state and one event to the next state and an action for the
//! surrounding runtime to carry out.

use vstd::prelude::*;
use crate::config::PostTriggerAction;
use crate::constants::{EVENT_IGNORE_WINDOW_MS, SHORTCUT_DEBOUNCE_MS};
use crate::flags::MonitoringFlags;
use crate::hotkey::{event_matches_shortcut, should_ignore_event, InputEvent};
use crate::hotkey::{is_valid_shortcut, valid_shortcut_spec};
use crate::state::{AppState, MonitoringState};

verus! {

/// Milliseconds elapsed from `since` to `now`, clamped at zero.
pub open spec fn sat_sub64(now: u64, since: u64) -> u64 {
    if now >= since {
        (now - since) as u64
    } else {
        0
    }
}

/// Milliseconds elapsed from `since` to `now`, clamped at zero.
pub fn elapsed_ms(now: u64, since: u64) -> (r: u64)
    ensures
        r == sat_sub64(now, since),
{
    if now >= since {
        now - since
    } else {
        0
    }
}

/// Rejects repeated toggle requests arriving within the debounce
/// window, against key repeat or a double-firing hotkey.
pub struct Debouncer {
    /// When the last accepted toggle happened, in milliseconds.
    pub last_toggle: u64,
}

impl Debouncer {
    pub fn new(now: u64) -> (r: Self)
        ensures
            r.last_toggle == now,
    {
        Debouncer { last_toggle: now }
    }

    /// Accepts a toggle only when the debounce window has passed since
    /// the last accepted one, and then restarts the window.
    pub fn should_process_toggle(&mut self, now: u64) -> (r: bool)
        ensures
            r == (sat_sub64(now, old(self).last_toggle) >= SHORTCUT_DEBOUNCE_MS),
            r ==> final(self).last_toggle == now,
            !r ==> *final(self) == *old(self),
    {
        if elapsed_ms(now, self.last_toggle) < SHORTCUT_DEBOUNCE_MS {
            return false;
        }
        self.last_toggle = now;
        true
    }
}

/// What a toggle request did.
#[derive(Debug, Clone, Copy, PartialEq, Eq, Structural)]
pub enum ToggleOutcome {
    /// The request fell into the debounce window: nothing changed.
    Debounced,
    /// The session left `Idle` for `Preparing`: announce it and
    /// schedule the arming timer and the settling-window clear.
    BeginPreparing,
    /// A not-yet-armed session was cancelled back to `Idle`.
    StoppedFromPreparing,
    /// An armed session was stopped: its tasks were aborted; announce
    /// `Idle` and notify.
    StoppedFromActive,
    /// The session is mid-trigger; a toggle does nothing there.
    Ignored,
}

/// The outcome a toggle at `now` has, given the session state and the
/// time of the last accepted toggle.
pub open spec fn toggle_outcome_spec(
    st: MonitoringState,
    now: u64,
    last_toggle: u64,
) -> ToggleOutcome {
    if sat_sub64(now, last_toggle) < SHORTCUT_DEBOUNCE_MS {
        ToggleOutcome::Debounced
    } else {
        match st {
            MonitoringState::Idle => ToggleOutcome::BeginPreparing,
            MonitoringState::Preparing => ToggleOutcome::StoppedFromPreparing,
            MonitoringState::Active => ToggleOutcome::StoppedFromActive,
            MonitoringState::Triggered => ToggleOutcome::Ignored,
        }
    }
}

/// Handles one toggle request (UI button or global hotkey) at `now`.
/// `listener_alive` is the runtime's report on the owned listener task;
/// the armed flag is first repaired from it. A debounced request
/// changes nothing else; any other request opens the settling window
/// and then drives the state: `Idle` starts preparing, `Preparing` and
/// `Active` stop back to `Idle` (an armed session also aborting its
/// tasks), and `Triggered` is left for the lockdown to finish.
pub fn toggle(
    state: &mut AppState,
    flags: &mut MonitoringFlags,
    debouncer: &mut Debouncer,
    now: u64,
    listener_alive: bool,
) -> (r: ToggleOutcome)
    ensures
        r == toggle_outcome_spec(old(state).status, now, old(debouncer).last_toggle),
        *final(state) == (AppState {
            status: match r {
                ToggleOutcome::BeginPreparing => MonitoringState::Preparing,
                ToggleOutcome::StoppedFromPreparing => MonitoringState::Idle,
                ToggleOutcome::StoppedFromActive => MonitoringState::Idle,
                _ => old(state).status,
            },
            ..*old(state)
        }),
        final(debouncer).last_toggle == if r is Debounced {
            old(debouncer).last_toggle
        } else {
            now
        },
        *final(flags) == (MonitoringFlags {
            monitoring_active: old(flags).monitoring_active && listener_alive && !(r
                is StoppedFromActive),
            shortcut_in_progress: if r is Debounced {
                old(flags).shortcut_in_progress
            } else {
                true
            },
            last_shortcut_time: if r is Debounced {
                old(flags).last_shortcut_time
            } else {
                now
            },
            monitoring_handle: if r is StoppedFromActive {
                None
            } else {
                old(flags).monitoring_handle
            },
            idle_check_handle: if r is StoppedFromActive {
                None
            } else {
                old(flags).idle_check_handle
            },
            ..*old(flags)
        }),
{
    flags.health_check_with(listener_alive);
    if !debouncer.should_process_toggle(now) {
        return ToggleOutcome::Debounced;
    }
    flags.set_last_shortcut_time(now);
    flags.set_shortcut_in_progress(true);
    match state.status() {
        MonitoringState::Idle => {
            let _ = state.set_status(MonitoringState::Preparing);
            ToggleOutcome::BeginPreparing
        },
        MonitoringState::Preparing => {
            let _ = state.set_status(MonitoringState::Idle);
            ToggleOutcome::StoppedFromPreparing
        },
        MonitoringState::Active => {
            flags.stop_monitoring_thread();
            let _ = state.set_status(MonitoringState::Idle);
            ToggleOutcome::StoppedFromActive
        },
        MonitoringState::Triggered => ToggleOutcome::Ignored,
    }
}

/// What the arming timer found when it fired.
#[derive(Debug, Clone, Copy, PartialEq, Eq, Structural)]
pub enum ArmingOutcome {
    /// The session left `Preparing` meanwhile (the user cancelled):
    /// nothing to do.
    Cancelled,
    /// The session became `Active`: create the listener, then hand it
    /// to `MonitoringFlags::start_monitoring_atomic`.
    StartListener,
}

/// The delayed `Preparing` to `Active` step. If the session is no
/// longer preparing the timer does nothing; otherwise the state becomes
/// `Active` and the caller must start the listener.
pub fn arming_timer_fired(state: &mut AppState) -> (r: ArmingOutcome)
    ensures
        r == (if old(state).status == MonitoringState::Preparing {
            ArmingOutcome::StartListener
        } else {
            ArmingOutcome::Cancelled
        }),
        *final(state) == (AppState {
            status: if old(state).status == MonitoringState::Preparing {
                MonitoringState::Active
            } else {
                old(state).status
            },
            ..*old(state)
        }),
{
    if state.status() != MonitoringState::Preparing {
        return ArmingOutcome::Cancelled;
    }
    match state.set_status(MonitoringState::Active) {
        Ok(_) => ArmingOutcome::StartListener,
        Err(_) => ArmingOutcome::Cancelled,
    }
}

/// Resets the session to `Idle` (always a legal transition); the caller
/// announces the new status.
pub fn reset_to_idle(state: &mut AppState)
    ensures
        *final(state) == (AppState { status: MonitoringState::Idle, ..*old(state) }),
{
    let _ = state.set_status(MonitoringState::Idle);
}

/// The unconditional external reset: any state back to `Idle`, both
/// background tasks aborted and dropped, the session disarmed. The
/// caller also stops any running recording and announces `Idle`.
pub fn force_reset(state: &mut AppState, flags: &mut MonitoringFlags)
    ensures
        *final(state) == (AppState { status: MonitoringState::Idle, ..*old(state) }),
        *final(flags) == (MonitoringFlags {
            monitoring_active: false,
            monitoring_handle: None,
            idle_check_handle: None,
            ..*old(flags)
        }),
{
    flags.stop_monitoring_thread();
    let _ = state.set_status(MonitoringState::Idle);
}

/// What the gatekeeper decided about one raw input event.
#[derive(Debug, Clone, Copy, PartialEq, Eq, Structural)]
pub enum EventDecision {
    /// The session is not armed: the event means nothing.
    Inactive,
    /// The armed flag was set but the listener task is dead: the flag
    /// was cleared, the state forced to `Idle`; announce it.
    SelfHealed,
    /// The settling window after a toggle is still open.
    Settling,
    /// The event came too soon after the last toggle.
    InIgnoreWindow,
    /// The event is the configured hotkey's own keystroke.
    HotkeyEcho,
    /// Screen-recording mode: the event only fed the activity clock.
    ActivityOnly,
    /// The trigger fired: the state is `Triggered`, the session
    /// disarmed; run the lockdown on a fresh execution context.
    Triggered,
    /// Another actor moved the state first: the event is dropped.
    RaceLost,
}

/// The gatekeeper's decision sequence, each step a short-circuit.
pub open spec fn gate_decision(
    st: MonitoringState,
    armed: bool,
    settling: bool,
    last_shortcut: u64,
    action: PostTriggerAction,
    shortcut: Seq<char>,
    now: u64,
    ev: InputEvent,
    listener_alive: bool,
) -> EventDecision {
    if !armed {
        EventDecision::Inactive
    } else if !listener_alive {
        EventDecision::SelfHealed
    } else if settling {
        EventDecision::Settling
    } else if sat_sub64(now, last_shortcut) < EVENT_IGNORE_WINDOW_MS {
        EventDecision::InIgnoreWindow
    } else if event_matches_shortcut(ev, shortcut) {
        EventDecision::HotkeyEcho
    } else if action == PostTriggerAction::ScreenRecording {
        EventDecision::ActivityOnly
    } else if st == MonitoringState::Active {
        EventDecision::Triggered
    } else {
        EventDecision::RaceLost
    }
}

/// The part of the controller the gatekeeper reads and writes, as one
/// value: the session state and the flags fields that decide an event,
/// with the settings the gatekeeper leaves untouched held constant.
pub struct GateModel {
    pub st: MonitoringState,
    pub armed: bool,
    pub settling: bool,
    pub last_shortcut: u64,
    pub action: PostTriggerAction,
    pub shortcut: Seq<char>,
}

/// One delivered input event: its arrival time, the event itself, and
/// the runtime's liveness report on the listener task.
pub struct GateInput {
    pub now: u64,
    pub ev: InputEvent,
    pub alive: bool,
}

/// The gatekeeper-relevant view of the controller.
pub open spec fn gate_model_of(state: AppState, flags: MonitoringFlags) -> GateModel {
    GateModel {
        st: state.status,
        armed: flags.monitoring_active,
        settling: flags.shortcut_in_progress,
        last_shortcut: flags.last_shortcut_time,
        action: state.post_trigger_action,
        shortcut: state.shortcut_key@,
    }
}

/// The gatekeeper's decision on one input, over the model.
pub open spec fn gate_step_decision(g: GateModel, x: GateInput) -> EventDecision {
    gate_decision(
        g.st,
        g.armed,
        g.settling,
        g.last_shortcut,
        g.action,
        g.shortcut,
        x.now,
        x.ev,
        x.alive,
    )
}

/// The model after one gatekeeper call, exactly as `on_input_event`'s
/// contract moves the state and flags.
pub open spec fn gate_post(g: GateModel, x: GateInput) -> GateModel {
    let d = gate_step_decision(g, x);
    GateModel {
        st: if d is SelfHealed {
            MonitoringState::Idle
        } else if d is Triggered {
            MonitoringState::Triggered
        } else {
            g.st
        },
        armed: g.armed && x.alive && !(d is Triggered),
        ..g
    }
}

/// The gatekeeper: called for every raw input event the listener
/// delivers, with the runtime's liveness report on the listener task.
/// While armed, the event always feeds the activity clock; it becomes a
/// trigger only when the session is armed and `Active`, the listener
/// lives, the settling and ignore windows are closed, the event is not
/// the hotkey's own keystroke, and the mode is not screen recording.
/// At most one event ever wins the `Active` to `Triggered` race; the
/// winner disarms the session on the spot.
pub fn on_input_event(
    state: &mut AppState,
    flags: &mut MonitoringFlags,
    now: u64,
    event: &InputEvent,
    listener_alive: bool,
) -> (r: EventDecision)
    ensures
        r == gate_decision(
            old(state).status,
            old(flags).monitoring_active,
            old(flags).shortcut_in_progress,
            old(flags).last_shortcut_time,
            old(state).post_trigger_action,
            old(state).shortcut_key@,
            now,
            *event,
            listener_alive,
        ),
        *final(state) == (AppState {
            status: if r is SelfHealed {
                MonitoringState::Idle
            } else if r is Triggered {
                MonitoringState::Triggered
            } else {
                old(state).status
            },
            ..*old(state)
        }),
        *final(flags) == (MonitoringFlags {
            monitoring_active: old(flags).monitoring_active && listener_alive && !(r
                is Triggered),
            last_activity_time: if old(flags).monitoring_active {
                now
            } else {
                old(flags).last_activity_time
            },
            ..*old(flags)
        }),
        gate_model_of(*final(state), *final(flags)) == gate_post(
            gate_model_of(*old(state), *old(flags)),
            GateInput { now, ev: *event, alive: listener_alive },
        ),
{
    let monitoring_active = flags.monitoring_active();
    let shortcut_in_progress = flags.shortcut_in_progress();
    let last_shortcut_time = flags.last_shortcut_time();
    if monitoring_active {
        flags.set_last_activity_time(now);
    }
    if !monitoring_active {
        return EventDecision::Inactive;
    }
    if !listener_alive {
        flags.set_monitoring_active(false);
        let _ = state.set_status(MonitoringState::Idle);
        return EventDecision::SelfHealed;
    }
    if shortcut_in_progress {
        return EventDecision::Settling;
    }
    if elapsed_ms(now, last_shortcut_time) < EVENT_IGNORE_WINDOW_MS {
        return EventDecision::InIgnoreWindow;
    }
    let shortcut = state.shortcut_key();
    if should_ignore_event(event, shortcut.as_str()) {
        return EventDecision::HotkeyEcho;
    }
    if state.post_trigger_action() == PostTriggerAction::ScreenRecording {
        return EventDecision::ActivityOnly;
    }
    match state.set_status(MonitoringState::Triggered) {
        Ok(_) => {
            flags.set_monitoring_active(false);
            EventDecision::Triggered
        },
        Err(_) => EventDecision::RaceLost,
    }
}

/// Clean-up after the blocking input subscription itself fails: fatal
/// to the current session only. The session is disarmed and forced to
/// `Idle`; the caller announces the new status and the process keeps
/// running.
pub fn listener_failed(state: &mut AppState, flags: &mut MonitoringFlags)
    ensures
        *final(state) == (AppState { status: MonitoringState::Idle, ..*old(state) }),
        *final(flags) == (MonitoringFlags { monitoring_active: false, ..*old(flags) }),
{
    flags.set_monitoring_active(false);
    let _ = state.set_status(MonitoringState::Idle);
}

/// Changes the configured hotkey, rejecting a malformed combination at
/// the boundary with the old configuration left intact.
pub fn apply_shortcut_change(state: &mut AppState, shortcut: String) -> (r: Result<
    (),
    &'static str,
>)
    ensures
        r is Ok <==> valid_shortcut_spec(shortcut@),
        r is Ok ==> *final(state) == (AppState { shortcut_key: shortcut, ..*old(state) }),
        r is Err ==> *final(state) == *old(state),
{
    if !is_valid_shortcut(shortcut.as_str()) {
        return Err("invalid shortcut format");
    }
    state.set_shortcut_key(shortcut);
    Ok(())
}

/// The status string announced for a session state; the mid-trigger
/// state announces the lockdown in progress.
pub fn status_label(state: MonitoringState) -> (r: &'static str)
    ensures
        state == MonitoringState::Idle ==> r@ == "idle"@,
        state == MonitoringState::Preparing ==> r@ == "preparing"@,
        state == MonitoringState::Active ==> r@ == "active"@,
        state == MonitoringState::Triggered ==> r@ == "locking"@,
{
    match state {
        MonitoringState::Idle => "idle",
        MonitoringState::Preparing => "preparing",
        MonitoringState::Active => "active",
        MonitoringState::Triggered => "locking",
    }
}

} // verus!
