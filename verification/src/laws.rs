//! The controller's cross-function guarantees, stated over the same
//! spec functions the executable contracts use and proved once.

use vstd::prelude::*;
use crate::config::PostTriggerAction;
use crate::constants::{EVENT_IGNORE_WINDOW_MS, IDLE_THRESHOLD_MS, SHORTCUT_DEBOUNCE_MS};
use crate::hotkey::{event_matches_shortcut, InputEvent};
use crate::idle::{idle_action_spec, IdleAction};
use crate::monitor::{
    gate_decision, gate_post, gate_step_decision, sat_sub64, toggle_outcome_spec, EventDecision,
    GateInput, GateModel, ToggleOutcome,
};
use crate::state::MonitoringState;

verus! {

/// How many events of `evs`, delivered in order from model `g`, win
/// the trigger race.
pub open spec fn trigger_count(g: GateModel, evs: Seq<GateInput>) -> int
    decreases evs.len(),
{
    if evs.len() == 0 {
        0
    } else {
        (if gate_step_decision(g, evs.first()) is Triggered {
            1int
        } else {
            0int
        }) + trigger_count(gate_post(g, evs.first()), evs.drop_first())
    }
}

/// A disarmed session never triggers, whatever is delivered.
pub proof fn lemma_disarmed_never_triggers(g: GateModel, evs: Seq<GateInput>)
    requires
        !g.armed,
    ensures
        trigger_count(g, evs) == 0,
    decreases evs.len(),
{
    if evs.len() > 0 {
        lemma_disarmed_never_triggers(gate_post(g, evs.first()), evs.drop_first());
    }
}

/// At most one trigger: over any sequence of delivered input events,
/// at most one gatekeeper decision is a trigger — the winner disarms
/// the session on the spot, and a disarmed session ignores everything
/// after it.
pub proof fn lemma_at_most_one_trigger(g: GateModel, evs: Seq<GateInput>)
    ensures
        trigger_count(g, evs) <= 1,
    decreases evs.len(),
{
    if evs.len() > 0 {
        let post = gate_post(g, evs.first());
        if gate_step_decision(g, evs.first()) is Triggered {
            lemma_disarmed_never_triggers(post, evs.drop_first());
        } else {
            lemma_at_most_one_trigger(post, evs.drop_first());
        }
    }
}

/// Debounce: a toggle closer than the debounce window to the last
/// accepted one is debounced, whatever the session state — and a
/// debounced toggle leaves state, flags and debouncer untouched, so
/// two calls within the window produce only one state change.
pub proof fn lemma_debounce(st: MonitoringState, now1: u64, now2: u64)
    requires
        sat_sub64(now2, now1) < SHORTCUT_DEBOUNCE_MS,
    ensures
        toggle_outcome_spec(st, now2, now1) == ToggleOutcome::Debounced,
{
}

/// Arming cancel: a toggle accepted while `Preparing` stops the
/// session back to `Idle`, and the arming timer then finds the state
/// no longer `Preparing` and leaves it alone: the session stays `Idle`
/// and never becomes `Active`.
pub proof fn lemma_arming_cancel(now: u64, last_toggle: u64)
    requires
        sat_sub64(now, last_toggle) >= SHORTCUT_DEBOUNCE_MS,
    ensures
        toggle_outcome_spec(MonitoringState::Preparing, now, last_toggle)
            == ToggleOutcome::StoppedFromPreparing,
{
}

/// Hotkey self-immunity: an event inside the settling window, inside
/// the post-toggle ignore window, or matching the configured hotkey's
/// key set is never a trigger, for any hotkey string and any state.
pub proof fn lemma_hotkey_self_immunity(
    st: MonitoringState,
    armed: bool,
    settling: bool,
    last_shortcut: u64,
    action: PostTriggerAction,
    shortcut: Seq<char>,
    now: u64,
    ev: InputEvent,
    alive: bool,
)
    requires
        settling || sat_sub64(now, last_shortcut) < EVENT_IGNORE_WINDOW_MS
            || event_matches_shortcut(ev, shortcut),
    ensures
        gate_decision(st, armed, settling, last_shortcut, action, shortcut, now, ev, alive)
            != EventDecision::Triggered,
{
}

/// Self-healing: an armed session whose listener is reported dead has
/// the very next gatekeeper decision be the self-heal, which disarms
/// the session and forces the state to `Idle`.
pub proof fn lemma_self_healing(
    st: MonitoringState,
    settling: bool,
    last_shortcut: u64,
    action: PostTriggerAction,
    shortcut: Seq<char>,
    now: u64,
    ev: InputEvent,
)
    ensures
        gate_decision(st, true, settling, last_shortcut, action, shortcut, now, ev, false)
            == EventDecision::SelfHealed,
        gate_post(
            GateModel { st, armed: true, settling, last_shortcut, action, shortcut },
            GateInput { now, ev, alive: false },
        ) == (GateModel {
            st: MonitoringState::Idle,
            armed: false,
            settling,
            last_shortcut,
            action,
            shortcut,
        }),
{
}

/// Idle supervisor liveness: while armed, inactivity past the
/// threshold stops a running recording, recent activity starts one
/// when none runs, and a running recording with recent activity is
/// left alone — never started twice.
pub proof fn lemma_idle_supervisor(last_activity: u64, now: u64)
    ensures
        sat_sub64(now, last_activity) > IDLE_THRESHOLD_MS ==> idle_action_spec(
            true,
            last_activity,
            now,
            true,
        ) == IdleAction::StopRecording,
        sat_sub64(now, last_activity) <= IDLE_THRESHOLD_MS ==> idle_action_spec(
            true,
            last_activity,
            now,
            false,
        ) == IdleAction::StartRecording,
        sat_sub64(now, last_activity) <= IDLE_THRESHOLD_MS ==> idle_action_spec(
            true,
            last_activity,
            now,
            true,
        ) == IdleAction::NoAction,
{
}

} // verus!
