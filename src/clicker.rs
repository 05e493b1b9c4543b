use vstd::prelude::*;
use crate::config::{
    button_for_name, click_type_for_name, clicks_per_cycle, initial_config, parse_button, parse_click_type,
    ClickType, ClickerConfig, MouseButton,
};
use crate::keys::{key_for_name, string_to_keybdkey, TriggerKey, DEFAULT_TRIGGER_KEY};

verus! {

/// Milliseconds that a paused control loop waits before it looks at the run flag again.
pub const IDLE_POLL_MS: u64 = 50;

/// Shared state of the clicker: run flag, configuration, hotkey binding and the
/// slots of the two background tasks.
#[derive(Debug, Clone, Copy)]
pub struct ClickerState {
    /// Whether the control loop emits clicks.
    pub running: bool,
    pub config: ClickerConfig,
    /// The key that the session binds as its trigger.
    pub trigger_key: TriggerKey,
    /// The key whose binding is installed with the input capability, if any.
    pub bound_key: Option<TriggerKey>,
    /// Whether a control-loop task occupies its slot.
    pub loop_alive: bool,
    /// One-shot latch: the input-event pump was started in this process.
    pub pump_started: bool,
    /// Whether the input-event pump task occupies its slot.
    pub pump_alive: bool,
}

/// What the input capability must do to move the trigger to a new key.
#[derive(Debug, Clone, Copy, PartialEq, Eq, Structural)]
pub struct Rebind {
    /// The key to release first, if one is bound.
    pub unbind: Option<TriggerKey>,
    /// The key to bind afterwards.
    pub bind: TriggerKey,
}

/// What a configuration update asks of the task slot.
#[derive(Debug, Clone, Copy, PartialEq, Eq, Structural)]
pub struct LoopRestart {
    /// A running control loop must be cancelled and awaited before the new one starts.
    pub cancel_previous: bool,
}

/// What session start-up asks of the input capability and the task slots.
#[derive(Debug, Clone, Copy, PartialEq, Eq, Structural)]
pub struct InitPlan {
    pub rebind: Rebind,
    /// The process-wide input-event pump must be launched.
    pub start_pump: bool,
    /// A running control loop must be cancelled and awaited before the new one starts.
    pub cancel_previous_loop: bool,
}

/// What session shutdown asks of the task slots.
#[derive(Debug, Clone, Copy, PartialEq, Eq, Structural)]
pub struct ShutdownPlan {
    pub cancel_loop: bool,
    pub cancel_pump: bool,
}

/// One iteration of the control loop: the clicks to emit, then the pause.
#[derive(Debug)]
pub struct Cycle {
    pub clicks: Vec<MouseButton>,
    pub sleep_ms: u64,
}

impl ClickerState {
    /// At most one binding, and it is the recorded trigger key.
    pub open spec fn wf(&self) -> bool {
        self.bound_key is Some ==> self.bound_key == Some(self.trigger_key)
    }

    /// A session before start-up: paused, default configuration, nothing bound or running.
    pub fn new() -> (r: ClickerState)
        ensures
            r.wf(),
            !r.running,
            r.config == initial_config(),
            r.trigger_key == DEFAULT_TRIGGER_KEY,
            r.bound_key is None,
            !r.loop_alive,
            !r.pump_started,
            !r.pump_alive,
    {
        ClickerState {
            running: false,
            config: ClickerConfig::initial(),
            trigger_key: DEFAULT_TRIGGER_KEY,
            bound_key: None,
            loop_alive: false,
            pump_started: false,
            pump_alive: false,
        }
    }
}

/// The interval that a requested one becomes: zero would spin, so it counts as one.
pub open spec fn effective_interval(interval: u64) -> u64 {
    if interval == 0 {
        1
    } else {
        interval
    }
}

/// The state after the run flag is set to `running`.
pub open spec fn with_running(s: ClickerState, running: bool) -> ClickerState {
    ClickerState { running, ..s }
}

/// The state after a configuration update: new configuration, a fresh loop in the slot.
pub open spec fn configured(
    s: ClickerState,
    interval: u64,
    button: Seq<char>,
    click_type: Seq<char>,
) -> ClickerState {
    ClickerState {
        config: ClickerConfig {
            interval_ms: effective_interval(interval),
            button: button_for_name(button),
            click_type: click_type_for_name(click_type),
        },
        loop_alive: true,
        ..s
    }
}

/// The state after the trigger moves to `key`.
pub open spec fn rebound(s: ClickerState, key: TriggerKey) -> ClickerState {
    ClickerState { trigger_key: key, bound_key: Some(key), ..s }
}

/// A press of `key` toggles the run flag only while the modifier is held and
/// `key` is the bound trigger.
pub open spec fn press_toggles(s: ClickerState, key: TriggerKey, modifier_held: bool) -> bool {
    modifier_held && s.bound_key == Some(key)
}

/// The state after a press of `key`.
pub open spec fn after_press(s: ClickerState, key: TriggerKey, modifier_held: bool) -> ClickerState {
    if press_toggles(s, key, modifier_held) {
        with_running(s, !s.running)
    } else {
        s
    }
}

/// The state after session start-up.
pub open spec fn initialized(s: ClickerState) -> ClickerState {
    ClickerState {
        running: false,
        bound_key: Some(s.trigger_key),
        loop_alive: true,
        pump_started: true,
        pump_alive: s.pump_alive || !s.pump_started,
        ..s
    }
}

/// The state after session shutdown: both task slots empty, the latch kept.
pub open spec fn shut_down(s: ClickerState) -> ClickerState {
    ClickerState { loop_alive: false, pump_alive: false, ..s }
}

/// The clicks of one active cycle under `c`.
pub open spec fn clicks_of(c: ClickerConfig) -> Seq<MouseButton> {
    Seq::new(clicks_per_cycle(c.click_type), |_i: int| c.button)
}

/// The clicks of the next cycle: none while paused or while the injection
/// device could not be had (the next cycle tries again).
pub open spec fn cycle_clicks(s: ClickerState, device_ready: bool) -> Seq<MouseButton> {
    if s.running && device_ready {
        clicks_of(s.config)
    } else {
        Seq::empty()
    }
}

/// The pause after the next cycle.
pub open spec fn cycle_sleep(s: ClickerState, device_ready: bool) -> u64 {
    if s.running && device_ready {
        s.config.interval_ms
    } else {
        IDLE_POLL_MS
    }
}

/// Activates the clicker; returns the value of the state-change notification.
pub fn start_clicker(state: &mut ClickerState) -> (r: bool)
    ensures
        *final(state) == with_running(*old(state), true),
        r == true,
{
    state.running = true;
    true
}

/// Pauses the clicker; returns the value of the state-change notification.
/// The control loop keeps its slot and idles.
pub fn stop_clicker(state: &mut ClickerState) -> (r: bool)
    ensures
        *final(state) == with_running(*old(state), false),
        r == false,
{
    state.running = false;
    false
}

/// Replaces the configuration; unknown button or pattern names fall back to
/// left and single. The control loop is restarted with it.
pub fn update_clicker_state(
    state: &mut ClickerState,
    interval: u64,
    button: &str,
    click_type: &str,
) -> (r: LoopRestart)
    ensures
        *final(state) == configured(*old(state), interval, button@, click_type@),
        r.cancel_previous == old(state).loop_alive,
{
    let interval_ms: u64 = if interval == 0 {
        1
    } else {
        interval
    };
    let cancel_previous = state.loop_alive;
    state.config = ClickerConfig {
        interval_ms,
        button: parse_button(button),
        click_type: parse_click_type(click_type),
    };
    state.loop_alive = true;
    LoopRestart { cancel_previous }
}

/// Moves the trigger to the key named `trigger_key`, releasing the key bound before.
pub fn change_trigger_key(state: &mut ClickerState, trigger_key: &str) -> (r: Rebind)
    ensures
        *final(state) == rebound(*old(state), key_for_name(trigger_key@)),
        r == (Rebind { unbind: old(state).bound_key, bind: key_for_name(trigger_key@) }),
        final(state).wf(),
{
    let key = string_to_keybdkey(trigger_key);
    let r = Rebind { unbind: state.bound_key, bind: key };
    state.trigger_key = key;
    state.bound_key = Some(key);
    r
}

/// Handles a press of `key`; returns the notification to send, if the run flag changed.
pub fn trigger_pressed(state: &mut ClickerState, key: TriggerKey, modifier_held: bool) -> (r:
    Option<bool>)
    ensures
        *final(state) == after_press(*old(state), key, modifier_held),
        r == (if press_toggles(*old(state), key, modifier_held) {
            Some(!old(state).running)
        } else {
            None
        }),
{
    let bound = match state.bound_key {
        Some(k) => k == key,
        None => false,
    };
    if modifier_held && bound {
        state.running = !state.running;
        Some(state.running)
    } else {
        None
    }
}

/// Session start-up: binds the recorded trigger key, launches the input pump at
/// most once per process, and puts a fresh paused control loop in its slot.
pub fn innit_clicker(state: &mut ClickerState) -> (r: InitPlan)
    ensures
        *final(state) == initialized(*old(state)),
        final(state).wf(),
        r == (InitPlan {
            rebind: Rebind { unbind: old(state).bound_key, bind: old(state).trigger_key },
            start_pump: !old(state).pump_started,
            cancel_previous_loop: old(state).loop_alive,
        }),
{
    let r = InitPlan {
        rebind: Rebind { unbind: state.bound_key, bind: state.trigger_key },
        start_pump: !state.pump_started,
        cancel_previous_loop: state.loop_alive,
    };
    state.running = false;
    state.bound_key = Some(state.trigger_key);
    state.loop_alive = true;
    state.pump_alive = state.pump_alive || !state.pump_started;
    state.pump_started = true;
    r
}

/// Session shutdown: cancels whichever background tasks occupy their slots.
pub fn close_clicker(state: &mut ClickerState) -> (r: ShutdownPlan)
    ensures
        *final(state) == shut_down(*old(state)),
        r == (ShutdownPlan { cancel_loop: old(state).loop_alive, cancel_pump: old(state).pump_alive }),
{
    let r = ShutdownPlan { cancel_loop: state.loop_alive, cancel_pump: state.pump_alive };
    state.loop_alive = false;
    state.pump_alive = false;
    r
}

/// Plans the next iteration of the control loop.
pub fn plan_cycle(state: &ClickerState, device_ready: bool) -> (r: Cycle)
    ensures
        r.clicks@ == cycle_clicks(*state, device_ready),
        r.sleep_ms == cycle_sleep(*state, device_ready),
{
    let mut clicks: Vec<MouseButton> = Vec::new();
    if state.running && device_ready {
        let button = state.config.button;
        clicks.push(button);
        match state.config.click_type {
            ClickType::Single => {},
            ClickType::Double => {
                clicks.push(button);
            },
        }
        assert(clicks@ =~= clicks_of(state.config));
        Cycle { clicks, sleep_ms: state.config.interval_ms }
    } else {
        assert(clicks@ =~= Seq::<MouseButton>::empty());
        Cycle { clicks, sleep_ms: IDLE_POLL_MS }
    }
}

} // verus!
