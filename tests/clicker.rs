use autoclicker_core::clicker::{
    change_trigger_key, close_clicker, innit_clicker, plan_cycle, start_clicker, stop_clicker,
    trigger_pressed, update_clicker_state, ClickerState, Rebind, IDLE_POLL_MS,
};
use autoclicker_core::config::{parse_button, parse_click_type, ClickType, MouseButton};
use autoclicker_core::keys::{same_text, string_to_keybdkey, TriggerKey};

fn session() -> ClickerState {
    let mut s = ClickerState::new();
    innit_clicker(&mut s);
    s
}

#[test]
fn scenario_double_left_every_hundred_ms() {
    let mut s = session();
    let restart = update_clicker_state(&mut s, 100, "Left", "Double");
    assert!(restart.cancel_previous);
    assert!(start_clicker(&mut s));
    let c = plan_cycle(&s, true);
    assert_eq!(c.clicks, vec![MouseButton::Left, MouseButton::Left]);
    assert_eq!(c.sleep_ms, 100);
}

#[test]
fn scenario_deactivate_mid_run_stops_clicks() {
    let mut s = session();
    update_clicker_state(&mut s, 100, "Left", "Double");
    start_clicker(&mut s);
    assert_eq!(plan_cycle(&s, true).clicks.len(), 2);
    assert!(!stop_clicker(&mut s));
    for _ in 0..5 {
        let c = plan_cycle(&s, true);
        assert!(c.clicks.is_empty());
        assert_eq!(c.sleep_ms, IDLE_POLL_MS);
    }
    start_clicker(&mut s);
    assert_eq!(plan_cycle(&s, true).clicks.len(), 2);
    assert!(s.loop_alive);
}

#[test]
fn scenario_rebind_a_to_b() {
    let mut s = session();
    let first = change_trigger_key(&mut s, "A");
    assert_eq!(first.bind, TriggerKey::AKey);
    let second = change_trigger_key(&mut s, "B");
    assert_eq!(second, Rebind { unbind: Some(TriggerKey::AKey), bind: TriggerKey::BKey });
    assert_eq!(trigger_pressed(&mut s, TriggerKey::AKey, true), None);
    assert!(!s.running);
    assert_eq!(trigger_pressed(&mut s, TriggerKey::BKey, true), Some(true));
    assert!(s.running);
}

#[test]
fn last_of_many_bindings_is_the_only_one() {
    let mut s = session();
    let names = ["x", "Enter", "F3", "7", "q"];
    for n in names.iter() {
        change_trigger_key(&mut s, n);
    }
    assert_eq!(s.bound_key, Some(TriggerKey::QKey));
    for k in [TriggerKey::XKey, TriggerKey::EnterKey, TriggerKey::F3Key, TriggerKey::Numrow7Key] {
        assert_eq!(trigger_pressed(&mut s, k, true), None);
        assert_eq!(trigger_pressed(&mut s, k, false), None);
    }
    assert!(!s.running);
}

#[test]
fn hotkey_toggle_alternates_and_needs_modifier() {
    let mut s = session();
    let k = s.trigger_key;
    assert_eq!(trigger_pressed(&mut s, k, false), None);
    assert!(!s.running);
    assert_eq!(trigger_pressed(&mut s, k, true), Some(true));
    assert_eq!(trigger_pressed(&mut s, k, true), Some(false));
    assert_eq!(trigger_pressed(&mut s, k, true), Some(true));
    assert_eq!(trigger_pressed(&mut s, k, false), None);
    assert!(s.running);
}

#[test]
fn press_before_any_binding_does_nothing() {
    let mut s = ClickerState::new();
    assert_eq!(trigger_pressed(&mut s, TriggerKey::BackquoteKey, true), None);
    assert!(!s.running);
}

#[test]
fn configuration_read_back_for_each_button_and_pattern() {
    let cases = [
        ("Left", "Single", MouseButton::Left, 1usize),
        ("Right", "Double", MouseButton::Right, 2),
        ("Middle", "Single", MouseButton::Middle, 1),
        ("Middle", "Double", MouseButton::Middle, 2),
    ];
    for (b, t, button, n) in cases {
        let mut s = session();
        start_clicker(&mut s);
        update_clicker_state(&mut s, 250, b, t);
        let once = s;
        update_clicker_state(&mut s, 250, b, t);
        assert_eq!(s.config, once.config);
        let c = plan_cycle(&s, true);
        assert_eq!(c.clicks, vec![button; n]);
        assert_eq!(c.sleep_ms, 250);
    }
}

#[test]
fn unknown_names_fall_back_to_left_single() {
    let mut s = session();
    update_clicker_state(&mut s, 30, "Thumb", "Triple");
    assert_eq!(s.config.button, MouseButton::Left);
    assert_eq!(s.config.click_type, ClickType::Single);
    assert_eq!(parse_button("right"), MouseButton::Left);
    assert_eq!(parse_button("Right"), MouseButton::Right);
    assert_eq!(parse_click_type("Double"), ClickType::Double);
    assert_eq!(parse_click_type(""), ClickType::Single);
}

#[test]
fn zero_interval_is_clamped_to_one() {
    let mut s = session();
    update_clicker_state(&mut s, 0, "Left", "Single");
    assert_eq!(s.config.interval_ms, 1);
    update_clicker_state(&mut s, u64::MAX, "Left", "Single");
    assert_eq!(s.config.interval_ms, u64::MAX);
}

#[test]
fn failed_device_open_retries_next_cycle() {
    let mut s = session();
    start_clicker(&mut s);
    let c = plan_cycle(&s, false);
    assert!(c.clicks.is_empty());
    assert_eq!(c.sleep_ms, IDLE_POLL_MS);
    assert!(s.running);
    assert_eq!(plan_cycle(&s, true).clicks, vec![MouseButton::Left]);
}

#[test]
fn fresh_session_uses_defaults() {
    let s = session();
    assert!(!s.running);
    assert_eq!(s.config.interval_ms, 100);
    assert_eq!(s.bound_key, Some(TriggerKey::BackquoteKey));
    let c = plan_cycle(&s, true);
    assert!(c.clicks.is_empty());
}

#[test]
fn input_pump_starts_once_per_process() {
    let mut s = ClickerState::new();
    let first = innit_clicker(&mut s);
    assert!(first.start_pump);
    assert!(!first.cancel_previous_loop);
    assert_eq!(first.rebind, Rebind { unbind: None, bind: TriggerKey::BackquoteKey });
    let second = innit_clicker(&mut s);
    assert!(!second.start_pump);
    assert!(second.cancel_previous_loop);
    assert_eq!(second.rebind.unbind, Some(TriggerKey::BackquoteKey));
    let down = close_clicker(&mut s);
    assert!(down.cancel_loop && down.cancel_pump);
    let again = close_clicker(&mut s);
    assert!(!again.cancel_loop && !again.cancel_pump);
    let third = innit_clicker(&mut s);
    assert!(!third.start_pump);
    assert!(!third.cancel_previous_loop);
}

#[test]
fn initialize_pauses_a_running_clicker() {
    let mut s = session();
    start_clicker(&mut s);
    innit_clicker(&mut s);
    assert!(!s.running);
}

#[test]
fn key_names_map_to_keys() {
    assert_eq!(string_to_keybdkey("a"), TriggerKey::AKey);
    assert_eq!(string_to_keybdkey("Z"), TriggerKey::ZKey);
    assert_eq!(string_to_keybdkey(" "), TriggerKey::SpaceKey);
    assert_eq!(string_to_keybdkey("0"), TriggerKey::Numrow0Key);
    assert_eq!(string_to_keybdkey("ArrowDown"), TriggerKey::DownKey);
    assert_eq!(string_to_keybdkey("Meta"), TriggerKey::LSuper);
    assert_eq!(string_to_keybdkey("F12"), TriggerKey::F12Key);
    assert_eq!(string_to_keybdkey("\\"), TriggerKey::BackslashKey);
    assert_eq!(string_to_keybdkey("`"), TriggerKey::BackquoteKey);
    assert_eq!(string_to_keybdkey("F13"), TriggerKey::F6Key);
    assert_eq!(string_to_keybdkey(""), TriggerKey::F6Key);
    assert_eq!(string_to_keybdkey("Tab "), TriggerKey::F6Key);
}

#[test]
fn text_comparison() {
    assert!(same_text("Enter", "Enter"));
    assert!(!same_text("Enter", "enter"));
    assert!(!same_text("Ent", "Enter"));
    assert!(same_text("", ""));
    assert!(same_text("é", "é"));
}
