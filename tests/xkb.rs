use xkb_keys::xkb::{
    resolve_key, xkb_log_level, ActiveModifiers, KeyState, KeyValue, LogLevel, ModsIndices,
    State, ALT, CAPS_LOCK, CONTROL, MOD_INVALID, NUM_LOCK, SHIFT, SUPER,
};

fn mask(base: u32, latched: u32, locked: u32) -> ActiveModifiers {
    ActiveModifiers {
        base_mods: base,
        latched_mods: latched,
        locked_mods: locked,
        base_layout: 0,
        latched_layout: 0,
        locked_layout: 0,
    }
}

// Shift=0, Lock=1, Control=2, Mod1 (Alt)=3, Mod2 (NumLock)=4, Mod4 (Super)=6
fn usual_indices() -> ModsIndices {
    ModsIndices::new(2, 0, 3, 6, 1, 4)
}

#[test]
fn named_key_wins_over_code_point() {
    let k = resolve_key(Some(keyboard_types::Key::Enter), 0x0d);
    assert_eq!(k, KeyValue::Named(keyboard_types::Key::Enter));
}

#[test]
fn code_point_gives_character() {
    assert_eq!(resolve_key(None, 0x61), KeyValue::Character("a".to_string()));
    assert_eq!(resolve_key(None, 0x41), KeyValue::Character("A".to_string()));
    assert_eq!(resolve_key(None, 0x20ac), KeyValue::Character("€".to_string()));
}

#[test]
fn no_entry_and_no_code_point_is_unidentified() {
    assert_eq!(resolve_key(None, 0), KeyValue::Unidentified);
    assert_eq!(resolve_key(None, 0xD800), KeyValue::Unidentified);
    assert_eq!(resolve_key(None, 0x110000), KeyValue::Unidentified);
}

#[test]
fn absent_index_is_never_active() {
    let mut s = State::new(ModsIndices::new(
        MOD_INVALID,
        MOD_INVALID,
        MOD_INVALID,
        MOD_INVALID,
        MOD_INVALID,
        MOD_INVALID,
    ));
    s.update_xkb_state(mask(u32::MAX, u32::MAX, u32::MAX));
    assert!(!s.is_modifier_active(MOD_INVALID));
    assert!(!s.is_modifier_active(32));
    assert!(s.is_modifier_active(31));
    let ev = s.key_event(38, KeyState::Down, false, None, 0x61);
    assert_eq!(ev.mods.bits, 0);
}

#[test]
fn update_then_shifted_key_event() {
    let mut s = State::new(usual_indices());
    s.update_xkb_state(mask(1 << 0, 0, 0));
    // the engine gives the shifted symbol, capital A, for keycode 38
    let ev = s.key_event(38, KeyState::Down, false, None, 0x41);
    assert!(ev.mods.contains(SHIFT));
    assert!(!ev.mods.contains(CONTROL));
    assert_eq!(ev.mods.bits, SHIFT);
    assert_eq!(ev.key, KeyValue::Character("A".to_string()));
    assert_eq!(ev.state, KeyState::Down);
    assert_eq!(ev.hardware_code, Some(38));
    assert!(!ev.repeat);
    assert!(!ev.is_composing);
}

#[test]
fn latched_and_locked_modifiers_count() {
    let mut s = State::new(usual_indices());
    s.update_xkb_state(mask(1 << 2, 1 << 3, (1 << 1) | (1 << 4) | (1 << 6)));
    let ev = s.key_event(24, KeyState::Up, true, None, 0x71);
    assert_eq!(ev.mods.bits, CONTROL | ALT | CAPS_LOCK | NUM_LOCK | SUPER);
    assert_eq!(ev.state, KeyState::Up);
    assert!(ev.repeat);
    s.update_xkb_state(mask(0, 0, 0));
    let ev = s.key_event(24, KeyState::Up, false, None, 0x71);
    assert_eq!(ev.mods.bits, 0);
}

#[test]
fn large_scancode_has_no_hardware_code() {
    let s = State::new(usual_indices());
    let ev = s.key_event(0x1_0000, KeyState::Down, false, None, 0);
    assert_eq!(ev.hardware_code, None);
    assert_eq!(ev.key, KeyValue::Unidentified);
    let ev = s.key_event(0xffff, KeyState::Down, false, Some(keyboard_types::Key::Escape), 0x1b);
    assert_eq!(ev.hardware_code, Some(0xffff));
    assert_eq!(ev.key, KeyValue::Named(keyboard_types::Key::Escape));
}

#[test]
fn log_levels_map_one_step_up() {
    assert_eq!(xkb_log_level(LogLevel::Error), 10);
    assert_eq!(xkb_log_level(LogLevel::Warn), 20);
    assert_eq!(xkb_log_level(LogLevel::Info), 30);
    assert_eq!(xkb_log_level(LogLevel::Debug), 40);
    assert_eq!(xkb_log_level(LogLevel::Trace), 50);
}
