//! The gesture detector: double-press counting, drag-release arming, and
//! select-move confirmation.

use context_actions::scanner::{
    GestureSignal, HotkeyConfig, InputEvent, KeyId, Scanner, TriggerKey, TriggerMode,
};

fn select_move_config() -> HotkeyConfig {
    HotkeyConfig {
        trigger_key: TriggerKey::Ctrl,
        trigger_mode: TriggerMode::SelectMove,
        interval_ms: 400,
    }
}

#[test]
fn double_press_fires_exactly_once() {
    let mut scanner = Scanner::new();
    // first press: arm the count, emit nothing
    let g1 = scanner.handle_event(InputEvent::KeyPress { key: KeyId::ControlLeft }, 10_000);
    assert_eq!(g1, None);
    // second press within the 400 ms interval: exactly one show-popup
    let g2 = scanner.handle_event(InputEvent::KeyPress { key: KeyId::ControlRight }, 10_200);
    assert_eq!(g2, Some(GestureSignal::ShowPopup { x: 0, y: 0 }));
    // third press right after the completed pair: a fresh count, no emission
    let g3 = scanner.handle_event(InputEvent::KeyPress { key: KeyId::ControlLeft }, 10_300);
    assert_eq!(g3, None);
    assert_eq!(scanner.state.press_count, 1);
}

#[test]
fn slow_presses_never_fire() {
    let mut scanner = Scanner::new();
    assert_eq!(
        scanner.handle_event(InputEvent::KeyPress { key: KeyId::ControlLeft }, 10_000),
        None
    );
    // 400 ms is the default interval; a gap of exactly 400 resets the count
    assert_eq!(
        scanner.handle_event(InputEvent::KeyPress { key: KeyId::ControlLeft }, 10_400),
        None
    );
    assert_eq!(scanner.state.press_count, 1);
}

#[test]
fn wrong_key_does_not_count() {
    let mut scanner = Scanner::new();
    assert_eq!(
        scanner.handle_event(InputEvent::KeyPress { key: KeyId::ShiftLeft }, 1_000),
        None
    );
    assert_eq!(
        scanner.handle_event(InputEvent::KeyPress { key: KeyId::ShiftLeft }, 1_100),
        None
    );
    assert_eq!(scanner.state.press_count, 0);
}

#[test]
fn configured_key_counts_after_update() {
    let mut scanner = Scanner::new();
    scanner.update_hotkey_config(HotkeyConfig {
        trigger_key: TriggerKey::Shift,
        trigger_mode: TriggerMode::DoublePress,
        interval_ms: 1_000,
    });
    assert_eq!(
        scanner.handle_event(InputEvent::KeyPress { key: KeyId::ShiftLeft }, 5_000),
        None
    );
    assert_eq!(
        scanner.handle_event(InputEvent::KeyPress { key: KeyId::ShiftRight }, 5_900),
        Some(GestureSignal::ShowPopup { x: 0, y: 0 })
    );
}

#[test]
fn escape_always_hides() {
    let mut scanner = Scanner::new();
    assert_eq!(
        scanner.handle_event(InputEvent::KeyPress { key: KeyId::Escape }, 1_000),
        Some(GestureSignal::HidePopup)
    );
    scanner.update_hotkey_config(select_move_config());
    assert_eq!(
        scanner.handle_event(InputEvent::KeyPress { key: KeyId::Escape }, 2_000),
        Some(GestureSignal::HidePopup)
    );
}

#[test]
fn short_drag_does_not_arm() {
    // a 40-pixel drag is not strictly above the threshold
    let mut scanner = Scanner::new();
    scanner.update_hotkey_config(select_move_config());
    scanner.handle_event(InputEvent::PointerMove { x: 0, y: 0 }, 1_000);
    assert_eq!(
        scanner.handle_event(InputEvent::PrimaryPress, 1_001),
        Some(GestureSignal::HidePopup)
    );
    scanner.handle_event(InputEvent::PointerMove { x: 40, y: 0 }, 1_002);
    assert_eq!(scanner.handle_event(InputEvent::PrimaryRelease, 1_003), None);
    assert!(scanner.state.pending_selection.is_none());
    assert!(scanner.state.drag_start.is_none());
}

#[test]
fn long_drag_arms_pending_selection() {
    let mut scanner = Scanner::new();
    scanner.update_hotkey_config(select_move_config());
    scanner.handle_event(InputEvent::PointerMove { x: 0, y: 0 }, 1_000);
    scanner.handle_event(InputEvent::PrimaryPress, 1_001);
    scanner.handle_event(InputEvent::PointerMove { x: 41, y: 0 }, 1_002);
    assert_eq!(scanner.handle_event(InputEvent::PrimaryRelease, 1_003), None);
    let pending = scanner.state.pending_selection.expect("armed");
    assert_eq!((pending.x, pending.y, pending.at_ms), (41, 0, 1_003));
}

#[test]
fn select_move_triggers_once_within_window() {
    let mut scanner = Scanner::new();
    scanner.update_hotkey_config(select_move_config());
    scanner.handle_event(InputEvent::PointerMove { x: 100, y: 100 }, 1_000);
    scanner.handle_event(InputEvent::PrimaryPress, 1_001);
    scanner.handle_event(InputEvent::PointerMove { x: 200, y: 100 }, 1_002);
    scanner.handle_event(InputEvent::PrimaryRelease, 1_003);
    // a 31-pixel move within 2 seconds: exactly one popup, at the move
    let g = scanner.handle_event(InputEvent::PointerMove { x: 231, y: 100 }, 2_000);
    assert_eq!(g, Some(GestureSignal::ShowPopup { x: 231, y: 100 }));
    assert!(scanner.state.pending_selection.is_none());
    // the same movement again: disarmed, nothing fires
    let g2 = scanner.handle_event(InputEvent::PointerMove { x: 262, y: 100 }, 2_100);
    assert_eq!(g2, None);
}

#[test]
fn select_move_expires_after_window() {
    let mut scanner = Scanner::new();
    scanner.update_hotkey_config(select_move_config());
    scanner.handle_event(InputEvent::PointerMove { x: 200, y: 100 }, 1_000);
    scanner.handle_event(InputEvent::PrimaryPress, 1_001);
    scanner.handle_event(InputEvent::PointerMove { x: 300, y: 100 }, 1_002);
    scanner.handle_event(InputEvent::PrimaryRelease, 1_003);
    // 2 seconds later the window has closed: nothing fires, the record clears
    let g = scanner.handle_event(InputEvent::PointerMove { x: 400, y: 100 }, 3_003);
    assert_eq!(g, None);
    assert!(scanner.state.pending_selection.is_none());
}

#[test]
fn small_move_keeps_pending_armed() {
    let mut scanner = Scanner::new();
    scanner.update_hotkey_config(select_move_config());
    scanner.handle_event(InputEvent::PointerMove { x: 0, y: 0 }, 1_000);
    scanner.handle_event(InputEvent::PrimaryPress, 1_001);
    scanner.handle_event(InputEvent::PointerMove { x: 100, y: 0 }, 1_002);
    scanner.handle_event(InputEvent::PrimaryRelease, 1_003);
    // a 30-pixel move is not strictly above the threshold: still armed
    let g = scanner.handle_event(InputEvent::PointerMove { x: 130, y: 0 }, 1_500);
    assert_eq!(g, None);
    assert!(scanner.state.pending_selection.is_some());
}

#[test]
fn double_press_mode_ignores_pending_moves() {
    let mut scanner = Scanner::new();
    // default mode is DoublePress: a drag still arms, but moves never trigger
    scanner.handle_event(InputEvent::PointerMove { x: 0, y: 0 }, 1_000);
    scanner.handle_event(InputEvent::PrimaryPress, 1_001);
    scanner.handle_event(InputEvent::PointerMove { x: 100, y: 0 }, 1_002);
    scanner.handle_event(InputEvent::PrimaryRelease, 1_003);
    assert!(scanner.state.pending_selection.is_some());
    let g = scanner.handle_event(InputEvent::PointerMove { x: 200, y: 0 }, 1_500);
    assert_eq!(g, None);
    assert!(scanner.state.pending_selection.is_some());
}

#[test]
fn button_press_disarms_and_hides() {
    let mut scanner = Scanner::new();
    scanner.update_hotkey_config(select_move_config());
    scanner.handle_event(InputEvent::PointerMove { x: 0, y: 0 }, 1_000);
    scanner.handle_event(InputEvent::PrimaryPress, 1_001);
    scanner.handle_event(InputEvent::PointerMove { x: 100, y: 0 }, 1_002);
    scanner.handle_event(InputEvent::PrimaryRelease, 1_003);
    assert!(scanner.state.pending_selection.is_some());
    let g = scanner.handle_event(InputEvent::PrimaryPress, 1_004);
    assert_eq!(g, Some(GestureSignal::HidePopup));
    assert!(scanner.state.pending_selection.is_none());
}

#[test]
fn default_config_is_double_ctrl() {
    let scanner = Scanner::new();
    assert_eq!(scanner.hotkey_config.trigger_key, TriggerKey::Ctrl);
    assert_eq!(scanner.hotkey_config.trigger_mode, TriggerMode::DoublePress);
    assert_eq!(scanner.hotkey_config.interval_ms, 400);
}
