//! The input translator: pointer and keyboard translation, clipboard
//! chords, repeat-text fallback, scroll suppression, and queue draining.

use waybridge::input::KeyEvent;
use waybridge::input::KeyboardEvent;
use waybridge::input::MouseEvent;
use waybridge::input::PointerEvent;
use waybridge::input::PointerEventKind;
use waybridge::input::RawModifiers;
use waybridge::input::UiEvent;
use waybridge::input::WaylandToIcedInput;
use waybridge::keymap::LogicalKey;
use waybridge::keymap::MouseButton;
use waybridge::keymap::NamedKey;

fn key(keysym: u32, raw_code: u32, utf8: Option<&str>) -> KeyEvent {
    KeyEvent {
        keysym,
        raw_code,
        utf8: utf8.map(|t| t.to_string()),
    }
}

fn mods(ctrl: bool, shift: bool, alt: bool) -> RawModifiers {
    RawModifiers {
        ctrl,
        alt,
        shift,
        caps_lock: false,
        logo: false,
        num_lock: false,
    }
}

fn pointer(kind: PointerEventKind, x: i64, y: i64) -> PointerEvent {
    PointerEvent { x, y, kind }
}

#[test]
fn enter_and_motion_snapshot_the_position() {
    let mut input = WaylandToIcedInput::new();
    input.handle_pointer_event(&pointer(PointerEventKind::Enter, 10, 20));
    assert_eq!(input.get_pointer_position(), (10, 20));
    input.handle_pointer_event(&pointer(PointerEventKind::Motion, 33, 44));
    assert_eq!(input.get_pointer_position(), (33, 44));
    let events = input.take_events();
    assert_eq!(
        events,
        vec![
            UiEvent::Mouse(MouseEvent::CursorEntered),
            UiEvent::Mouse(MouseEvent::CursorMoved { x: 33, y: 44 }),
        ]
    );
}

#[test]
fn leaving_does_not_move_the_position() {
    let mut input = WaylandToIcedInput::new();
    input.handle_pointer_event(&pointer(PointerEventKind::Motion, 5, 6));
    input.handle_pointer_event(&pointer(PointerEventKind::Leave, 99, 99));
    assert_eq!(input.get_pointer_position(), (5, 6));
    let events = input.take_events();
    assert_eq!(events[1], UiEvent::Mouse(MouseEvent::CursorLeft));
}

#[test]
fn primary_button_press_queues_exactly_one_event() {
    let mut input = WaylandToIcedInput::new();
    input.handle_pointer_event(&pointer(PointerEventKind::Press { button: 0x110 }, 0, 0));
    let events = input.take_events();
    assert_eq!(
        events,
        vec![UiEvent::Mouse(MouseEvent::ButtonPressed(MouseButton::Left))]
    );
}

#[test]
fn unrecognized_buttons_are_silently_ignored() {
    let mut input = WaylandToIcedInput::new();
    input.handle_pointer_event(&pointer(PointerEventKind::Press { button: 0x119 }, 0, 0));
    input.handle_pointer_event(&pointer(PointerEventKind::Release { button: 0x119 }, 0, 0));
    assert_eq!(input.take_events(), Vec::<UiEvent>::new());
}

#[test]
fn continuous_only_scroll_is_suppressed() {
    let mut input = WaylandToIcedInput::new();
    input.handle_pointer_event(&pointer(
        PointerEventKind::Axis {
            horizontal_discrete: 0,
            vertical_discrete: 0,
        },
        0,
        0,
    ));
    assert_eq!(input.take_events(), Vec::<UiEvent>::new());
}

#[test]
fn discrete_scroll_queues_exactly_one_wheel_event() {
    let mut input = WaylandToIcedInput::new();
    input.handle_pointer_event(&pointer(
        PointerEventKind::Axis {
            horizontal_discrete: 0,
            vertical_discrete: 1,
        },
        0,
        0,
    ));
    let events = input.take_events();
    assert_eq!(
        events,
        vec![UiEvent::Mouse(MouseEvent::WheelScrolled {
            lines_x: 0,
            lines_y: 1
        })]
    );
}

#[test]
fn ctrl_c_emits_one_synthetic_copy_and_no_literal_press() {
    let mut input = WaylandToIcedInput::new();
    input.update_modifiers(&mods(true, false, false));
    input.handle_keyboard_event(&key(xkeysym::key::c, 54, Some("\u{3}")), true, false);
    let events = input.take_events();
    assert_eq!(events.len(), 1);
    match &events[0] {
        UiEvent::Keyboard(KeyboardEvent::KeyPressed {
            key,
            text,
            repeat,
            ..
        }) => {
            assert_eq!(*key, LogicalKey::Named(NamedKey::Copy));
            assert_eq!(*text, None);
            assert!(!repeat);
        }
        other => panic!("expected a synthetic copy press, got {:?}", other),
    }
    // Releasing c is an ordinary literal release: chord suppression applies
    // only to press translation.
    input.handle_keyboard_event(&key(xkeysym::key::c, 54, None), false, false);
    let events = input.take_events();
    assert_eq!(events.len(), 1);
    assert!(matches!(
        &events[0],
        UiEvent::Keyboard(KeyboardEvent::KeyReleased { .. })
    ));
}

#[test]
fn ctrl_x_and_ctrl_v_emit_cut_and_paste() {
    let mut input = WaylandToIcedInput::new();
    input.update_modifiers(&mods(true, false, false));
    input.handle_keyboard_event(&key(xkeysym::key::x, 53, None), true, false);
    input.handle_keyboard_event(&key(xkeysym::key::v, 55, None), true, false);
    let events = input.take_events();
    let keys: Vec<LogicalKey> = events
        .iter()
        .map(|e| match e {
            UiEvent::Keyboard(KeyboardEvent::KeyPressed { key, .. }) => *key,
            other => panic!("expected presses, got {:?}", other),
        })
        .collect();
    assert_eq!(
        keys,
        vec![
            LogicalKey::Named(NamedKey::Cut),
            LogicalKey::Named(NamedKey::Paste),
        ]
    );
}

#[test]
fn without_ctrl_the_c_key_passes_through() {
    let mut input = WaylandToIcedInput::new();
    input.handle_keyboard_event(&key(xkeysym::key::c, 54, Some("c")), true, false);
    let events = input.take_events();
    match &events[0] {
        UiEvent::Keyboard(KeyboardEvent::KeyPressed { key, text, .. }) => {
            assert_eq!(*key, LogicalKey::Unidentified);
            assert_eq!(text.as_deref(), Some("c"));
        }
        other => panic!("expected a literal press, got {:?}", other),
    }
}

#[test]
fn a_chord_repeat_is_not_intercepted() {
    let mut input = WaylandToIcedInput::new();
    input.update_modifiers(&mods(true, false, false));
    input.handle_keyboard_event(&key(xkeysym::key::c, 54, None), true, true);
    let events = input.take_events();
    match &events[0] {
        UiEvent::Keyboard(KeyboardEvent::KeyPressed { key, repeat, .. }) => {
            assert_eq!(*key, LogicalKey::Unidentified);
            assert!(repeat);
        }
        other => panic!("expected a literal repeat, got {:?}", other),
    }
}

#[test]
fn repeat_without_text_falls_back_to_the_last_press_text() {
    let mut input = WaylandToIcedInput::new();
    input.handle_keyboard_event(&key(xkeysym::key::a, 38, Some("a")), true, false);
    input.handle_keyboard_event(&key(xkeysym::key::a, 38, None), true, true);
    let events = input.take_events();
    match &events[1] {
        UiEvent::Keyboard(KeyboardEvent::KeyPressed { text, repeat, .. }) => {
            assert_eq!(text.as_deref(), Some("a"));
            assert!(repeat);
        }
        other => panic!("expected a repeat press, got {:?}", other),
    }
}

#[test]
fn a_repeat_with_its_own_text_prefers_it() {
    let mut input = WaylandToIcedInput::new();
    input.handle_keyboard_event(&key(xkeysym::key::a, 38, Some("a")), true, false);
    input.handle_keyboard_event(&key(xkeysym::key::b, 56, Some("b")), true, true);
    let events = input.take_events();
    match &events[1] {
        UiEvent::Keyboard(KeyboardEvent::KeyPressed { text, .. }) => {
            assert_eq!(text.as_deref(), Some("b"));
        }
        other => panic!("expected a repeat press, got {:?}", other),
    }
}

#[test]
fn control_characters_are_never_forwarded_as_text() {
    let mut input = WaylandToIcedInput::new();
    input.handle_keyboard_event(&key(xkeysym::key::Escape, 9, Some("\u{1b}")), true, false);
    let events = input.take_events();
    match &events[0] {
        UiEvent::Keyboard(KeyboardEvent::KeyPressed { text, .. }) => {
            assert_eq!(*text, None);
        }
        other => panic!("expected a press, got {:?}", other),
    }
}

#[test]
fn modifier_updates_replace_the_whole_set() {
    let mut input = WaylandToIcedInput::new();
    input.update_modifiers(&mods(true, true, false));
    assert!(input.get_modifiers().ctrl);
    assert!(input.get_modifiers().shift);
    input.update_modifiers(&mods(false, false, true));
    let m = input.get_modifiers();
    assert!(!m.ctrl && !m.shift && m.alt && !m.logo);
}

#[test]
fn taking_events_drains_the_queue_in_order() {
    let mut input = WaylandToIcedInput::new();
    input.handle_pointer_event(&pointer(PointerEventKind::Enter, 1, 1));
    input.handle_pointer_event(&pointer(PointerEventKind::Motion, 2, 2));
    let first = input.take_events();
    assert_eq!(first.len(), 2);
    assert_eq!(input.take_events(), Vec::<UiEvent>::new());
}
