//! The pure mapping tables: key symbols against the real protocol
//! constants, logical and physical key identity, and button identity.

use waybridge::keymap::KeyCode;
use waybridge::keymap::KeyLocation;
use waybridge::keymap::LogicalKey;
use waybridge::keymap::MouseButton;
use waybridge::keymap::NamedKey;
use waybridge::keymap::PhysicalKey;
use waybridge::keymap::keysym_to_iced_key_and_loc;
use waybridge::keymap::map_logical_key;
use waybridge::keymap::map_physical_key;
use waybridge::keymap::wayland_button_to_iced;

#[test]
fn keysym_constants_match_the_protocol_crate() {
    assert_eq!(waybridge::keymap::KEYSYM_BACKSPACE, xkeysym::key::BackSpace);
    assert_eq!(waybridge::keymap::KEYSYM_TAB, xkeysym::key::Tab);
    assert_eq!(waybridge::keymap::KEYSYM_RETURN, xkeysym::key::Return);
    assert_eq!(waybridge::keymap::KEYSYM_ESCAPE, xkeysym::key::Escape);
    assert_eq!(waybridge::keymap::KEYSYM_DELETE, xkeysym::key::Delete);
    assert_eq!(waybridge::keymap::KEYSYM_HOME, xkeysym::key::Home);
    assert_eq!(waybridge::keymap::KEYSYM_LEFT, xkeysym::key::Left);
    assert_eq!(waybridge::keymap::KEYSYM_PAGE_DOWN, xkeysym::key::Page_Down);
    assert_eq!(waybridge::keymap::KEYSYM_F1, xkeysym::key::F1);
    assert_eq!(waybridge::keymap::KEYSYM_F12, xkeysym::key::F12);
    assert_eq!(waybridge::keymap::KEYSYM_F35, xkeysym::key::F35);
    assert_eq!(waybridge::keymap::KEYSYM_KP_ENTER, xkeysym::key::KP_Enter);
    assert_eq!(waybridge::keymap::KEYSYM_KP_0, xkeysym::key::KP_0);
    assert_eq!(waybridge::keymap::KEYSYM_KP_DIVIDE, xkeysym::key::KP_Divide);
    assert_eq!(waybridge::keymap::KEYSYM_SHIFT_L, xkeysym::key::Shift_L);
    assert_eq!(waybridge::keymap::KEYSYM_SHIFT_R, xkeysym::key::Shift_R);
    assert_eq!(waybridge::keymap::KEYSYM_CONTROL_L, xkeysym::key::Control_L);
    assert_eq!(waybridge::keymap::KEYSYM_ALT_R, xkeysym::key::Alt_R);
    assert_eq!(waybridge::keymap::KEYSYM_SUPER_L, xkeysym::key::Super_L);
    assert_eq!(waybridge::keymap::KEYSYM_HYPER_R, xkeysym::key::Hyper_R);
    assert_eq!(
        waybridge::keymap::KEYSYM_ISO_LEVEL3_SHIFT,
        xkeysym::key::ISO_Level3_Shift
    );
    assert_eq!(waybridge::keymap::KEYSYM_ISO_ENTER, xkeysym::key::ISO_Enter);
    assert_eq!(
        waybridge::keymap::KEYSYM_3270_ERASE_EOF,
        xkeysym::key::_3270_EraseEOF
    );
    assert_eq!(waybridge::keymap::KEYSYM_3270_ENTER, xkeysym::key::_3270_Enter);
    assert_eq!(waybridge::keymap::KEYSYM_SPACE, xkeysym::key::space);
    assert_eq!(waybridge::keymap::KEYSYM_A, xkeysym::key::a);
    assert_eq!(waybridge::keymap::KEYSYM_C, xkeysym::key::c);
    assert_eq!(waybridge::keymap::KEYSYM_V, xkeysym::key::v);
    assert_eq!(waybridge::keymap::KEYSYM_X, xkeysym::key::x);
    assert_eq!(waybridge::keymap::KEYSYM_Z, xkeysym::key::z);
    assert_eq!(waybridge::keymap::KEYSYM_UPPER_A, xkeysym::key::A);
    assert_eq!(waybridge::keymap::KEYSYM_UPPER_Z, xkeysym::key::Z);
    assert_eq!(waybridge::keymap::KEYSYM_0, xkeysym::key::_0);
    assert_eq!(waybridge::keymap::KEYSYM_9, xkeysym::key::_9);
    assert_eq!(waybridge::keymap::KEYSYM_GRAVE, xkeysym::key::grave);
    assert_eq!(waybridge::keymap::KEYSYM_SEMICOLON, xkeysym::key::semicolon);
    assert_eq!(
        waybridge::keymap::KEYSYM_XF86_AUDIO_PLAY,
        xkeysym::key::XF86_AudioPlay
    );
    assert_eq!(
        waybridge::keymap::KEYSYM_XF86_AUDIO_MUTE,
        xkeysym::key::XF86_AudioMute
    );
    assert_eq!(waybridge::keymap::KEYSYM_XF86_COPY, xkeysym::key::XF86_Copy);
    assert_eq!(
        waybridge::keymap::KEYSYM_XF86_CALCULATER,
        xkeysym::key::XF86_Calculater
    );
    assert_eq!(
        waybridge::keymap::KEYSYM_XF86_NEXT_VMODE,
        xkeysym::key::XF86_Next_VMode
    );
    assert_eq!(waybridge::keymap::KEYSYM_SUN_COPY, xkeysym::key::SUN_Copy);
    assert_eq!(
        waybridge::keymap::KEYSYM_SUN_VIDEO_RAISE_BRIGHTNESS,
        xkeysym::key::SUN_VideoRaiseBrightness
    );
    assert_eq!(waybridge::keymap::KEYSYM_MENU, xkeysym::key::Menu);
    assert_eq!(waybridge::keymap::KEYSYM_KATAKANA, xkeysym::key::Katakana);
    assert_eq!(waybridge::keymap::KEYSYM_HENKAN_MODE, xkeysym::key::Henkan_Mode);
}

#[test]
fn named_keys_map_with_standard_location() {
    assert_eq!(
        map_logical_key(waybridge::keymap::KEYSYM_BACKSPACE),
        (LogicalKey::Named(NamedKey::Backspace), KeyLocation::Standard)
    );
    assert_eq!(
        map_logical_key(waybridge::keymap::KEYSYM_RETURN),
        (LogicalKey::Named(NamedKey::Enter), KeyLocation::Standard)
    );
    assert_eq!(
        map_logical_key(waybridge::keymap::KEYSYM_SPACE),
        (LogicalKey::Named(NamedKey::Space), KeyLocation::Standard)
    );
    assert_eq!(
        map_logical_key(waybridge::keymap::KEYSYM_F13),
        (LogicalKey::Named(NamedKey::F13), KeyLocation::Standard)
    );
    assert_eq!(
        map_logical_key(waybridge::keymap::KEYSYM_XF86_AUDIO_PLAY),
        (LogicalKey::Named(NamedKey::MediaPlay), KeyLocation::Standard)
    );
    assert_eq!(
        map_logical_key(waybridge::keymap::KEYSYM_SUN_COPY),
        (LogicalKey::Named(NamedKey::Copy), KeyLocation::Standard)
    );
}

#[test]
fn modifier_keys_carry_their_side() {
    assert_eq!(
        map_logical_key(waybridge::keymap::KEYSYM_SHIFT_L),
        (LogicalKey::Named(NamedKey::Shift), KeyLocation::Left)
    );
    assert_eq!(
        map_logical_key(waybridge::keymap::KEYSYM_SHIFT_R),
        (LogicalKey::Named(NamedKey::Shift), KeyLocation::Right)
    );
    assert_eq!(
        map_logical_key(waybridge::keymap::KEYSYM_CONTROL_L),
        (LogicalKey::Named(NamedKey::Control), KeyLocation::Left)
    );
    assert_eq!(
        map_logical_key(waybridge::keymap::KEYSYM_SUPER_R),
        (LogicalKey::Named(NamedKey::Super), KeyLocation::Right)
    );
}

#[test]
fn keypad_keys_carry_the_numpad_location() {
    assert_eq!(
        map_logical_key(waybridge::keymap::KEYSYM_KP_ENTER),
        (LogicalKey::Named(NamedKey::Enter), KeyLocation::Numpad)
    );
    assert_eq!(
        map_logical_key(waybridge::keymap::KEYSYM_KP_HOME),
        (LogicalKey::Named(NamedKey::Home), KeyLocation::Numpad)
    );
    // Keypad digits have no named logical key, but still sit on the numpad.
    assert_eq!(
        map_logical_key(waybridge::keymap::KEYSYM_KP_7),
        (LogicalKey::Unidentified, KeyLocation::Numpad)
    );
}

#[test]
fn out_of_table_symbols_still_map() {
    // Letters and arbitrary symbols have no named logical key; the mapping
    // is total and yields an explicit value rather than dropping them.
    assert_eq!(
        map_logical_key(waybridge::keymap::KEYSYM_A),
        (LogicalKey::Unidentified, KeyLocation::Standard)
    );
    assert_eq!(
        map_logical_key(0x1234_5678),
        (LogicalKey::Unidentified, KeyLocation::Standard)
    );
}

#[test]
fn the_toolkit_facing_name_is_an_alias() {
    let sym = waybridge::keymap::KEYSYM_PAGE_UP;
    assert_eq!(keysym_to_iced_key_and_loc(sym), map_logical_key(sym));
}

#[test]
fn physical_keys_map_by_symbol() {
    assert_eq!(
        map_physical_key(waybridge::keymap::KEYSYM_A, 38),
        PhysicalKey::Code(KeyCode::KeyA)
    );
    assert_eq!(
        map_physical_key(waybridge::keymap::KEYSYM_UPPER_A, 38),
        PhysicalKey::Code(KeyCode::KeyA)
    );
    assert_eq!(
        map_physical_key(waybridge::keymap::KEYSYM_5, 14),
        PhysicalKey::Code(KeyCode::Digit5)
    );
    assert_eq!(
        map_physical_key(waybridge::keymap::KEYSYM_KP_5, 76),
        PhysicalKey::Code(KeyCode::Numpad5)
    );
    assert_eq!(
        map_physical_key(waybridge::keymap::KEYSYM_XF86_AUDIO_PLAY, 172),
        PhysicalKey::Code(KeyCode::MediaPlayPause)
    );
    assert_eq!(
        map_physical_key(waybridge::keymap::KEYSYM_KATAKANA, 98),
        PhysicalKey::Code(KeyCode::Lang3)
    );
}

#[test]
fn unmapped_physical_keys_carry_the_scan_code_verbatim() {
    assert_eq!(map_physical_key(0xdead_beef, 42), PhysicalKey::Unidentified(42));
    // The multi-candidate IME symbol has a logical key but no physical code.
    assert_eq!(
        map_physical_key(waybridge::keymap::KEYSYM_MULTIPLE_CANDIDATE, 7),
        PhysicalKey::Unidentified(7)
    );
}

#[test]
fn recognized_buttons_map_and_others_vanish() {
    assert_eq!(wayland_button_to_iced(0x110), Some(MouseButton::Left));
    assert_eq!(wayland_button_to_iced(0x111), Some(MouseButton::Right));
    assert_eq!(wayland_button_to_iced(0x112), Some(MouseButton::Middle));
    assert_eq!(wayland_button_to_iced(0x113), None);
    assert_eq!(wayland_button_to_iced(0), None);
}
