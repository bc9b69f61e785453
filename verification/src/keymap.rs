//! Layout-dependent and layout-independent key identity, and pointer
//! button identity: the pure mapping tables of the input path.
//!
//! A raw keyboard symbol (an X-style keysym, carried as `u32`) is mapped
//! to a logical key plus a location on the keyboard, and, together with
//! the hardware scan code, to a physical key.  Both mappings are total:
//! a symbol outside the tables yields an explicit `Unidentified` value,
//! never a missing result.

use vstd::prelude::*;

verus! {

pub const KEYSYM_BACKSPACE: u32 = 0xff08;
pub const KEYSYM_TAB: u32 = 0xff09;
pub const KEYSYM_CLEAR: u32 = 0xff0b;
pub const KEYSYM_RETURN: u32 = 0xff0d;
pub const KEYSYM_PAUSE: u32 = 0xff13;
pub const KEYSYM_SCROLL_LOCK: u32 = 0xff14;
pub const KEYSYM_SYS_REQ: u32 = 0xff15;
pub const KEYSYM_ESCAPE: u32 = 0xff1b;
pub const KEYSYM_DELETE: u32 = 0xffff;
pub const KEYSYM_MULTI_KEY: u32 = 0xff20;
pub const KEYSYM_CODEINPUT: u32 = 0xff37;
pub const KEYSYM_SINGLE_CANDIDATE: u32 = 0xff3c;
pub const KEYSYM_MULTIPLE_CANDIDATE: u32 = 0xff3d;
pub const KEYSYM_PREVIOUS_CANDIDATE: u32 = 0xff3e;
pub const KEYSYM_KANJI: u32 = 0xff21;
pub const KEYSYM_MUHENKAN: u32 = 0xff22;
pub const KEYSYM_HENKAN_MODE: u32 = 0xff23;
pub const KEYSYM_ROMAJI: u32 = 0xff24;
pub const KEYSYM_HIRAGANA: u32 = 0xff25;
pub const KEYSYM_KATAKANA: u32 = 0xff26;
pub const KEYSYM_HIRAGANA_KATAKANA: u32 = 0xff27;
pub const KEYSYM_ZENKAKU: u32 = 0xff28;
pub const KEYSYM_HANKAKU: u32 = 0xff29;
pub const KEYSYM_ZENKAKU_HANKAKU: u32 = 0xff2a;
pub const KEYSYM_KANA_LOCK: u32 = 0xff2d;
pub const KEYSYM_KANA_SHIFT: u32 = 0xff2e;
pub const KEYSYM_EISU_SHIFT: u32 = 0xff2f;
pub const KEYSYM_EISU_TOGGLE: u32 = 0xff30;
pub const KEYSYM_HOME: u32 = 0xff50;
pub const KEYSYM_LEFT: u32 = 0xff51;
pub const KEYSYM_UP: u32 = 0xff52;
pub const KEYSYM_RIGHT: u32 = 0xff53;
pub const KEYSYM_DOWN: u32 = 0xff54;
pub const KEYSYM_PAGE_UP: u32 = 0xff55;
pub const KEYSYM_PAGE_DOWN: u32 = 0xff56;
pub const KEYSYM_END: u32 = 0xff57;
pub const KEYSYM_BEGIN: u32 = 0xff58;
pub const KEYSYM_SELECT: u32 = 0xff60;
pub const KEYSYM_PRINT: u32 = 0xff61;
pub const KEYSYM_EXECUTE: u32 = 0xff62;
pub const KEYSYM_INSERT: u32 = 0xff63;
pub const KEYSYM_UNDO: u32 = 0xff65;
pub const KEYSYM_REDO: u32 = 0xff66;
pub const KEYSYM_MENU: u32 = 0xff67;
pub const KEYSYM_FIND: u32 = 0xff68;
pub const KEYSYM_CANCEL: u32 = 0xff69;
pub const KEYSYM_HELP: u32 = 0xff6a;
pub const KEYSYM_BREAK: u32 = 0xff6b;
pub const KEYSYM_MODE_SWITCH: u32 = 0xff7e;
pub const KEYSYM_NUM_LOCK: u32 = 0xff7f;
pub const KEYSYM_KP_SPACE: u32 = 0xff80;
pub const KEYSYM_KP_TAB: u32 = 0xff89;
pub const KEYSYM_KP_ENTER: u32 = 0xff8d;
pub const KEYSYM_KP_F1: u32 = 0xff91;
pub const KEYSYM_KP_F2: u32 = 0xff92;
pub const KEYSYM_KP_F3: u32 = 0xff93;
pub const KEYSYM_KP_F4: u32 = 0xff94;
pub const KEYSYM_KP_HOME: u32 = 0xff95;
pub const KEYSYM_KP_LEFT: u32 = 0xff96;
pub const KEYSYM_KP_UP: u32 = 0xff97;
pub const KEYSYM_KP_RIGHT: u32 = 0xff98;
pub const KEYSYM_KP_DOWN: u32 = 0xff99;
pub const KEYSYM_KP_PAGE_UP: u32 = 0xff9a;
pub const KEYSYM_KP_PAGE_DOWN: u32 = 0xff9b;
pub const KEYSYM_KP_END: u32 = 0xff9c;
pub const KEYSYM_KP_BEGIN: u32 = 0xff9d;
pub const KEYSYM_KP_INSERT: u32 = 0xff9e;
pub const KEYSYM_KP_DELETE: u32 = 0xff9f;
pub const KEYSYM_KP_MULTIPLY: u32 = 0xffaa;
pub const KEYSYM_KP_ADD: u32 = 0xffab;
pub const KEYSYM_KP_SEPARATOR: u32 = 0xffac;
pub const KEYSYM_KP_SUBTRACT: u32 = 0xffad;
pub const KEYSYM_KP_DECIMAL: u32 = 0xffae;
pub const KEYSYM_KP_DIVIDE: u32 = 0xffaf;
pub const KEYSYM_KP_0: u32 = 0xffb0;
pub const KEYSYM_KP_1: u32 = 0xffb1;
pub const KEYSYM_KP_2: u32 = 0xffb2;
pub const KEYSYM_KP_3: u32 = 0xffb3;
pub const KEYSYM_KP_4: u32 = 0xffb4;
pub const KEYSYM_KP_5: u32 = 0xffb5;
pub const KEYSYM_KP_6: u32 = 0xffb6;
pub const KEYSYM_KP_7: u32 = 0xffb7;
pub const KEYSYM_KP_8: u32 = 0xffb8;
pub const KEYSYM_KP_9: u32 = 0xffb9;
pub const KEYSYM_KP_EQUAL: u32 = 0xffbd;
pub const KEYSYM_F1: u32 = 0xffbe;
pub const KEYSYM_F2: u32 = 0xffbf;
pub const KEYSYM_F3: u32 = 0xffc0;
pub const KEYSYM_F4: u32 = 0xffc1;
pub const KEYSYM_F5: u32 = 0xffc2;
pub const KEYSYM_F6: u32 = 0xffc3;
pub const KEYSYM_F7: u32 = 0xffc4;
pub const KEYSYM_F8: u32 = 0xffc5;
pub const KEYSYM_F9: u32 = 0xffc6;
pub const KEYSYM_F10: u32 = 0xffc7;
pub const KEYSYM_F11: u32 = 0xffc8;
pub const KEYSYM_F12: u32 = 0xffc9;
pub const KEYSYM_F13: u32 = 0xffca;
pub const KEYSYM_F14: u32 = 0xffcb;
pub const KEYSYM_F15: u32 = 0xffcc;
pub const KEYSYM_F16: u32 = 0xffcd;
pub const KEYSYM_F17: u32 = 0xffce;
pub const KEYSYM_F18: u32 = 0xffcf;
pub const KEYSYM_F19: u32 = 0xffd0;
pub const KEYSYM_F20: u32 = 0xffd1;
pub const KEYSYM_F21: u32 = 0xffd2;
pub const KEYSYM_F22: u32 = 0xffd3;
pub const KEYSYM_F23: u32 = 0xffd4;
pub const KEYSYM_F24: u32 = 0xffd5;
pub const KEYSYM_F25: u32 = 0xffd6;
pub const KEYSYM_F26: u32 = 0xffd7;
pub const KEYSYM_F27: u32 = 0xffd8;
pub const KEYSYM_F28: u32 = 0xffd9;
pub const KEYSYM_F29: u32 = 0xffda;
pub const KEYSYM_F30: u32 = 0xffdb;
pub const KEYSYM_F31: u32 = 0xffdc;
pub const KEYSYM_F32: u32 = 0xffdd;
pub const KEYSYM_F33: u32 = 0xffde;
pub const KEYSYM_F34: u32 = 0xffdf;
pub const KEYSYM_F35: u32 = 0xffe0;
pub const KEYSYM_SHIFT_L: u32 = 0xffe1;
pub const KEYSYM_SHIFT_R: u32 = 0xffe2;
pub const KEYSYM_CONTROL_L: u32 = 0xffe3;
pub const KEYSYM_CONTROL_R: u32 = 0xffe4;
pub const KEYSYM_CAPS_LOCK: u32 = 0xffe5;
pub const KEYSYM_ALT_L: u32 = 0xffe9;
pub const KEYSYM_ALT_R: u32 = 0xffea;
pub const KEYSYM_SUPER_L: u32 = 0xffeb;
pub const KEYSYM_SUPER_R: u32 = 0xffec;
pub const KEYSYM_HYPER_L: u32 = 0xffed;
pub const KEYSYM_HYPER_R: u32 = 0xffee;
pub const KEYSYM_ISO_LEVEL3_SHIFT: u32 = 0xfe03;
pub const KEYSYM_ISO_LEVEL3_LATCH: u32 = 0xfe04;
pub const KEYSYM_ISO_LEVEL3_LOCK: u32 = 0xfe05;
pub const KEYSYM_ISO_NEXT_GROUP: u32 = 0xfe08;
pub const KEYSYM_ISO_PREV_GROUP: u32 = 0xfe0a;
pub const KEYSYM_ISO_FIRST_GROUP: u32 = 0xfe0c;
pub const KEYSYM_ISO_LAST_GROUP: u32 = 0xfe0e;
pub const KEYSYM_ISO_LEFT_TAB: u32 = 0xfe20;
pub const KEYSYM_ISO_ENTER: u32 = 0xfe34;
pub const KEYSYM_3270_ERASE_EOF: u32 = 0xfd06;
pub const KEYSYM_3270_ATTN: u32 = 0xfd0e;
pub const KEYSYM_3270_PLAY: u32 = 0xfd16;
pub const KEYSYM_3270_EX_SELECT: u32 = 0xfd1b;
pub const KEYSYM_3270_CURSOR_SELECT: u32 = 0xfd1c;
pub const KEYSYM_3270_PRINT_SCREEN: u32 = 0xfd1d;
pub const KEYSYM_3270_ENTER: u32 = 0xfd1e;
pub const KEYSYM_SPACE: u32 = 0x20;
pub const KEYSYM_APOSTROPHE: u32 = 0x27;
pub const KEYSYM_COMMA: u32 = 0x2c;
pub const KEYSYM_MINUS: u32 = 0x2d;
pub const KEYSYM_PERIOD: u32 = 0x2e;
pub const KEYSYM_SLASH: u32 = 0x2f;
pub const KEYSYM_0: u32 = 0x30;
pub const KEYSYM_1: u32 = 0x31;
pub const KEYSYM_2: u32 = 0x32;
pub const KEYSYM_3: u32 = 0x33;
pub const KEYSYM_4: u32 = 0x34;
pub const KEYSYM_5: u32 = 0x35;
pub const KEYSYM_6: u32 = 0x36;
pub const KEYSYM_7: u32 = 0x37;
pub const KEYSYM_8: u32 = 0x38;
pub const KEYSYM_9: u32 = 0x39;
pub const KEYSYM_SEMICOLON: u32 = 0x3b;
pub const KEYSYM_EQUAL: u32 = 0x3d;
pub const KEYSYM_UPPER_A: u32 = 0x41;
pub const KEYSYM_UPPER_B: u32 = 0x42;
pub const KEYSYM_UPPER_C: u32 = 0x43;
pub const KEYSYM_UPPER_D: u32 = 0x44;
pub const KEYSYM_UPPER_E: u32 = 0x45;
pub const KEYSYM_UPPER_F: u32 = 0x46;
pub const KEYSYM_UPPER_G: u32 = 0x47;
pub const KEYSYM_UPPER_H: u32 = 0x48;
pub const KEYSYM_UPPER_I: u32 = 0x49;
pub const KEYSYM_UPPER_J: u32 = 0x4a;
pub const KEYSYM_UPPER_K: u32 = 0x4b;
pub const KEYSYM_UPPER_L: u32 = 0x4c;
pub const KEYSYM_UPPER_M: u32 = 0x4d;
pub const KEYSYM_UPPER_N: u32 = 0x4e;
pub const KEYSYM_UPPER_O: u32 = 0x4f;
pub const KEYSYM_UPPER_P: u32 = 0x50;
pub const KEYSYM_UPPER_Q: u32 = 0x51;
pub const KEYSYM_UPPER_R: u32 = 0x52;
pub const KEYSYM_UPPER_S: u32 = 0x53;
pub const KEYSYM_UPPER_T: u32 = 0x54;
pub const KEYSYM_UPPER_U: u32 = 0x55;
pub const KEYSYM_UPPER_V: u32 = 0x56;
pub const KEYSYM_UPPER_W: u32 = 0x57;
pub const KEYSYM_UPPER_X: u32 = 0x58;
pub const KEYSYM_UPPER_Y: u32 = 0x59;
pub const KEYSYM_UPPER_Z: u32 = 0x5a;
pub const KEYSYM_BRACKET_LEFT: u32 = 0x5b;
pub const KEYSYM_BACKSLASH: u32 = 0x5c;
pub const KEYSYM_BRACKET_RIGHT: u32 = 0x5d;
pub const KEYSYM_GRAVE: u32 = 0x60;
pub const KEYSYM_A: u32 = 0x61;
pub const KEYSYM_B: u32 = 0x62;
pub const KEYSYM_C: u32 = 0x63;
pub const KEYSYM_D: u32 = 0x64;
pub const KEYSYM_E: u32 = 0x65;
pub const KEYSYM_F: u32 = 0x66;
pub const KEYSYM_G: u32 = 0x67;
pub const KEYSYM_H: u32 = 0x68;
pub const KEYSYM_I: u32 = 0x69;
pub const KEYSYM_J: u32 = 0x6a;
pub const KEYSYM_K: u32 = 0x6b;
pub const KEYSYM_L: u32 = 0x6c;
pub const KEYSYM_M: u32 = 0x6d;
pub const KEYSYM_N: u32 = 0x6e;
pub const KEYSYM_O: u32 = 0x6f;
pub const KEYSYM_P: u32 = 0x70;
pub const KEYSYM_Q: u32 = 0x71;
pub const KEYSYM_R: u32 = 0x72;
pub const KEYSYM_S: u32 = 0x73;
pub const KEYSYM_T: u32 = 0x74;
pub const KEYSYM_U: u32 = 0x75;
pub const KEYSYM_V: u32 = 0x76;
pub const KEYSYM_W: u32 = 0x77;
pub const KEYSYM_X: u32 = 0x78;
pub const KEYSYM_Y: u32 = 0x79;
pub const KEYSYM_Z: u32 = 0x7a;
pub const KEYSYM_XF86_MON_BRIGHTNESS_UP: u32 = 0x1008ff02;
pub const KEYSYM_XF86_MON_BRIGHTNESS_DOWN: u32 = 0x1008ff03;
pub const KEYSYM_XF86_STANDBY: u32 = 0x1008ff10;
pub const KEYSYM_XF86_AUDIO_LOWER_VOLUME: u32 = 0x1008ff11;
pub const KEYSYM_XF86_AUDIO_MUTE: u32 = 0x1008ff12;
pub const KEYSYM_XF86_AUDIO_RAISE_VOLUME: u32 = 0x1008ff13;
pub const KEYSYM_XF86_AUDIO_PLAY: u32 = 0x1008ff14;
pub const KEYSYM_XF86_AUDIO_STOP: u32 = 0x1008ff15;
pub const KEYSYM_XF86_AUDIO_PREV: u32 = 0x1008ff16;
pub const KEYSYM_XF86_AUDIO_NEXT: u32 = 0x1008ff17;
pub const KEYSYM_XF86_HOME_PAGE: u32 = 0x1008ff18;
pub const KEYSYM_XF86_MAIL: u32 = 0x1008ff19;
pub const KEYSYM_XF86_SEARCH: u32 = 0x1008ff1b;
pub const KEYSYM_XF86_AUDIO_RECORD: u32 = 0x1008ff1c;
pub const KEYSYM_XF86_CALCULATOR: u32 = 0x1008ff1d;
pub const KEYSYM_XF86_CALENDAR: u32 = 0x1008ff20;
pub const KEYSYM_XF86_POWER_DOWN: u32 = 0x1008ff21;
pub const KEYSYM_XF86_BACK: u32 = 0x1008ff26;
pub const KEYSYM_XF86_FORWARD: u32 = 0x1008ff27;
pub const KEYSYM_XF86_STOP: u32 = 0x1008ff28;
pub const KEYSYM_XF86_REFRESH: u32 = 0x1008ff29;
pub const KEYSYM_XF86_POWER_OFF: u32 = 0x1008ff2a;
pub const KEYSYM_XF86_WAKE_UP: u32 = 0x1008ff2b;
pub const KEYSYM_XF86_EJECT: u32 = 0x1008ff2c;
pub const KEYSYM_XF86_SCREEN_SAVER: u32 = 0x1008ff2d;
pub const KEYSYM_XF86_WWW: u32 = 0x1008ff2e;
pub const KEYSYM_XF86_SLEEP: u32 = 0x1008ff2f;
pub const KEYSYM_XF86_FAVORITES: u32 = 0x1008ff30;
pub const KEYSYM_XF86_AUDIO_PAUSE: u32 = 0x1008ff31;
pub const KEYSYM_XF86_MY_COMPUTER: u32 = 0x1008ff33;
pub const KEYSYM_XF86_AUDIO_REWIND: u32 = 0x1008ff3e;
pub const KEYSYM_XF86_CALCULATER: u32 = 0x1008ff54;
pub const KEYSYM_XF86_CLOSE: u32 = 0x1008ff56;
pub const KEYSYM_XF86_COPY: u32 = 0x1008ff57;
pub const KEYSYM_XF86_CUT: u32 = 0x1008ff58;
pub const KEYSYM_XF86_EXCEL: u32 = 0x1008ff5c;
pub const KEYSYM_XF86_LOG_OFF: u32 = 0x1008ff61;
pub const KEYSYM_XF86_MY_SITES: u32 = 0x1008ff67;
pub const KEYSYM_XF86_NEW: u32 = 0x1008ff68;
pub const KEYSYM_XF86_OPEN: u32 = 0x1008ff6b;
pub const KEYSYM_XF86_PASTE: u32 = 0x1008ff6d;
pub const KEYSYM_XF86_PHONE: u32 = 0x1008ff6e;
pub const KEYSYM_XF86_REPLY: u32 = 0x1008ff72;
pub const KEYSYM_XF86_RELOAD: u32 = 0x1008ff73;
pub const KEYSYM_XF86_SAVE: u32 = 0x1008ff77;
pub const KEYSYM_XF86_SEND: u32 = 0x1008ff7b;
pub const KEYSYM_XF86_SPELL: u32 = 0x1008ff7c;
pub const KEYSYM_XF86_SPLIT_SCREEN: u32 = 0x1008ff7d;
pub const KEYSYM_XF86_VIDEO: u32 = 0x1008ff87;
pub const KEYSYM_XF86_WORD: u32 = 0x1008ff89;
pub const KEYSYM_XF86_ZOOM_IN: u32 = 0x1008ff8b;
pub const KEYSYM_XF86_ZOOM_OUT: u32 = 0x1008ff8c;
pub const KEYSYM_XF86_WEB_CAM: u32 = 0x1008ff8f;
pub const KEYSYM_XF86_MAIL_FORWARD: u32 = 0x1008ff90;
pub const KEYSYM_XF86_MUSIC: u32 = 0x1008ff92;
pub const KEYSYM_XF86_AUDIO_FORWARD: u32 = 0x1008ff97;
pub const KEYSYM_XF86_AUDIO_RANDOM_PLAY: u32 = 0x1008ff99;
pub const KEYSYM_XF86_SUBTITLE: u32 = 0x1008ff9a;
pub const KEYSYM_XF86_AUDIO_CYCLE_TRACK: u32 = 0x1008ff9b;
pub const KEYSYM_XF86_SUSPEND: u32 = 0x1008ffa7;
pub const KEYSYM_XF86_HIBERNATE: u32 = 0x1008ffa8;
pub const KEYSYM_XF86_NEXT_VMODE: u32 = 0x1008fe22;
pub const KEYSYM_SUN_COPY: u32 = 0x1005ff72;
pub const KEYSYM_SUN_OPEN: u32 = 0x1005ff73;
pub const KEYSYM_SUN_PASTE: u32 = 0x1005ff74;
pub const KEYSYM_SUN_CUT: u32 = 0x1005ff75;
pub const KEYSYM_SUN_AUDIO_LOWER_VOLUME: u32 = 0x1005ff77;
pub const KEYSYM_SUN_AUDIO_MUTE: u32 = 0x1005ff78;
pub const KEYSYM_SUN_AUDIO_RAISE_VOLUME: u32 = 0x1005ff79;
pub const KEYSYM_SUN_VIDEO_LOWER_BRIGHTNESS: u32 = 0x1005ff7b;
pub const KEYSYM_SUN_VIDEO_RAISE_BRIGHTNESS: u32 = 0x1005ff7c;

/// Mouse button codes as the input protocol reports them
/// (from the kernel's input event codes).
pub const BTN_CODE_LEFT: u32 = 0x110;

pub const BTN_CODE_RIGHT: u32 = 0x111;

pub const BTN_CODE_MIDDLE: u32 = 0x112;

/// Where on the keyboard a logical key sits.
#[derive(Clone, Copy, PartialEq, Eq, Debug, Structural)]
pub enum KeyLocation {
    Standard,
    Left,
    Right,
    Numpad,
}

/// The named logical keys the UI toolkit understands.
#[derive(Clone, Copy, PartialEq, Eq, Debug, Structural)]
pub enum NamedKey {
    Backspace,
    Tab,
    Clear,
    Enter,
    Pause,
    ScrollLock,
    PrintScreen,
    Escape,
    Delete,
    Compose,
    CodeInput,
    SingleCandidate,
    AllCandidates,
    PreviousCandidate,
    KanjiMode,
    NonConvert,
    Convert,
    Romaji,
    Hiragana,
    HiraganaKatakana,
    Zenkaku,
    Hankaku,
    ZenkakuHankaku,
    KanaMode,
    Alphanumeric,
    Home,
    ArrowLeft,
    ArrowUp,
    ArrowRight,
    ArrowDown,
    PageUp,
    PageDown,
    End,
    Select,
    Execute,
    Insert,
    Undo,
    Redo,
    ContextMenu,
    Find,
    Cancel,
    Help,
    ModeChange,
    NumLock,
    F1,
    F2,
    F3,
    F4,
    F5,
    F6,
    F7,
    F8,
    F9,
    F10,
    F11,
    F12,
    F13,
    F14,
    F15,
    F16,
    F17,
    F18,
    F19,
    F20,
    F21,
    F22,
    F23,
    F24,
    F25,
    F26,
    F27,
    F28,
    F29,
    F30,
    F31,
    F32,
    F33,
    F34,
    F35,
    Shift,
    Control,
    CapsLock,
    Alt,
    Super,
    Hyper,
    AltGraph,
    GroupNext,
    GroupPrevious,
    GroupFirst,
    GroupLast,
    EraseEof,
    Attn,
    Play,
    ExSel,
    CrSel,
    Space,
    BrightnessUp,
    BrightnessDown,
    Standby,
    AudioVolumeDown,
    AudioVolumeUp,
    MediaPlay,
    MediaStop,
    MediaTrackPrevious,
    MediaTrackNext,
    BrowserHome,
    LaunchMail,
    BrowserSearch,
    MediaRecord,
    LaunchApplication2,
    LaunchCalendar,
    Power,
    BrowserBack,
    BrowserForward,
    BrowserRefresh,
    WakeUp,
    Eject,
    LaunchScreenSaver,
    LaunchWebBrowser,
    BrowserFavorites,
    MediaPause,
    LaunchApplication1,
    MediaRewind,
    Close,
    Copy,
    Cut,
    LaunchSpreadsheet,
    LogOff,
    New,
    Open,
    Paste,
    LaunchPhone,
    MailReply,
    Save,
    MailSend,
    SpellCheck,
    SplitScreenToggle,
    LaunchMediaPlayer,
    LaunchWordProcessor,
    ZoomIn,
    ZoomOut,
    LaunchWebCam,
    MailForward,
    LaunchMusicPlayer,
    MediaFastForward,
    RandomToggle,
    Subtitle,
    MediaAudioTrack,
    Hibernate,
    AudioVolumeMute,
    VideoModeNext,
}

/// Layout-dependent key identity: a named key, or an explicit
/// "unidentified" value for symbols outside the table.
#[derive(Clone, Copy, PartialEq, Eq, Debug, Structural)]
pub enum LogicalKey {
    Named(NamedKey),
    Unidentified,
}

/// The layout-independent key codes the UI toolkit understands.
#[derive(Clone, Copy, PartialEq, Eq, Debug, Structural)]
pub enum KeyCode {
    Digit0,
    Digit1,
    Digit2,
    Digit3,
    Digit4,
    Digit5,
    Digit6,
    Digit7,
    Digit8,
    Digit9,
    KeyA,
    KeyB,
    KeyC,
    KeyD,
    KeyE,
    KeyF,
    KeyG,
    KeyH,
    KeyI,
    KeyJ,
    KeyK,
    KeyL,
    KeyM,
    KeyN,
    KeyO,
    KeyP,
    KeyQ,
    KeyR,
    KeyS,
    KeyT,
    KeyU,
    KeyV,
    KeyW,
    KeyX,
    KeyY,
    KeyZ,
    Backquote,
    Minus,
    Equal,
    BracketLeft,
    BracketRight,
    Backslash,
    Semicolon,
    Quote,
    Comma,
    Period,
    Slash,
    Space,
    Tab,
    Enter,
    Backspace,
    Delete,
    Escape,
    ShiftLeft,
    ShiftRight,
    ControlLeft,
    ControlRight,
    AltLeft,
    AltRight,
    SuperLeft,
    SuperRight,
    CapsLock,
    NumLock,
    ScrollLock,
    Home,
    End,
    PageUp,
    PageDown,
    ArrowLeft,
    ArrowRight,
    ArrowUp,
    ArrowDown,
    Insert,
    PrintScreen,
    F1,
    F2,
    F3,
    F4,
    F5,
    F6,
    F7,
    F8,
    F9,
    F10,
    F11,
    F12,
    F13,
    F14,
    F15,
    F16,
    F17,
    F18,
    F19,
    F20,
    F21,
    F22,
    F23,
    F24,
    F25,
    F26,
    F27,
    F28,
    F29,
    F30,
    F31,
    F32,
    F33,
    F34,
    F35,
    Numpad0,
    Numpad1,
    Numpad2,
    Numpad3,
    Numpad4,
    Numpad5,
    Numpad6,
    Numpad7,
    Numpad8,
    Numpad9,
    NumpadDecimal,
    NumpadDivide,
    NumpadMultiply,
    NumpadSubtract,
    NumpadAdd,
    NumpadEnter,
    NumpadEqual,
    Pause,
    AudioVolumeMute,
    AudioVolumeDown,
    AudioVolumeUp,
    MediaPlayPause,
    MediaStop,
    MediaTrackPrevious,
    MediaTrackNext,
    BrowserBack,
    BrowserForward,
    BrowserRefresh,
    BrowserStop,
    BrowserSearch,
    BrowserHome,
    BrowserFavorites,
    Power,
    Sleep,
    WakeUp,
    LaunchApp2,
    LaunchMail,
    LaunchApp1,
    MediaSelect,
    Copy,
    Cut,
    Paste,
    Convert,
    NonConvert,
    Lang2,
    Lang4,
    Lang3,
    ContextMenu,
}

/// Layout-independent key identity: a known code, or the raw hardware
/// scan code carried verbatim so downstream shortcut matching still works.
#[derive(Clone, Copy, PartialEq, Eq, Debug, Structural)]
pub enum PhysicalKey {
    Code(KeyCode),
    Unidentified(u32),
}

/// The pointer buttons the UI toolkit has a slot for.
#[derive(Clone, Copy, PartialEq, Eq, Debug, Structural)]
pub enum MouseButton {
    Left,
    Right,
    Middle,
}

/// What `map_logical_key` returns for every symbol, as one total table.
pub open spec fn spec_logical_key(keysym: u32) -> LogicalKey {
    if keysym == KEYSYM_BACKSPACE {
        LogicalKey::Named(NamedKey::Backspace)
    } else if keysym == KEYSYM_TAB {
        LogicalKey::Named(NamedKey::Tab)
    } else if keysym == KEYSYM_CLEAR {
        LogicalKey::Named(NamedKey::Clear)
    } else if keysym == KEYSYM_RETURN {
        LogicalKey::Named(NamedKey::Enter)
    } else if keysym == KEYSYM_PAUSE {
        LogicalKey::Named(NamedKey::Pause)
    } else if keysym == KEYSYM_SCROLL_LOCK {
        LogicalKey::Named(NamedKey::ScrollLock)
    } else if keysym == KEYSYM_SYS_REQ {
        LogicalKey::Named(NamedKey::PrintScreen)
    } else if keysym == KEYSYM_ESCAPE {
        LogicalKey::Named(NamedKey::Escape)
    } else if keysym == KEYSYM_DELETE {
        LogicalKey::Named(NamedKey::Delete)
    } else if keysym == KEYSYM_MULTI_KEY {
        LogicalKey::Named(NamedKey::Compose)
    } else if keysym == KEYSYM_CODEINPUT {
        LogicalKey::Named(NamedKey::CodeInput)
    } else if keysym == KEYSYM_SINGLE_CANDIDATE {
        LogicalKey::Named(NamedKey::SingleCandidate)
    } else if keysym == KEYSYM_MULTIPLE_CANDIDATE {
        LogicalKey::Named(NamedKey::AllCandidates)
    } else if keysym == KEYSYM_PREVIOUS_CANDIDATE {
        LogicalKey::Named(NamedKey::PreviousCandidate)
    } else if keysym == KEYSYM_KANJI {
        LogicalKey::Named(NamedKey::KanjiMode)
    } else if keysym == KEYSYM_MUHENKAN {
        LogicalKey::Named(NamedKey::NonConvert)
    } else if keysym == KEYSYM_HENKAN_MODE {
        LogicalKey::Named(NamedKey::Convert)
    } else if keysym == KEYSYM_ROMAJI {
        LogicalKey::Named(NamedKey::Romaji)
    } else if keysym == KEYSYM_HIRAGANA {
        LogicalKey::Named(NamedKey::Hiragana)
    } else if keysym == KEYSYM_HIRAGANA_KATAKANA {
        LogicalKey::Named(NamedKey::HiraganaKatakana)
    } else if keysym == KEYSYM_ZENKAKU {
        LogicalKey::Named(NamedKey::Zenkaku)
    } else if keysym == KEYSYM_HANKAKU {
        LogicalKey::Named(NamedKey::Hankaku)
    } else if keysym == KEYSYM_ZENKAKU_HANKAKU {
        LogicalKey::Named(NamedKey::ZenkakuHankaku)
    } else if keysym == KEYSYM_KANA_LOCK {
        LogicalKey::Named(NamedKey::KanaMode)
    } else if keysym == KEYSYM_KANA_SHIFT {
        LogicalKey::Named(NamedKey::KanaMode)
    } else if keysym == KEYSYM_EISU_SHIFT {
        LogicalKey::Named(NamedKey::Alphanumeric)
    } else if keysym == KEYSYM_EISU_TOGGLE {
        LogicalKey::Named(NamedKey::Alphanumeric)
    } else if keysym == KEYSYM_HOME {
        LogicalKey::Named(NamedKey::Home)
    } else if keysym == KEYSYM_LEFT {
        LogicalKey::Named(NamedKey::ArrowLeft)
    } else if keysym == KEYSYM_UP {
        LogicalKey::Named(NamedKey::ArrowUp)
    } else if keysym == KEYSYM_RIGHT {
        LogicalKey::Named(NamedKey::ArrowRight)
    } else if keysym == KEYSYM_DOWN {
        LogicalKey::Named(NamedKey::ArrowDown)
    } else if keysym == KEYSYM_PAGE_UP {
        LogicalKey::Named(NamedKey::PageUp)
    } else if keysym == KEYSYM_PAGE_DOWN {
        LogicalKey::Named(NamedKey::PageDown)
    } else if keysym == KEYSYM_END {
        LogicalKey::Named(NamedKey::End)
    } else if keysym == KEYSYM_SELECT {
        LogicalKey::Named(NamedKey::Select)
    } else if keysym == KEYSYM_PRINT {
        LogicalKey::Named(NamedKey::PrintScreen)
    } else if keysym == KEYSYM_EXECUTE {
        LogicalKey::Named(NamedKey::Execute)
    } else if keysym == KEYSYM_INSERT {
        LogicalKey::Named(NamedKey::Insert)
    } else if keysym == KEYSYM_UNDO {
        LogicalKey::Named(NamedKey::Undo)
    } else if keysym == KEYSYM_REDO {
        LogicalKey::Named(NamedKey::Redo)
    } else if keysym == KEYSYM_MENU {
        LogicalKey::Named(NamedKey::ContextMenu)
    } else if keysym == KEYSYM_FIND {
        LogicalKey::Named(NamedKey::Find)
    } else if keysym == KEYSYM_CANCEL {
        LogicalKey::Named(NamedKey::Cancel)
    } else if keysym == KEYSYM_HELP {
        LogicalKey::Named(NamedKey::Help)
    } else if keysym == KEYSYM_BREAK {
        LogicalKey::Named(NamedKey::Pause)
    } else if keysym == KEYSYM_MODE_SWITCH {
        LogicalKey::Named(NamedKey::ModeChange)
    } else if keysym == KEYSYM_NUM_LOCK {
        LogicalKey::Named(NamedKey::NumLock)
    } else if keysym == KEYSYM_KP_TAB {
        LogicalKey::Named(NamedKey::Tab)
    } else if keysym == KEYSYM_KP_ENTER {
        LogicalKey::Named(NamedKey::Enter)
    } else if keysym == KEYSYM_KP_F1 {
        LogicalKey::Named(NamedKey::F1)
    } else if keysym == KEYSYM_KP_F2 {
        LogicalKey::Named(NamedKey::F2)
    } else if keysym == KEYSYM_KP_F3 {
        LogicalKey::Named(NamedKey::F3)
    } else if keysym == KEYSYM_KP_F4 {
        LogicalKey::Named(NamedKey::F4)
    } else if keysym == KEYSYM_KP_HOME {
        LogicalKey::Named(NamedKey::Home)
    } else if keysym == KEYSYM_KP_LEFT {
        LogicalKey::Named(NamedKey::ArrowLeft)
    } else if keysym == KEYSYM_KP_UP {
        LogicalKey::Named(NamedKey::ArrowUp)
    } else if keysym == KEYSYM_KP_RIGHT {
        LogicalKey::Named(NamedKey::ArrowRight)
    } else if keysym == KEYSYM_KP_DOWN {
        LogicalKey::Named(NamedKey::ArrowDown)
    } else if keysym == KEYSYM_KP_PAGE_UP {
        LogicalKey::Named(NamedKey::PageUp)
    } else if keysym == KEYSYM_KP_PAGE_DOWN {
        LogicalKey::Named(NamedKey::PageDown)
    } else if keysym == KEYSYM_KP_END {
        LogicalKey::Named(NamedKey::End)
    } else if keysym == KEYSYM_KP_INSERT {
        LogicalKey::Named(NamedKey::Insert)
    } else if keysym == KEYSYM_KP_DELETE {
        LogicalKey::Named(NamedKey::Delete)
    } else if keysym == KEYSYM_F1 {
        LogicalKey::Named(NamedKey::F1)
    } else if keysym == KEYSYM_F2 {
        LogicalKey::Named(NamedKey::F2)
    } else if keysym == KEYSYM_F3 {
        LogicalKey::Named(NamedKey::F3)
    } else if keysym == KEYSYM_F4 {
        LogicalKey::Named(NamedKey::F4)
    } else if keysym == KEYSYM_F5 {
        LogicalKey::Named(NamedKey::F5)
    } else if keysym == KEYSYM_F6 {
        LogicalKey::Named(NamedKey::F6)
    } else if keysym == KEYSYM_F7 {
        LogicalKey::Named(NamedKey::F7)
    } else if keysym == KEYSYM_F8 {
        LogicalKey::Named(NamedKey::F8)
    } else if keysym == KEYSYM_F9 {
        LogicalKey::Named(NamedKey::F9)
    } else if keysym == KEYSYM_F10 {
        LogicalKey::Named(NamedKey::F10)
    } else if keysym == KEYSYM_F11 {
        LogicalKey::Named(NamedKey::F11)
    } else if keysym == KEYSYM_F12 {
        LogicalKey::Named(NamedKey::F12)
    } else if keysym == KEYSYM_F13 {
        LogicalKey::Named(NamedKey::F13)
    } else if keysym == KEYSYM_F14 {
        LogicalKey::Named(NamedKey::F14)
    } else if keysym == KEYSYM_F15 {
        LogicalKey::Named(NamedKey::F15)
    } else if keysym == KEYSYM_F16 {
        LogicalKey::Named(NamedKey::F16)
    } else if keysym == KEYSYM_F17 {
        LogicalKey::Named(NamedKey::F17)
    } else if keysym == KEYSYM_F18 {
        LogicalKey::Named(NamedKey::F18)
    } else if keysym == KEYSYM_F19 {
        LogicalKey::Named(NamedKey::F19)
    } else if keysym == KEYSYM_F20 {
        LogicalKey::Named(NamedKey::F20)
    } else if keysym == KEYSYM_F21 {
        LogicalKey::Named(NamedKey::F21)
    } else if keysym == KEYSYM_F22 {
        LogicalKey::Named(NamedKey::F22)
    } else if keysym == KEYSYM_F23 {
        LogicalKey::Named(NamedKey::F23)
    } else if keysym == KEYSYM_F24 {
        LogicalKey::Named(NamedKey::F24)
    } else if keysym == KEYSYM_F25 {
        LogicalKey::Named(NamedKey::F25)
    } else if keysym == KEYSYM_F26 {
        LogicalKey::Named(NamedKey::F26)
    } else if keysym == KEYSYM_F27 {
        LogicalKey::Named(NamedKey::F27)
    } else if keysym == KEYSYM_F28 {
        LogicalKey::Named(NamedKey::F28)
    } else if keysym == KEYSYM_F29 {
        LogicalKey::Named(NamedKey::F29)
    } else if keysym == KEYSYM_F30 {
        LogicalKey::Named(NamedKey::F30)
    } else if keysym == KEYSYM_F31 {
        LogicalKey::Named(NamedKey::F31)
    } else if keysym == KEYSYM_F32 {
        LogicalKey::Named(NamedKey::F32)
    } else if keysym == KEYSYM_F33 {
        LogicalKey::Named(NamedKey::F33)
    } else if keysym == KEYSYM_F34 {
        LogicalKey::Named(NamedKey::F34)
    } else if keysym == KEYSYM_F35 {
        LogicalKey::Named(NamedKey::F35)
    } else if keysym == KEYSYM_SHIFT_L {
        LogicalKey::Named(NamedKey::Shift)
    } else if keysym == KEYSYM_SHIFT_R {
        LogicalKey::Named(NamedKey::Shift)
    } else if keysym == KEYSYM_CONTROL_L {
        LogicalKey::Named(NamedKey::Control)
    } else if keysym == KEYSYM_CONTROL_R {
        LogicalKey::Named(NamedKey::Control)
    } else if keysym == KEYSYM_CAPS_LOCK {
        LogicalKey::Named(NamedKey::CapsLock)
    } else if keysym == KEYSYM_ALT_L {
        LogicalKey::Named(NamedKey::Alt)
    } else if keysym == KEYSYM_ALT_R {
        LogicalKey::Named(NamedKey::Alt)
    } else if keysym == KEYSYM_SUPER_L {
        LogicalKey::Named(NamedKey::Super)
    } else if keysym == KEYSYM_SUPER_R {
        LogicalKey::Named(NamedKey::Super)
    } else if keysym == KEYSYM_HYPER_L {
        LogicalKey::Named(NamedKey::Hyper)
    } else if keysym == KEYSYM_HYPER_R {
        LogicalKey::Named(NamedKey::Hyper)
    } else if keysym == KEYSYM_ISO_LEVEL3_SHIFT {
        LogicalKey::Named(NamedKey::AltGraph)
    } else if keysym == KEYSYM_ISO_LEVEL3_LATCH {
        LogicalKey::Named(NamedKey::AltGraph)
    } else if keysym == KEYSYM_ISO_LEVEL3_LOCK {
        LogicalKey::Named(NamedKey::AltGraph)
    } else if keysym == KEYSYM_ISO_NEXT_GROUP {
        LogicalKey::Named(NamedKey::GroupNext)
    } else if keysym == KEYSYM_ISO_PREV_GROUP {
        LogicalKey::Named(NamedKey::GroupPrevious)
    } else if keysym == KEYSYM_ISO_FIRST_GROUP {
        LogicalKey::Named(NamedKey::GroupFirst)
    } else if keysym == KEYSYM_ISO_LAST_GROUP {
        LogicalKey::Named(NamedKey::GroupLast)
    } else if keysym == KEYSYM_ISO_LEFT_TAB {
        LogicalKey::Named(NamedKey::Tab)
    } else if keysym == KEYSYM_ISO_ENTER {
        LogicalKey::Named(NamedKey::Enter)
    } else if keysym == KEYSYM_3270_ERASE_EOF {
        LogicalKey::Named(NamedKey::EraseEof)
    } else if keysym == KEYSYM_3270_ATTN {
        LogicalKey::Named(NamedKey::Attn)
    } else if keysym == KEYSYM_3270_PLAY {
        LogicalKey::Named(NamedKey::Play)
    } else if keysym == KEYSYM_3270_EX_SELECT {
        LogicalKey::Named(NamedKey::ExSel)
    } else if keysym == KEYSYM_3270_CURSOR_SELECT {
        LogicalKey::Named(NamedKey::CrSel)
    } else if keysym == KEYSYM_3270_PRINT_SCREEN {
        LogicalKey::Named(NamedKey::PrintScreen)
    } else if keysym == KEYSYM_3270_ENTER {
        LogicalKey::Named(NamedKey::Enter)
    } else if keysym == KEYSYM_SPACE {
        LogicalKey::Named(NamedKey::Space)
    } else if keysym == KEYSYM_XF86_MON_BRIGHTNESS_UP {
        LogicalKey::Named(NamedKey::BrightnessUp)
    } else if keysym == KEYSYM_XF86_MON_BRIGHTNESS_DOWN {
        LogicalKey::Named(NamedKey::BrightnessDown)
    } else if keysym == KEYSYM_XF86_STANDBY {
        LogicalKey::Named(NamedKey::Standby)
    } else if keysym == KEYSYM_XF86_AUDIO_LOWER_VOLUME {
        LogicalKey::Named(NamedKey::AudioVolumeDown)
    } else if keysym == KEYSYM_XF86_AUDIO_RAISE_VOLUME {
        LogicalKey::Named(NamedKey::AudioVolumeUp)
    } else if keysym == KEYSYM_XF86_AUDIO_PLAY {
        LogicalKey::Named(NamedKey::MediaPlay)
    } else if keysym == KEYSYM_XF86_AUDIO_STOP {
        LogicalKey::Named(NamedKey::MediaStop)
    } else if keysym == KEYSYM_XF86_AUDIO_PREV {
        LogicalKey::Named(NamedKey::MediaTrackPrevious)
    } else if keysym == KEYSYM_XF86_AUDIO_NEXT {
        LogicalKey::Named(NamedKey::MediaTrackNext)
    } else if keysym == KEYSYM_XF86_HOME_PAGE {
        LogicalKey::Named(NamedKey::BrowserHome)
    } else if keysym == KEYSYM_XF86_MAIL {
        LogicalKey::Named(NamedKey::LaunchMail)
    } else if keysym == KEYSYM_XF86_SEARCH {
        LogicalKey::Named(NamedKey::BrowserSearch)
    } else if keysym == KEYSYM_XF86_AUDIO_RECORD {
        LogicalKey::Named(NamedKey::MediaRecord)
    } else if keysym == KEYSYM_XF86_CALCULATOR {
        LogicalKey::Named(NamedKey::LaunchApplication2)
    } else if keysym == KEYSYM_XF86_CALENDAR {
        LogicalKey::Named(NamedKey::LaunchCalendar)
    } else if keysym == KEYSYM_XF86_POWER_DOWN {
        LogicalKey::Named(NamedKey::Power)
    } else if keysym == KEYSYM_XF86_BACK {
        LogicalKey::Named(NamedKey::BrowserBack)
    } else if keysym == KEYSYM_XF86_FORWARD {
        LogicalKey::Named(NamedKey::BrowserForward)
    } else if keysym == KEYSYM_XF86_REFRESH {
        LogicalKey::Named(NamedKey::BrowserRefresh)
    } else if keysym == KEYSYM_XF86_POWER_OFF {
        LogicalKey::Named(NamedKey::Power)
    } else if keysym == KEYSYM_XF86_WAKE_UP {
        LogicalKey::Named(NamedKey::WakeUp)
    } else if keysym == KEYSYM_XF86_EJECT {
        LogicalKey::Named(NamedKey::Eject)
    } else if keysym == KEYSYM_XF86_SCREEN_SAVER {
        LogicalKey::Named(NamedKey::LaunchScreenSaver)
    } else if keysym == KEYSYM_XF86_WWW {
        LogicalKey::Named(NamedKey::LaunchWebBrowser)
    } else if keysym == KEYSYM_XF86_SLEEP {
        LogicalKey::Named(NamedKey::Standby)
    } else if keysym == KEYSYM_XF86_FAVORITES {
        LogicalKey::Named(NamedKey::BrowserFavorites)
    } else if keysym == KEYSYM_XF86_AUDIO_PAUSE {
        LogicalKey::Named(NamedKey::MediaPause)
    } else if keysym == KEYSYM_XF86_MY_COMPUTER {
        LogicalKey::Named(NamedKey::LaunchApplication1)
    } else if keysym == KEYSYM_XF86_AUDIO_REWIND {
        LogicalKey::Named(NamedKey::MediaRewind)
    } else if keysym == KEYSYM_XF86_CALCULATER {
        LogicalKey::Named(NamedKey::LaunchApplication2)
    } else if keysym == KEYSYM_XF86_CLOSE {
        LogicalKey::Named(NamedKey::Close)
    } else if keysym == KEYSYM_XF86_COPY {
        LogicalKey::Named(NamedKey::Copy)
    } else if keysym == KEYSYM_XF86_CUT {
        LogicalKey::Named(NamedKey::Cut)
    } else if keysym == KEYSYM_XF86_EXCEL {
        LogicalKey::Named(NamedKey::LaunchSpreadsheet)
    } else if keysym == KEYSYM_XF86_LOG_OFF {
        LogicalKey::Named(NamedKey::LogOff)
    } else if keysym == KEYSYM_XF86_MY_SITES {
        LogicalKey::Named(NamedKey::BrowserFavorites)
    } else if keysym == KEYSYM_XF86_NEW {
        LogicalKey::Named(NamedKey::New)
    } else if keysym == KEYSYM_XF86_OPEN {
        LogicalKey::Named(NamedKey::Open)
    } else if keysym == KEYSYM_XF86_PASTE {
        LogicalKey::Named(NamedKey::Paste)
    } else if keysym == KEYSYM_XF86_PHONE {
        LogicalKey::Named(NamedKey::LaunchPhone)
    } else if keysym == KEYSYM_XF86_REPLY {
        LogicalKey::Named(NamedKey::MailReply)
    } else if keysym == KEYSYM_XF86_RELOAD {
        LogicalKey::Named(NamedKey::BrowserRefresh)
    } else if keysym == KEYSYM_XF86_SAVE {
        LogicalKey::Named(NamedKey::Save)
    } else if keysym == KEYSYM_XF86_SEND {
        LogicalKey::Named(NamedKey::MailSend)
    } else if keysym == KEYSYM_XF86_SPELL {
        LogicalKey::Named(NamedKey::SpellCheck)
    } else if keysym == KEYSYM_XF86_SPLIT_SCREEN {
        LogicalKey::Named(NamedKey::SplitScreenToggle)
    } else if keysym == KEYSYM_XF86_VIDEO {
        LogicalKey::Named(NamedKey::LaunchMediaPlayer)
    } else if keysym == KEYSYM_XF86_WORD {
        LogicalKey::Named(NamedKey::LaunchWordProcessor)
    } else if keysym == KEYSYM_XF86_ZOOM_IN {
        LogicalKey::Named(NamedKey::ZoomIn)
    } else if keysym == KEYSYM_XF86_ZOOM_OUT {
        LogicalKey::Named(NamedKey::ZoomOut)
    } else if keysym == KEYSYM_XF86_WEB_CAM {
        LogicalKey::Named(NamedKey::LaunchWebCam)
    } else if keysym == KEYSYM_XF86_MAIL_FORWARD {
        LogicalKey::Named(NamedKey::MailForward)
    } else if keysym == KEYSYM_XF86_MUSIC {
        LogicalKey::Named(NamedKey::LaunchMusicPlayer)
    } else if keysym == KEYSYM_XF86_AUDIO_FORWARD {
        LogicalKey::Named(NamedKey::MediaFastForward)
    } else if keysym == KEYSYM_XF86_AUDIO_RANDOM_PLAY {
        LogicalKey::Named(NamedKey::RandomToggle)
    } else if keysym == KEYSYM_XF86_SUBTITLE {
        LogicalKey::Named(NamedKey::Subtitle)
    } else if keysym == KEYSYM_XF86_AUDIO_CYCLE_TRACK {
        LogicalKey::Named(NamedKey::MediaAudioTrack)
    } else if keysym == KEYSYM_XF86_SUSPEND {
        LogicalKey::Named(NamedKey::Standby)
    } else if keysym == KEYSYM_XF86_HIBERNATE {
        LogicalKey::Named(NamedKey::Hibernate)
    } else if keysym == KEYSYM_XF86_AUDIO_MUTE {
        LogicalKey::Named(NamedKey::AudioVolumeMute)
    } else if keysym == KEYSYM_XF86_NEXT_VMODE {
        LogicalKey::Named(NamedKey::VideoModeNext)
    } else if keysym == KEYSYM_SUN_COPY {
        LogicalKey::Named(NamedKey::Copy)
    } else if keysym == KEYSYM_SUN_OPEN {
        LogicalKey::Named(NamedKey::Open)
    } else if keysym == KEYSYM_SUN_PASTE {
        LogicalKey::Named(NamedKey::Paste)
    } else if keysym == KEYSYM_SUN_CUT {
        LogicalKey::Named(NamedKey::Cut)
    } else if keysym == KEYSYM_SUN_AUDIO_LOWER_VOLUME {
        LogicalKey::Named(NamedKey::AudioVolumeDown)
    } else if keysym == KEYSYM_SUN_AUDIO_MUTE {
        LogicalKey::Named(NamedKey::AudioVolumeMute)
    } else if keysym == KEYSYM_SUN_AUDIO_RAISE_VOLUME {
        LogicalKey::Named(NamedKey::AudioVolumeUp)
    } else if keysym == KEYSYM_SUN_VIDEO_LOWER_BRIGHTNESS {
        LogicalKey::Named(NamedKey::BrightnessDown)
    } else if keysym == KEYSYM_SUN_VIDEO_RAISE_BRIGHTNESS {
        LogicalKey::Named(NamedKey::BrightnessUp)
    } else {
        LogicalKey::Unidentified
    }
}

/// What `map_logical_key` returns as the key's location, for every symbol.
pub open spec fn spec_key_location(keysym: u32) -> KeyLocation {
    if keysym == KEYSYM_SHIFT_L {
        KeyLocation::Left
    } else if keysym == KEYSYM_CONTROL_L {
        KeyLocation::Left
    } else if keysym == KEYSYM_ALT_L {
        KeyLocation::Left
    } else if keysym == KEYSYM_SUPER_L {
        KeyLocation::Left
    } else if keysym == KEYSYM_HYPER_L {
        KeyLocation::Left
    } else if keysym == KEYSYM_SHIFT_R {
        KeyLocation::Right
    } else if keysym == KEYSYM_CONTROL_R {
        KeyLocation::Right
    } else if keysym == KEYSYM_ALT_R {
        KeyLocation::Right
    } else if keysym == KEYSYM_SUPER_R {
        KeyLocation::Right
    } else if keysym == KEYSYM_HYPER_R {
        KeyLocation::Right
    } else if keysym == KEYSYM_KP_0 {
        KeyLocation::Numpad
    } else if keysym == KEYSYM_KP_1 {
        KeyLocation::Numpad
    } else if keysym == KEYSYM_KP_2 {
        KeyLocation::Numpad
    } else if keysym == KEYSYM_KP_3 {
        KeyLocation::Numpad
    } else if keysym == KEYSYM_KP_4 {
        KeyLocation::Numpad
    } else if keysym == KEYSYM_KP_5 {
        KeyLocation::Numpad
    } else if keysym == KEYSYM_KP_6 {
        KeyLocation::Numpad
    } else if keysym == KEYSYM_KP_7 {
        KeyLocation::Numpad
    } else if keysym == KEYSYM_KP_8 {
        KeyLocation::Numpad
    } else if keysym == KEYSYM_KP_9 {
        KeyLocation::Numpad
    } else if keysym == KEYSYM_KP_SPACE {
        KeyLocation::Numpad
    } else if keysym == KEYSYM_KP_TAB {
        KeyLocation::Numpad
    } else if keysym == KEYSYM_KP_ENTER {
        KeyLocation::Numpad
    } else if keysym == KEYSYM_KP_F1 {
        KeyLocation::Numpad
    } else if keysym == KEYSYM_KP_F2 {
        KeyLocation::Numpad
    } else if keysym == KEYSYM_KP_F3 {
        KeyLocation::Numpad
    } else if keysym == KEYSYM_KP_F4 {
        KeyLocation::Numpad
    } else if keysym == KEYSYM_KP_HOME {
        KeyLocation::Numpad
    } else if keysym == KEYSYM_KP_LEFT {
        KeyLocation::Numpad
    } else if keysym == KEYSYM_KP_UP {
        KeyLocation::Numpad
    } else if keysym == KEYSYM_KP_RIGHT {
        KeyLocation::Numpad
    } else if keysym == KEYSYM_KP_DOWN {
        KeyLocation::Numpad
    } else if keysym == KEYSYM_KP_PAGE_UP {
        KeyLocation::Numpad
    } else if keysym == KEYSYM_KP_PAGE_DOWN {
        KeyLocation::Numpad
    } else if keysym == KEYSYM_KP_END {
        KeyLocation::Numpad
    } else if keysym == KEYSYM_KP_BEGIN {
        KeyLocation::Numpad
    } else if keysym == KEYSYM_KP_INSERT {
        KeyLocation::Numpad
    } else if keysym == KEYSYM_KP_DELETE {
        KeyLocation::Numpad
    } else if keysym == KEYSYM_KP_EQUAL {
        KeyLocation::Numpad
    } else if keysym == KEYSYM_KP_MULTIPLY {
        KeyLocation::Numpad
    } else if keysym == KEYSYM_KP_ADD {
        KeyLocation::Numpad
    } else if keysym == KEYSYM_KP_SEPARATOR {
        KeyLocation::Numpad
    } else if keysym == KEYSYM_KP_SUBTRACT {
        KeyLocation::Numpad
    } else if keysym == KEYSYM_KP_DECIMAL {
        KeyLocation::Numpad
    } else if keysym == KEYSYM_KP_DIVIDE {
        KeyLocation::Numpad
    } else {
        KeyLocation::Standard
    }
}

/// What `map_physical_key` returns for every symbol and scan code:
/// a known code, or the scan code carried verbatim.
pub open spec fn spec_physical_key(keysym: u32, raw_code: u32) -> PhysicalKey {
    if keysym == KEYSYM_0 {
        PhysicalKey::Code(KeyCode::Digit0)
    } else if keysym == KEYSYM_1 {
        PhysicalKey::Code(KeyCode::Digit1)
    } else if keysym == KEYSYM_2 {
        PhysicalKey::Code(KeyCode::Digit2)
    } else if keysym == KEYSYM_3 {
        PhysicalKey::Code(KeyCode::Digit3)
    } else if keysym == KEYSYM_4 {
        PhysicalKey::Code(KeyCode::Digit4)
    } else if keysym == KEYSYM_5 {
        PhysicalKey::Code(KeyCode::Digit5)
    } else if keysym == KEYSYM_6 {
        PhysicalKey::Code(KeyCode::Digit6)
    } else if keysym == KEYSYM_7 {
        PhysicalKey::Code(KeyCode::Digit7)
    } else if keysym == KEYSYM_8 {
        PhysicalKey::Code(KeyCode::Digit8)
    } else if keysym == KEYSYM_9 {
        PhysicalKey::Code(KeyCode::Digit9)
    } else if keysym == KEYSYM_A {
        PhysicalKey::Code(KeyCode::KeyA)
    } else if keysym == KEYSYM_UPPER_A {
        PhysicalKey::Code(KeyCode::KeyA)
    } else if keysym == KEYSYM_B {
        PhysicalKey::Code(KeyCode::KeyB)
    } else if keysym == KEYSYM_UPPER_B {
        PhysicalKey::Code(KeyCode::KeyB)
    } else if keysym == KEYSYM_C {
        PhysicalKey::Code(KeyCode::KeyC)
    } else if keysym == KEYSYM_UPPER_C {
        PhysicalKey::Code(KeyCode::KeyC)
    } else if keysym == KEYSYM_D {
        PhysicalKey::Code(KeyCode::KeyD)
    } else if keysym == KEYSYM_UPPER_D {
        PhysicalKey::Code(KeyCode::KeyD)
    } else if keysym == KEYSYM_E {
        PhysicalKey::Code(KeyCode::KeyE)
    } else if keysym == KEYSYM_UPPER_E {
        PhysicalKey::Code(KeyCode::KeyE)
    } else if keysym == KEYSYM_F {
        PhysicalKey::Code(KeyCode::KeyF)
    } else if keysym == KEYSYM_UPPER_F {
        PhysicalKey::Code(KeyCode::KeyF)
    } else if keysym == KEYSYM_G {
        PhysicalKey::Code(KeyCode::KeyG)
    } else if keysym == KEYSYM_UPPER_G {
        PhysicalKey::Code(KeyCode::KeyG)
    } else if keysym == KEYSYM_H {
        PhysicalKey::Code(KeyCode::KeyH)
    } else if keysym == KEYSYM_UPPER_H {
        PhysicalKey::Code(KeyCode::KeyH)
    } else if keysym == KEYSYM_I {
        PhysicalKey::Code(KeyCode::KeyI)
    } else if keysym == KEYSYM_UPPER_I {
        PhysicalKey::Code(KeyCode::KeyI)
    } else if keysym == KEYSYM_J {
        PhysicalKey::Code(KeyCode::KeyJ)
    } else if keysym == KEYSYM_UPPER_J {
        PhysicalKey::Code(KeyCode::KeyJ)
    } else if keysym == KEYSYM_K {
        PhysicalKey::Code(KeyCode::KeyK)
    } else if keysym == KEYSYM_UPPER_K {
        PhysicalKey::Code(KeyCode::KeyK)
    } else if keysym == KEYSYM_L {
        PhysicalKey::Code(KeyCode::KeyL)
    } else if keysym == KEYSYM_UPPER_L {
        PhysicalKey::Code(KeyCode::KeyL)
    } else if keysym == KEYSYM_M {
        PhysicalKey::Code(KeyCode::KeyM)
    } else if keysym == KEYSYM_UPPER_M {
        PhysicalKey::Code(KeyCode::KeyM)
    } else if keysym == KEYSYM_N {
        PhysicalKey::Code(KeyCode::KeyN)
    } else if keysym == KEYSYM_UPPER_N {
        PhysicalKey::Code(KeyCode::KeyN)
    } else if keysym == KEYSYM_O {
        PhysicalKey::Code(KeyCode::KeyO)
    } else if keysym == KEYSYM_UPPER_O {
        PhysicalKey::Code(KeyCode::KeyO)
    } else if keysym == KEYSYM_P {
        PhysicalKey::Code(KeyCode::KeyP)
    } else if keysym == KEYSYM_UPPER_P {
        PhysicalKey::Code(KeyCode::KeyP)
    } else if keysym == KEYSYM_Q {
        PhysicalKey::Code(KeyCode::KeyQ)
    } else if keysym == KEYSYM_UPPER_Q {
        PhysicalKey::Code(KeyCode::KeyQ)
    } else if keysym == KEYSYM_R {
        PhysicalKey::Code(KeyCode::KeyR)
    } else if keysym == KEYSYM_UPPER_R {
        PhysicalKey::Code(KeyCode::KeyR)
    } else if keysym == KEYSYM_S {
        PhysicalKey::Code(KeyCode::KeyS)
    } else if keysym == KEYSYM_UPPER_S {
        PhysicalKey::Code(KeyCode::KeyS)
    } else if keysym == KEYSYM_T {
        PhysicalKey::Code(KeyCode::KeyT)
    } else if keysym == KEYSYM_UPPER_T {
        PhysicalKey::Code(KeyCode::KeyT)
    } else if keysym == KEYSYM_U {
        PhysicalKey::Code(KeyCode::KeyU)
    } else if keysym == KEYSYM_UPPER_U {
        PhysicalKey::Code(KeyCode::KeyU)
    } else if keysym == KEYSYM_V {
        PhysicalKey::Code(KeyCode::KeyV)
    } else if keysym == KEYSYM_UPPER_V {
        PhysicalKey::Code(KeyCode::KeyV)
    } else if keysym == KEYSYM_W {
        PhysicalKey::Code(KeyCode::KeyW)
    } else if keysym == KEYSYM_UPPER_W {
        PhysicalKey::Code(KeyCode::KeyW)
    } else if keysym == KEYSYM_X {
        PhysicalKey::Code(KeyCode::KeyX)
    } else if keysym == KEYSYM_UPPER_X {
        PhysicalKey::Code(KeyCode::KeyX)
    } else if keysym == KEYSYM_Y {
        PhysicalKey::Code(KeyCode::KeyY)
    } else if keysym == KEYSYM_UPPER_Y {
        PhysicalKey::Code(KeyCode::KeyY)
    } else if keysym == KEYSYM_Z {
        PhysicalKey::Code(KeyCode::KeyZ)
    } else if keysym == KEYSYM_UPPER_Z {
        PhysicalKey::Code(KeyCode::KeyZ)
    } else if keysym == KEYSYM_GRAVE {
        PhysicalKey::Code(KeyCode::Backquote)
    } else if keysym == KEYSYM_MINUS {
        PhysicalKey::Code(KeyCode::Minus)
    } else if keysym == KEYSYM_EQUAL {
        PhysicalKey::Code(KeyCode::Equal)
    } else if keysym == KEYSYM_BRACKET_LEFT {
        PhysicalKey::Code(KeyCode::BracketLeft)
    } else if keysym == KEYSYM_BRACKET_RIGHT {
        PhysicalKey::Code(KeyCode::BracketRight)
    } else if keysym == KEYSYM_BACKSLASH {
        PhysicalKey::Code(KeyCode::Backslash)
    } else if keysym == KEYSYM_SEMICOLON {
        PhysicalKey::Code(KeyCode::Semicolon)
    } else if keysym == KEYSYM_APOSTROPHE {
        PhysicalKey::Code(KeyCode::Quote)
    } else if keysym == KEYSYM_COMMA {
        PhysicalKey::Code(KeyCode::Comma)
    } else if keysym == KEYSYM_PERIOD {
        PhysicalKey::Code(KeyCode::Period)
    } else if keysym == KEYSYM_SLASH {
        PhysicalKey::Code(KeyCode::Slash)
    } else if keysym == KEYSYM_SPACE {
        PhysicalKey::Code(KeyCode::Space)
    } else if keysym == KEYSYM_TAB {
        PhysicalKey::Code(KeyCode::Tab)
    } else if keysym == KEYSYM_RETURN {
        PhysicalKey::Code(KeyCode::Enter)
    } else if keysym == KEYSYM_BACKSPACE {
        PhysicalKey::Code(KeyCode::Backspace)
    } else if keysym == KEYSYM_DELETE {
        PhysicalKey::Code(KeyCode::Delete)
    } else if keysym == KEYSYM_ESCAPE {
        PhysicalKey::Code(KeyCode::Escape)
    } else if keysym == KEYSYM_SHIFT_L {
        PhysicalKey::Code(KeyCode::ShiftLeft)
    } else if keysym == KEYSYM_SHIFT_R {
        PhysicalKey::Code(KeyCode::ShiftRight)
    } else if keysym == KEYSYM_CONTROL_L {
        PhysicalKey::Code(KeyCode::ControlLeft)
    } else if keysym == KEYSYM_CONTROL_R {
        PhysicalKey::Code(KeyCode::ControlRight)
    } else if keysym == KEYSYM_ALT_L {
        PhysicalKey::Code(KeyCode::AltLeft)
    } else if keysym == KEYSYM_ALT_R {
        PhysicalKey::Code(KeyCode::AltRight)
    } else if keysym == KEYSYM_SUPER_L {
        PhysicalKey::Code(KeyCode::SuperLeft)
    } else if keysym == KEYSYM_SUPER_R {
        PhysicalKey::Code(KeyCode::SuperRight)
    } else if keysym == KEYSYM_CAPS_LOCK {
        PhysicalKey::Code(KeyCode::CapsLock)
    } else if keysym == KEYSYM_NUM_LOCK {
        PhysicalKey::Code(KeyCode::NumLock)
    } else if keysym == KEYSYM_SCROLL_LOCK {
        PhysicalKey::Code(KeyCode::ScrollLock)
    } else if keysym == KEYSYM_HOME {
        PhysicalKey::Code(KeyCode::Home)
    } else if keysym == KEYSYM_END {
        PhysicalKey::Code(KeyCode::End)
    } else if keysym == KEYSYM_PAGE_UP {
        PhysicalKey::Code(KeyCode::PageUp)
    } else if keysym == KEYSYM_PAGE_DOWN {
        PhysicalKey::Code(KeyCode::PageDown)
    } else if keysym == KEYSYM_LEFT {
        PhysicalKey::Code(KeyCode::ArrowLeft)
    } else if keysym == KEYSYM_RIGHT {
        PhysicalKey::Code(KeyCode::ArrowRight)
    } else if keysym == KEYSYM_UP {
        PhysicalKey::Code(KeyCode::ArrowUp)
    } else if keysym == KEYSYM_DOWN {
        PhysicalKey::Code(KeyCode::ArrowDown)
    } else if keysym == KEYSYM_INSERT {
        PhysicalKey::Code(KeyCode::Insert)
    } else if keysym == KEYSYM_PRINT {
        PhysicalKey::Code(KeyCode::PrintScreen)
    } else if keysym == KEYSYM_SYS_REQ {
        PhysicalKey::Code(KeyCode::PrintScreen)
    } else if keysym == KEYSYM_F1 {
        PhysicalKey::Code(KeyCode::F1)
    } else if keysym == KEYSYM_F2 {
        PhysicalKey::Code(KeyCode::F2)
    } else if keysym == KEYSYM_F3 {
        PhysicalKey::Code(KeyCode::F3)
    } else if keysym == KEYSYM_F4 {
        PhysicalKey::Code(KeyCode::F4)
    } else if keysym == KEYSYM_F5 {
        PhysicalKey::Code(KeyCode::F5)
    } else if keysym == KEYSYM_F6 {
        PhysicalKey::Code(KeyCode::F6)
    } else if keysym == KEYSYM_F7 {
        PhysicalKey::Code(KeyCode::F7)
    } else if keysym == KEYSYM_F8 {
        PhysicalKey::Code(KeyCode::F8)
    } else if keysym == KEYSYM_F9 {
        PhysicalKey::Code(KeyCode::F9)
    } else if keysym == KEYSYM_F10 {
        PhysicalKey::Code(KeyCode::F10)
    } else if keysym == KEYSYM_F11 {
        PhysicalKey::Code(KeyCode::F11)
    } else if keysym == KEYSYM_F12 {
        PhysicalKey::Code(KeyCode::F12)
    } else if keysym == KEYSYM_F13 {
        PhysicalKey::Code(KeyCode::F13)
    } else if keysym == KEYSYM_F14 {
        PhysicalKey::Code(KeyCode::F14)
    } else if keysym == KEYSYM_F15 {
        PhysicalKey::Code(KeyCode::F15)
    } else if keysym == KEYSYM_F16 {
        PhysicalKey::Code(KeyCode::F16)
    } else if keysym == KEYSYM_F17 {
        PhysicalKey::Code(KeyCode::F17)
    } else if keysym == KEYSYM_F18 {
        PhysicalKey::Code(KeyCode::F18)
    } else if keysym == KEYSYM_F19 {
        PhysicalKey::Code(KeyCode::F19)
    } else if keysym == KEYSYM_F20 {
        PhysicalKey::Code(KeyCode::F20)
    } else if keysym == KEYSYM_F21 {
        PhysicalKey::Code(KeyCode::F21)
    } else if keysym == KEYSYM_F22 {
        PhysicalKey::Code(KeyCode::F22)
    } else if keysym == KEYSYM_F23 {
        PhysicalKey::Code(KeyCode::F23)
    } else if keysym == KEYSYM_F24 {
        PhysicalKey::Code(KeyCode::F24)
    } else if keysym == KEYSYM_F25 {
        PhysicalKey::Code(KeyCode::F25)
    } else if keysym == KEYSYM_F26 {
        PhysicalKey::Code(KeyCode::F26)
    } else if keysym == KEYSYM_F27 {
        PhysicalKey::Code(KeyCode::F27)
    } else if keysym == KEYSYM_F28 {
        PhysicalKey::Code(KeyCode::F28)
    } else if keysym == KEYSYM_F29 {
        PhysicalKey::Code(KeyCode::F29)
    } else if keysym == KEYSYM_F30 {
        PhysicalKey::Code(KeyCode::F30)
    } else if keysym == KEYSYM_F31 {
        PhysicalKey::Code(KeyCode::F31)
    } else if keysym == KEYSYM_F32 {
        PhysicalKey::Code(KeyCode::F32)
    } else if keysym == KEYSYM_F33 {
        PhysicalKey::Code(KeyCode::F33)
    } else if keysym == KEYSYM_F34 {
        PhysicalKey::Code(KeyCode::F34)
    } else if keysym == KEYSYM_F35 {
        PhysicalKey::Code(KeyCode::F35)
    } else if keysym == KEYSYM_KP_0 {
        PhysicalKey::Code(KeyCode::Numpad0)
    } else if keysym == KEYSYM_KP_1 {
        PhysicalKey::Code(KeyCode::Numpad1)
    } else if keysym == KEYSYM_KP_2 {
        PhysicalKey::Code(KeyCode::Numpad2)
    } else if keysym == KEYSYM_KP_3 {
        PhysicalKey::Code(KeyCode::Numpad3)
    } else if keysym == KEYSYM_KP_4 {
        PhysicalKey::Code(KeyCode::Numpad4)
    } else if keysym == KEYSYM_KP_5 {
        PhysicalKey::Code(KeyCode::Numpad5)
    } else if keysym == KEYSYM_KP_6 {
        PhysicalKey::Code(KeyCode::Numpad6)
    } else if keysym == KEYSYM_KP_7 {
        PhysicalKey::Code(KeyCode::Numpad7)
    } else if keysym == KEYSYM_KP_8 {
        PhysicalKey::Code(KeyCode::Numpad8)
    } else if keysym == KEYSYM_KP_9 {
        PhysicalKey::Code(KeyCode::Numpad9)
    } else if keysym == KEYSYM_KP_DECIMAL {
        PhysicalKey::Code(KeyCode::NumpadDecimal)
    } else if keysym == KEYSYM_KP_DIVIDE {
        PhysicalKey::Code(KeyCode::NumpadDivide)
    } else if keysym == KEYSYM_KP_MULTIPLY {
        PhysicalKey::Code(KeyCode::NumpadMultiply)
    } else if keysym == KEYSYM_KP_SUBTRACT {
        PhysicalKey::Code(KeyCode::NumpadSubtract)
    } else if keysym == KEYSYM_KP_ADD {
        PhysicalKey::Code(KeyCode::NumpadAdd)
    } else if keysym == KEYSYM_KP_ENTER {
        PhysicalKey::Code(KeyCode::NumpadEnter)
    } else if keysym == KEYSYM_KP_EQUAL {
        PhysicalKey::Code(KeyCode::NumpadEqual)
    } else if keysym == KEYSYM_PAUSE {
        PhysicalKey::Code(KeyCode::Pause)
    } else if keysym == KEYSYM_BREAK {
        PhysicalKey::Code(KeyCode::Pause)
    } else if keysym == KEYSYM_XF86_AUDIO_MUTE {
        PhysicalKey::Code(KeyCode::AudioVolumeMute)
    } else if keysym == KEYSYM_XF86_AUDIO_LOWER_VOLUME {
        PhysicalKey::Code(KeyCode::AudioVolumeDown)
    } else if keysym == KEYSYM_XF86_AUDIO_RAISE_VOLUME {
        PhysicalKey::Code(KeyCode::AudioVolumeUp)
    } else if keysym == KEYSYM_XF86_AUDIO_PLAY {
        PhysicalKey::Code(KeyCode::MediaPlayPause)
    } else if keysym == KEYSYM_XF86_AUDIO_STOP {
        PhysicalKey::Code(KeyCode::MediaStop)
    } else if keysym == KEYSYM_XF86_AUDIO_PREV {
        PhysicalKey::Code(KeyCode::MediaTrackPrevious)
    } else if keysym == KEYSYM_XF86_AUDIO_NEXT {
        PhysicalKey::Code(KeyCode::MediaTrackNext)
    } else if keysym == KEYSYM_XF86_BACK {
        PhysicalKey::Code(KeyCode::BrowserBack)
    } else if keysym == KEYSYM_XF86_FORWARD {
        PhysicalKey::Code(KeyCode::BrowserForward)
    } else if keysym == KEYSYM_XF86_REFRESH {
        PhysicalKey::Code(KeyCode::BrowserRefresh)
    } else if keysym == KEYSYM_XF86_STOP {
        PhysicalKey::Code(KeyCode::BrowserStop)
    } else if keysym == KEYSYM_XF86_SEARCH {
        PhysicalKey::Code(KeyCode::BrowserSearch)
    } else if keysym == KEYSYM_XF86_HOME_PAGE {
        PhysicalKey::Code(KeyCode::BrowserHome)
    } else if keysym == KEYSYM_XF86_FAVORITES {
        PhysicalKey::Code(KeyCode::BrowserFavorites)
    } else if keysym == KEYSYM_XF86_POWER_OFF {
        PhysicalKey::Code(KeyCode::Power)
    } else if keysym == KEYSYM_XF86_SLEEP {
        PhysicalKey::Code(KeyCode::Sleep)
    } else if keysym == KEYSYM_XF86_WAKE_UP {
        PhysicalKey::Code(KeyCode::WakeUp)
    } else if keysym == KEYSYM_XF86_CALCULATOR {
        PhysicalKey::Code(KeyCode::LaunchApp2)
    } else if keysym == KEYSYM_XF86_MAIL {
        PhysicalKey::Code(KeyCode::LaunchMail)
    } else if keysym == KEYSYM_XF86_MY_COMPUTER {
        PhysicalKey::Code(KeyCode::LaunchApp1)
    } else if keysym == KEYSYM_XF86_MUSIC {
        PhysicalKey::Code(KeyCode::MediaSelect)
    } else if keysym == KEYSYM_XF86_VIDEO {
        PhysicalKey::Code(KeyCode::LaunchApp2)
    } else if keysym == KEYSYM_XF86_COPY {
        PhysicalKey::Code(KeyCode::Copy)
    } else if keysym == KEYSYM_XF86_CUT {
        PhysicalKey::Code(KeyCode::Cut)
    } else if keysym == KEYSYM_XF86_PASTE {
        PhysicalKey::Code(KeyCode::Paste)
    } else if keysym == KEYSYM_HENKAN_MODE {
        PhysicalKey::Code(KeyCode::Convert)
    } else if keysym == KEYSYM_MUHENKAN {
        PhysicalKey::Code(KeyCode::NonConvert)
    } else if keysym == KEYSYM_KANJI {
        PhysicalKey::Code(KeyCode::Lang2)
    } else if keysym == KEYSYM_HIRAGANA {
        PhysicalKey::Code(KeyCode::Lang4)
    } else if keysym == KEYSYM_KATAKANA {
        PhysicalKey::Code(KeyCode::Lang3)
    } else if keysym == KEYSYM_MENU {
        PhysicalKey::Code(KeyCode::ContextMenu)
    } else {
        PhysicalKey::Unidentified(raw_code)
    }
}

/// What `wayland_button_to_iced` returns for every raw button code.
pub open spec fn spec_pointer_button(button: u32) -> Option<MouseButton> {
    if button == BTN_CODE_LEFT {
        Some(MouseButton::Left)
    } else if button == BTN_CODE_RIGHT {
        Some(MouseButton::Right)
    } else if button == BTN_CODE_MIDDLE {
        Some(MouseButton::Middle)
    } else {
        None
    }
}

/// Maps a layout-dependent key symbol to the abstract logical key and its
/// location on the keyboard.  Total: symbols outside the table map to
/// `Unidentified` at the `Standard` location, never to a missing result.
pub fn map_logical_key(keysym: u32) -> (r: (LogicalKey, KeyLocation))
    ensures
        r.0 == spec_logical_key(keysym),
        r.1 == spec_key_location(keysym),
{
    (logical_key_of(keysym), key_location_of(keysym))
}

/// `map_logical_key` under its toolkit-facing name: callers that speak
/// the protocol's vocabulary reach the same total mapping here.
pub fn keysym_to_iced_key_and_loc(keysym: u32) -> (r: (LogicalKey, KeyLocation))
    ensures
        r.0 == spec_logical_key(keysym),
        r.1 == spec_key_location(keysym),
{
    map_logical_key(keysym)
}

fn logical_key_of(keysym: u32) -> (r: LogicalKey)
    ensures
        r == spec_logical_key(keysym),
{
    if keysym == KEYSYM_BACKSPACE {
        LogicalKey::Named(NamedKey::Backspace)
    } else if keysym == KEYSYM_TAB {
        LogicalKey::Named(NamedKey::Tab)
    } else if keysym == KEYSYM_CLEAR {
        LogicalKey::Named(NamedKey::Clear)
    } else if keysym == KEYSYM_RETURN {
        LogicalKey::Named(NamedKey::Enter)
    } else if keysym == KEYSYM_PAUSE {
        LogicalKey::Named(NamedKey::Pause)
    } else if keysym == KEYSYM_SCROLL_LOCK {
        LogicalKey::Named(NamedKey::ScrollLock)
    } else if keysym == KEYSYM_SYS_REQ {
        LogicalKey::Named(NamedKey::PrintScreen)
    } else if keysym == KEYSYM_ESCAPE {
        LogicalKey::Named(NamedKey::Escape)
    } else if keysym == KEYSYM_DELETE {
        LogicalKey::Named(NamedKey::Delete)
    } else if keysym == KEYSYM_MULTI_KEY {
        LogicalKey::Named(NamedKey::Compose)
    } else if keysym == KEYSYM_CODEINPUT {
        LogicalKey::Named(NamedKey::CodeInput)
    } else if keysym == KEYSYM_SINGLE_CANDIDATE {
        LogicalKey::Named(NamedKey::SingleCandidate)
    } else if keysym == KEYSYM_MULTIPLE_CANDIDATE {
        LogicalKey::Named(NamedKey::AllCandidates)
    } else if keysym == KEYSYM_PREVIOUS_CANDIDATE {
        LogicalKey::Named(NamedKey::PreviousCandidate)
    } else if keysym == KEYSYM_KANJI {
        LogicalKey::Named(NamedKey::KanjiMode)
    } else if keysym == KEYSYM_MUHENKAN {
        LogicalKey::Named(NamedKey::NonConvert)
    } else if keysym == KEYSYM_HENKAN_MODE {
        LogicalKey::Named(NamedKey::Convert)
    } else if keysym == KEYSYM_ROMAJI {
        LogicalKey::Named(NamedKey::Romaji)
    } else if keysym == KEYSYM_HIRAGANA {
        LogicalKey::Named(NamedKey::Hiragana)
    } else if keysym == KEYSYM_HIRAGANA_KATAKANA {
        LogicalKey::Named(NamedKey::HiraganaKatakana)
    } else if keysym == KEYSYM_ZENKAKU {
        LogicalKey::Named(NamedKey::Zenkaku)
    } else if keysym == KEYSYM_HANKAKU {
        LogicalKey::Named(NamedKey::Hankaku)
    } else if keysym == KEYSYM_ZENKAKU_HANKAKU {
        LogicalKey::Named(NamedKey::ZenkakuHankaku)
    } else if keysym == KEYSYM_KANA_LOCK {
        LogicalKey::Named(NamedKey::KanaMode)
    } else if keysym == KEYSYM_KANA_SHIFT {
        LogicalKey::Named(NamedKey::KanaMode)
    } else if keysym == KEYSYM_EISU_SHIFT {
        LogicalKey::Named(NamedKey::Alphanumeric)
    } else if keysym == KEYSYM_EISU_TOGGLE {
        LogicalKey::Named(NamedKey::Alphanumeric)
    } else if keysym == KEYSYM_HOME {
        LogicalKey::Named(NamedKey::Home)
    } else if keysym == KEYSYM_LEFT {
        LogicalKey::Named(NamedKey::ArrowLeft)
    } else if keysym == KEYSYM_UP {
        LogicalKey::Named(NamedKey::ArrowUp)
    } else if keysym == KEYSYM_RIGHT {
        LogicalKey::Named(NamedKey::ArrowRight)
    } else if keysym == KEYSYM_DOWN {
        LogicalKey::Named(NamedKey::ArrowDown)
    } else if keysym == KEYSYM_PAGE_UP {
        LogicalKey::Named(NamedKey::PageUp)
    } else if keysym == KEYSYM_PAGE_DOWN {
        LogicalKey::Named(NamedKey::PageDown)
    } else if keysym == KEYSYM_END {
        LogicalKey::Named(NamedKey::End)
    } else if keysym == KEYSYM_SELECT {
        LogicalKey::Named(NamedKey::Select)
    } else if keysym == KEYSYM_PRINT {
        LogicalKey::Named(NamedKey::PrintScreen)
    } else if keysym == KEYSYM_EXECUTE {
        LogicalKey::Named(NamedKey::Execute)
    } else if keysym == KEYSYM_INSERT {
        LogicalKey::Named(NamedKey::Insert)
    } else if keysym == KEYSYM_UNDO {
        LogicalKey::Named(NamedKey::Undo)
    } else if keysym == KEYSYM_REDO {
        LogicalKey::Named(NamedKey::Redo)
    } else if keysym == KEYSYM_MENU {
        LogicalKey::Named(NamedKey::ContextMenu)
    } else if keysym == KEYSYM_FIND {
        LogicalKey::Named(NamedKey::Find)
    } else if keysym == KEYSYM_CANCEL {
        LogicalKey::Named(NamedKey::Cancel)
    } else if keysym == KEYSYM_HELP {
        LogicalKey::Named(NamedKey::Help)
    } else if keysym == KEYSYM_BREAK {
        LogicalKey::Named(NamedKey::Pause)
    } else if keysym == KEYSYM_MODE_SWITCH {
        LogicalKey::Named(NamedKey::ModeChange)
    } else if keysym == KEYSYM_NUM_LOCK {
        LogicalKey::Named(NamedKey::NumLock)
    } else if keysym == KEYSYM_KP_TAB {
        LogicalKey::Named(NamedKey::Tab)
    } else if keysym == KEYSYM_KP_ENTER {
        LogicalKey::Named(NamedKey::Enter)
    } else if keysym == KEYSYM_KP_F1 {
        LogicalKey::Named(NamedKey::F1)
    } else if keysym == KEYSYM_KP_F2 {
        LogicalKey::Named(NamedKey::F2)
    } else if keysym == KEYSYM_KP_F3 {
        LogicalKey::Named(NamedKey::F3)
    } else if keysym == KEYSYM_KP_F4 {
        LogicalKey::Named(NamedKey::F4)
    } else if keysym == KEYSYM_KP_HOME {
        LogicalKey::Named(NamedKey::Home)
    } else if keysym == KEYSYM_KP_LEFT {
        LogicalKey::Named(NamedKey::ArrowLeft)
    } else if keysym == KEYSYM_KP_UP {
        LogicalKey::Named(NamedKey::ArrowUp)
    } else if keysym == KEYSYM_KP_RIGHT {
        LogicalKey::Named(NamedKey::ArrowRight)
    } else if keysym == KEYSYM_KP_DOWN {
        LogicalKey::Named(NamedKey::ArrowDown)
    } else if keysym == KEYSYM_KP_PAGE_UP {
        LogicalKey::Named(NamedKey::PageUp)
    } else if keysym == KEYSYM_KP_PAGE_DOWN {
        LogicalKey::Named(NamedKey::PageDown)
    } else if keysym == KEYSYM_KP_END {
        LogicalKey::Named(NamedKey::End)
    } else if keysym == KEYSYM_KP_INSERT {
        LogicalKey::Named(NamedKey::Insert)
    } else if keysym == KEYSYM_KP_DELETE {
        LogicalKey::Named(NamedKey::Delete)
    } else if keysym == KEYSYM_F1 {
        LogicalKey::Named(NamedKey::F1)
    } else if keysym == KEYSYM_F2 {
        LogicalKey::Named(NamedKey::F2)
    } else if keysym == KEYSYM_F3 {
        LogicalKey::Named(NamedKey::F3)
    } else if keysym == KEYSYM_F4 {
        LogicalKey::Named(NamedKey::F4)
    } else if keysym == KEYSYM_F5 {
        LogicalKey::Named(NamedKey::F5)
    } else if keysym == KEYSYM_F6 {
        LogicalKey::Named(NamedKey::F6)
    } else if keysym == KEYSYM_F7 {
        LogicalKey::Named(NamedKey::F7)
    } else if keysym == KEYSYM_F8 {
        LogicalKey::Named(NamedKey::F8)
    } else if keysym == KEYSYM_F9 {
        LogicalKey::Named(NamedKey::F9)
    } else if keysym == KEYSYM_F10 {
        LogicalKey::Named(NamedKey::F10)
    } else if keysym == KEYSYM_F11 {
        LogicalKey::Named(NamedKey::F11)
    } else if keysym == KEYSYM_F12 {
        LogicalKey::Named(NamedKey::F12)
    } else if keysym == KEYSYM_F13 {
        LogicalKey::Named(NamedKey::F13)
    } else if keysym == KEYSYM_F14 {
        LogicalKey::Named(NamedKey::F14)
    } else if keysym == KEYSYM_F15 {
        LogicalKey::Named(NamedKey::F15)
    } else if keysym == KEYSYM_F16 {
        LogicalKey::Named(NamedKey::F16)
    } else if keysym == KEYSYM_F17 {
        LogicalKey::Named(NamedKey::F17)
    } else if keysym == KEYSYM_F18 {
        LogicalKey::Named(NamedKey::F18)
    } else if keysym == KEYSYM_F19 {
        LogicalKey::Named(NamedKey::F19)
    } else if keysym == KEYSYM_F20 {
        LogicalKey::Named(NamedKey::F20)
    } else if keysym == KEYSYM_F21 {
        LogicalKey::Named(NamedKey::F21)
    } else if keysym == KEYSYM_F22 {
        LogicalKey::Named(NamedKey::F22)
    } else if keysym == KEYSYM_F23 {
        LogicalKey::Named(NamedKey::F23)
    } else if keysym == KEYSYM_F24 {
        LogicalKey::Named(NamedKey::F24)
    } else if keysym == KEYSYM_F25 {
        LogicalKey::Named(NamedKey::F25)
    } else if keysym == KEYSYM_F26 {
        LogicalKey::Named(NamedKey::F26)
    } else if keysym == KEYSYM_F27 {
        LogicalKey::Named(NamedKey::F27)
    } else if keysym == KEYSYM_F28 {
        LogicalKey::Named(NamedKey::F28)
    } else if keysym == KEYSYM_F29 {
        LogicalKey::Named(NamedKey::F29)
    } else if keysym == KEYSYM_F30 {
        LogicalKey::Named(NamedKey::F30)
    } else if keysym == KEYSYM_F31 {
        LogicalKey::Named(NamedKey::F31)
    } else if keysym == KEYSYM_F32 {
        LogicalKey::Named(NamedKey::F32)
    } else if keysym == KEYSYM_F33 {
        LogicalKey::Named(NamedKey::F33)
    } else if keysym == KEYSYM_F34 {
        LogicalKey::Named(NamedKey::F34)
    } else if keysym == KEYSYM_F35 {
        LogicalKey::Named(NamedKey::F35)
    } else if keysym == KEYSYM_SHIFT_L {
        LogicalKey::Named(NamedKey::Shift)
    } else if keysym == KEYSYM_SHIFT_R {
        LogicalKey::Named(NamedKey::Shift)
    } else if keysym == KEYSYM_CONTROL_L {
        LogicalKey::Named(NamedKey::Control)
    } else if keysym == KEYSYM_CONTROL_R {
        LogicalKey::Named(NamedKey::Control)
    } else if keysym == KEYSYM_CAPS_LOCK {
        LogicalKey::Named(NamedKey::CapsLock)
    } else if keysym == KEYSYM_ALT_L {
        LogicalKey::Named(NamedKey::Alt)
    } else if keysym == KEYSYM_ALT_R {
        LogicalKey::Named(NamedKey::Alt)
    } else if keysym == KEYSYM_SUPER_L {
        LogicalKey::Named(NamedKey::Super)
    } else if keysym == KEYSYM_SUPER_R {
        LogicalKey::Named(NamedKey::Super)
    } else if keysym == KEYSYM_HYPER_L {
        LogicalKey::Named(NamedKey::Hyper)
    } else if keysym == KEYSYM_HYPER_R {
        LogicalKey::Named(NamedKey::Hyper)
    } else if keysym == KEYSYM_ISO_LEVEL3_SHIFT {
        LogicalKey::Named(NamedKey::AltGraph)
    } else if keysym == KEYSYM_ISO_LEVEL3_LATCH {
        LogicalKey::Named(NamedKey::AltGraph)
    } else if keysym == KEYSYM_ISO_LEVEL3_LOCK {
        LogicalKey::Named(NamedKey::AltGraph)
    } else if keysym == KEYSYM_ISO_NEXT_GROUP {
        LogicalKey::Named(NamedKey::GroupNext)
    } else if keysym == KEYSYM_ISO_PREV_GROUP {
        LogicalKey::Named(NamedKey::GroupPrevious)
    } else if keysym == KEYSYM_ISO_FIRST_GROUP {
        LogicalKey::Named(NamedKey::GroupFirst)
    } else if keysym == KEYSYM_ISO_LAST_GROUP {
        LogicalKey::Named(NamedKey::GroupLast)
    } else if keysym == KEYSYM_ISO_LEFT_TAB {
        LogicalKey::Named(NamedKey::Tab)
    } else if keysym == KEYSYM_ISO_ENTER {
        LogicalKey::Named(NamedKey::Enter)
    } else if keysym == KEYSYM_3270_ERASE_EOF {
        LogicalKey::Named(NamedKey::EraseEof)
    } else if keysym == KEYSYM_3270_ATTN {
        LogicalKey::Named(NamedKey::Attn)
    } else if keysym == KEYSYM_3270_PLAY {
        LogicalKey::Named(NamedKey::Play)
    } else if keysym == KEYSYM_3270_EX_SELECT {
        LogicalKey::Named(NamedKey::ExSel)
    } else if keysym == KEYSYM_3270_CURSOR_SELECT {
        LogicalKey::Named(NamedKey::CrSel)
    } else if keysym == KEYSYM_3270_PRINT_SCREEN {
        LogicalKey::Named(NamedKey::PrintScreen)
    } else if keysym == KEYSYM_3270_ENTER {
        LogicalKey::Named(NamedKey::Enter)
    } else if keysym == KEYSYM_SPACE {
        LogicalKey::Named(NamedKey::Space)
    } else if keysym == KEYSYM_XF86_MON_BRIGHTNESS_UP {
        LogicalKey::Named(NamedKey::BrightnessUp)
    } else if keysym == KEYSYM_XF86_MON_BRIGHTNESS_DOWN {
        LogicalKey::Named(NamedKey::BrightnessDown)
    } else if keysym == KEYSYM_XF86_STANDBY {
        LogicalKey::Named(NamedKey::Standby)
    } else if keysym == KEYSYM_XF86_AUDIO_LOWER_VOLUME {
        LogicalKey::Named(NamedKey::AudioVolumeDown)
    } else if keysym == KEYSYM_XF86_AUDIO_RAISE_VOLUME {
        LogicalKey::Named(NamedKey::AudioVolumeUp)
    } else if keysym == KEYSYM_XF86_AUDIO_PLAY {
        LogicalKey::Named(NamedKey::MediaPlay)
    } else if keysym == KEYSYM_XF86_AUDIO_STOP {
        LogicalKey::Named(NamedKey::MediaStop)
    } else if keysym == KEYSYM_XF86_AUDIO_PREV {
        LogicalKey::Named(NamedKey::MediaTrackPrevious)
    } else if keysym == KEYSYM_XF86_AUDIO_NEXT {
        LogicalKey::Named(NamedKey::MediaTrackNext)
    } else if keysym == KEYSYM_XF86_HOME_PAGE {
        LogicalKey::Named(NamedKey::BrowserHome)
    } else if keysym == KEYSYM_XF86_MAIL {
        LogicalKey::Named(NamedKey::LaunchMail)
    } else if keysym == KEYSYM_XF86_SEARCH {
        LogicalKey::Named(NamedKey::BrowserSearch)
    } else if keysym == KEYSYM_XF86_AUDIO_RECORD {
        LogicalKey::Named(NamedKey::MediaRecord)
    } else if keysym == KEYSYM_XF86_CALCULATOR {
        LogicalKey::Named(NamedKey::LaunchApplication2)
    } else if keysym == KEYSYM_XF86_CALENDAR {
        LogicalKey::Named(NamedKey::LaunchCalendar)
    } else if keysym == KEYSYM_XF86_POWER_DOWN {
        LogicalKey::Named(NamedKey::Power)
    } else if keysym == KEYSYM_XF86_BACK {
        LogicalKey::Named(NamedKey::BrowserBack)
    } else if keysym == KEYSYM_XF86_FORWARD {
        LogicalKey::Named(NamedKey::BrowserForward)
    } else if keysym == KEYSYM_XF86_REFRESH {
        LogicalKey::Named(NamedKey::BrowserRefresh)
    } else if keysym == KEYSYM_XF86_POWER_OFF {
        LogicalKey::Named(NamedKey::Power)
    } else if keysym == KEYSYM_XF86_WAKE_UP {
        LogicalKey::Named(NamedKey::WakeUp)
    } else if keysym == KEYSYM_XF86_EJECT {
        LogicalKey::Named(NamedKey::Eject)
    } else if keysym == KEYSYM_XF86_SCREEN_SAVER {
        LogicalKey::Named(NamedKey::LaunchScreenSaver)
    } else if keysym == KEYSYM_XF86_WWW {
        LogicalKey::Named(NamedKey::LaunchWebBrowser)
    } else if keysym == KEYSYM_XF86_SLEEP {
        LogicalKey::Named(NamedKey::Standby)
    } else if keysym == KEYSYM_XF86_FAVORITES {
        LogicalKey::Named(NamedKey::BrowserFavorites)
    } else if keysym == KEYSYM_XF86_AUDIO_PAUSE {
        LogicalKey::Named(NamedKey::MediaPause)
    } else if keysym == KEYSYM_XF86_MY_COMPUTER {
        LogicalKey::Named(NamedKey::LaunchApplication1)
    } else if keysym == KEYSYM_XF86_AUDIO_REWIND {
        LogicalKey::Named(NamedKey::MediaRewind)
    } else if keysym == KEYSYM_XF86_CALCULATER {
        LogicalKey::Named(NamedKey::LaunchApplication2)
    } else if keysym == KEYSYM_XF86_CLOSE {
        LogicalKey::Named(NamedKey::Close)
    } else if keysym == KEYSYM_XF86_COPY {
        LogicalKey::Named(NamedKey::Copy)
    } else if keysym == KEYSYM_XF86_CUT {
        LogicalKey::Named(NamedKey::Cut)
    } else if keysym == KEYSYM_XF86_EXCEL {
        LogicalKey::Named(NamedKey::LaunchSpreadsheet)
    } else if keysym == KEYSYM_XF86_LOG_OFF {
        LogicalKey::Named(NamedKey::LogOff)
    } else if keysym == KEYSYM_XF86_MY_SITES {
        LogicalKey::Named(NamedKey::BrowserFavorites)
    } else if keysym == KEYSYM_XF86_NEW {
        LogicalKey::Named(NamedKey::New)
    } else if keysym == KEYSYM_XF86_OPEN {
        LogicalKey::Named(NamedKey::Open)
    } else if keysym == KEYSYM_XF86_PASTE {
        LogicalKey::Named(NamedKey::Paste)
    } else if keysym == KEYSYM_XF86_PHONE {
        LogicalKey::Named(NamedKey::LaunchPhone)
    } else if keysym == KEYSYM_XF86_REPLY {
        LogicalKey::Named(NamedKey::MailReply)
    } else if keysym == KEYSYM_XF86_RELOAD {
        LogicalKey::Named(NamedKey::BrowserRefresh)
    } else if keysym == KEYSYM_XF86_SAVE {
        LogicalKey::Named(NamedKey::Save)
    } else if keysym == KEYSYM_XF86_SEND {
        LogicalKey::Named(NamedKey::MailSend)
    } else if keysym == KEYSYM_XF86_SPELL {
        LogicalKey::Named(NamedKey::SpellCheck)
    } else if keysym == KEYSYM_XF86_SPLIT_SCREEN {
        LogicalKey::Named(NamedKey::SplitScreenToggle)
    } else if keysym == KEYSYM_XF86_VIDEO {
        LogicalKey::Named(NamedKey::LaunchMediaPlayer)
    } else if keysym == KEYSYM_XF86_WORD {
        LogicalKey::Named(NamedKey::LaunchWordProcessor)
    } else if keysym == KEYSYM_XF86_ZOOM_IN {
        LogicalKey::Named(NamedKey::ZoomIn)
    } else if keysym == KEYSYM_XF86_ZOOM_OUT {
        LogicalKey::Named(NamedKey::ZoomOut)
    } else if keysym == KEYSYM_XF86_WEB_CAM {
        LogicalKey::Named(NamedKey::LaunchWebCam)
    } else if keysym == KEYSYM_XF86_MAIL_FORWARD {
        LogicalKey::Named(NamedKey::MailForward)
    } else if keysym == KEYSYM_XF86_MUSIC {
        LogicalKey::Named(NamedKey::LaunchMusicPlayer)
    } else if keysym == KEYSYM_XF86_AUDIO_FORWARD {
        LogicalKey::Named(NamedKey::MediaFastForward)
    } else if keysym == KEYSYM_XF86_AUDIO_RANDOM_PLAY {
        LogicalKey::Named(NamedKey::RandomToggle)
    } else if keysym == KEYSYM_XF86_SUBTITLE {
        LogicalKey::Named(NamedKey::Subtitle)
    } else if keysym == KEYSYM_XF86_AUDIO_CYCLE_TRACK {
        LogicalKey::Named(NamedKey::MediaAudioTrack)
    } else if keysym == KEYSYM_XF86_SUSPEND {
        LogicalKey::Named(NamedKey::Standby)
    } else if keysym == KEYSYM_XF86_HIBERNATE {
        LogicalKey::Named(NamedKey::Hibernate)
    } else if keysym == KEYSYM_XF86_AUDIO_MUTE {
        LogicalKey::Named(NamedKey::AudioVolumeMute)
    } else if keysym == KEYSYM_XF86_NEXT_VMODE {
        LogicalKey::Named(NamedKey::VideoModeNext)
    } else if keysym == KEYSYM_SUN_COPY {
        LogicalKey::Named(NamedKey::Copy)
    } else if keysym == KEYSYM_SUN_OPEN {
        LogicalKey::Named(NamedKey::Open)
    } else if keysym == KEYSYM_SUN_PASTE {
        LogicalKey::Named(NamedKey::Paste)
    } else if keysym == KEYSYM_SUN_CUT {
        LogicalKey::Named(NamedKey::Cut)
    } else if keysym == KEYSYM_SUN_AUDIO_LOWER_VOLUME {
        LogicalKey::Named(NamedKey::AudioVolumeDown)
    } else if keysym == KEYSYM_SUN_AUDIO_MUTE {
        LogicalKey::Named(NamedKey::AudioVolumeMute)
    } else if keysym == KEYSYM_SUN_AUDIO_RAISE_VOLUME {
        LogicalKey::Named(NamedKey::AudioVolumeUp)
    } else if keysym == KEYSYM_SUN_VIDEO_LOWER_BRIGHTNESS {
        LogicalKey::Named(NamedKey::BrightnessDown)
    } else if keysym == KEYSYM_SUN_VIDEO_RAISE_BRIGHTNESS {
        LogicalKey::Named(NamedKey::BrightnessUp)
    } else {
        LogicalKey::Unidentified
    }
}

fn key_location_of(keysym: u32) -> (r: KeyLocation)
    ensures
        r == spec_key_location(keysym),
{
    if keysym == KEYSYM_SHIFT_L {
        KeyLocation::Left
    } else if keysym == KEYSYM_CONTROL_L {
        KeyLocation::Left
    } else if keysym == KEYSYM_ALT_L {
        KeyLocation::Left
    } else if keysym == KEYSYM_SUPER_L {
        KeyLocation::Left
    } else if keysym == KEYSYM_HYPER_L {
        KeyLocation::Left
    } else if keysym == KEYSYM_SHIFT_R {
        KeyLocation::Right
    } else if keysym == KEYSYM_CONTROL_R {
        KeyLocation::Right
    } else if keysym == KEYSYM_ALT_R {
        KeyLocation::Right
    } else if keysym == KEYSYM_SUPER_R {
        KeyLocation::Right
    } else if keysym == KEYSYM_HYPER_R {
        KeyLocation::Right
    } else if keysym == KEYSYM_KP_0 {
        KeyLocation::Numpad
    } else if keysym == KEYSYM_KP_1 {
        KeyLocation::Numpad
    } else if keysym == KEYSYM_KP_2 {
        KeyLocation::Numpad
    } else if keysym == KEYSYM_KP_3 {
        KeyLocation::Numpad
    } else if keysym == KEYSYM_KP_4 {
        KeyLocation::Numpad
    } else if keysym == KEYSYM_KP_5 {
        KeyLocation::Numpad
    } else if keysym == KEYSYM_KP_6 {
        KeyLocation::Numpad
    } else if keysym == KEYSYM_KP_7 {
        KeyLocation::Numpad
    } else if keysym == KEYSYM_KP_8 {
        KeyLocation::Numpad
    } else if keysym == KEYSYM_KP_9 {
        KeyLocation::Numpad
    } else if keysym == KEYSYM_KP_SPACE {
        KeyLocation::Numpad
    } else if keysym == KEYSYM_KP_TAB {
        KeyLocation::Numpad
    } else if keysym == KEYSYM_KP_ENTER {
        KeyLocation::Numpad
    } else if keysym == KEYSYM_KP_F1 {
        KeyLocation::Numpad
    } else if keysym == KEYSYM_KP_F2 {
        KeyLocation::Numpad
    } else if keysym == KEYSYM_KP_F3 {
        KeyLocation::Numpad
    } else if keysym == KEYSYM_KP_F4 {
        KeyLocation::Numpad
    } else if keysym == KEYSYM_KP_HOME {
        KeyLocation::Numpad
    } else if keysym == KEYSYM_KP_LEFT {
        KeyLocation::Numpad
    } else if keysym == KEYSYM_KP_UP {
        KeyLocation::Numpad
    } else if keysym == KEYSYM_KP_RIGHT {
        KeyLocation::Numpad
    } else if keysym == KEYSYM_KP_DOWN {
        KeyLocation::Numpad
    } else if keysym == KEYSYM_KP_PAGE_UP {
        KeyLocation::Numpad
    } else if keysym == KEYSYM_KP_PAGE_DOWN {
        KeyLocation::Numpad
    } else if keysym == KEYSYM_KP_END {
        KeyLocation::Numpad
    } else if keysym == KEYSYM_KP_BEGIN {
        KeyLocation::Numpad
    } else if keysym == KEYSYM_KP_INSERT {
        KeyLocation::Numpad
    } else if keysym == KEYSYM_KP_DELETE {
        KeyLocation::Numpad
    } else if keysym == KEYSYM_KP_EQUAL {
        KeyLocation::Numpad
    } else if keysym == KEYSYM_KP_MULTIPLY {
        KeyLocation::Numpad
    } else if keysym == KEYSYM_KP_ADD {
        KeyLocation::Numpad
    } else if keysym == KEYSYM_KP_SEPARATOR {
        KeyLocation::Numpad
    } else if keysym == KEYSYM_KP_SUBTRACT {
        KeyLocation::Numpad
    } else if keysym == KEYSYM_KP_DECIMAL {
        KeyLocation::Numpad
    } else if keysym == KEYSYM_KP_DIVIDE {
        KeyLocation::Numpad
    } else {
        KeyLocation::Standard
    }
}

/// Maps a key symbol plus its raw hardware scan code to a
/// layout-independent physical key.  Total: an unmapped symbol carries the
/// raw scan code verbatim instead of being dropped.
pub fn map_physical_key(keysym: u32, raw_code: u32) -> (r: PhysicalKey)
    ensures
        r == spec_physical_key(keysym, raw_code),
{
    if keysym == KEYSYM_0 {
        PhysicalKey::Code(KeyCode::Digit0)
    } else if keysym == KEYSYM_1 {
        PhysicalKey::Code(KeyCode::Digit1)
    } else if keysym == KEYSYM_2 {
        PhysicalKey::Code(KeyCode::Digit2)
    } else if keysym == KEYSYM_3 {
        PhysicalKey::Code(KeyCode::Digit3)
    } else if keysym == KEYSYM_4 {
        PhysicalKey::Code(KeyCode::Digit4)
    } else if keysym == KEYSYM_5 {
        PhysicalKey::Code(KeyCode::Digit5)
    } else if keysym == KEYSYM_6 {
        PhysicalKey::Code(KeyCode::Digit6)
    } else if keysym == KEYSYM_7 {
        PhysicalKey::Code(KeyCode::Digit7)
    } else if keysym == KEYSYM_8 {
        PhysicalKey::Code(KeyCode::Digit8)
    } else if keysym == KEYSYM_9 {
        PhysicalKey::Code(KeyCode::Digit9)
    } else if keysym == KEYSYM_A {
        PhysicalKey::Code(KeyCode::KeyA)
    } else if keysym == KEYSYM_UPPER_A {
        PhysicalKey::Code(KeyCode::KeyA)
    } else if keysym == KEYSYM_B {
        PhysicalKey::Code(KeyCode::KeyB)
    } else if keysym == KEYSYM_UPPER_B {
        PhysicalKey::Code(KeyCode::KeyB)
    } else if keysym == KEYSYM_C {
        PhysicalKey::Code(KeyCode::KeyC)
    } else if keysym == KEYSYM_UPPER_C {
        PhysicalKey::Code(KeyCode::KeyC)
    } else if keysym == KEYSYM_D {
        PhysicalKey::Code(KeyCode::KeyD)
    } else if keysym == KEYSYM_UPPER_D {
        PhysicalKey::Code(KeyCode::KeyD)
    } else if keysym == KEYSYM_E {
        PhysicalKey::Code(KeyCode::KeyE)
    } else if keysym == KEYSYM_UPPER_E {
        PhysicalKey::Code(KeyCode::KeyE)
    } else if keysym == KEYSYM_F {
        PhysicalKey::Code(KeyCode::KeyF)
    } else if keysym == KEYSYM_UPPER_F {
        PhysicalKey::Code(KeyCode::KeyF)
    } else if keysym == KEYSYM_G {
        PhysicalKey::Code(KeyCode::KeyG)
    } else if keysym == KEYSYM_UPPER_G {
        PhysicalKey::Code(KeyCode::KeyG)
    } else if keysym == KEYSYM_H {
        PhysicalKey::Code(KeyCode::KeyH)
    } else if keysym == KEYSYM_UPPER_H {
        PhysicalKey::Code(KeyCode::KeyH)
    } else if keysym == KEYSYM_I {
        PhysicalKey::Code(KeyCode::KeyI)
    } else if keysym == KEYSYM_UPPER_I {
        PhysicalKey::Code(KeyCode::KeyI)
    } else if keysym == KEYSYM_J {
        PhysicalKey::Code(KeyCode::KeyJ)
    } else if keysym == KEYSYM_UPPER_J {
        PhysicalKey::Code(KeyCode::KeyJ)
    } else if keysym == KEYSYM_K {
        PhysicalKey::Code(KeyCode::KeyK)
    } else if keysym == KEYSYM_UPPER_K {
        PhysicalKey::Code(KeyCode::KeyK)
    } else if keysym == KEYSYM_L {
        PhysicalKey::Code(KeyCode::KeyL)
    } else if keysym == KEYSYM_UPPER_L {
        PhysicalKey::Code(KeyCode::KeyL)
    } else if keysym == KEYSYM_M {
        PhysicalKey::Code(KeyCode::KeyM)
    } else if keysym == KEYSYM_UPPER_M {
        PhysicalKey::Code(KeyCode::KeyM)
    } else if keysym == KEYSYM_N {
        PhysicalKey::Code(KeyCode::KeyN)
    } else if keysym == KEYSYM_UPPER_N {
        PhysicalKey::Code(KeyCode::KeyN)
    } else if keysym == KEYSYM_O {
        PhysicalKey::Code(KeyCode::KeyO)
    } else if keysym == KEYSYM_UPPER_O {
        PhysicalKey::Code(KeyCode::KeyO)
    } else if keysym == KEYSYM_P {
        PhysicalKey::Code(KeyCode::KeyP)
    } else if keysym == KEYSYM_UPPER_P {
        PhysicalKey::Code(KeyCode::KeyP)
    } else if keysym == KEYSYM_Q {
        PhysicalKey::Code(KeyCode::KeyQ)
    } else if keysym == KEYSYM_UPPER_Q {
        PhysicalKey::Code(KeyCode::KeyQ)
    } else if keysym == KEYSYM_R {
        PhysicalKey::Code(KeyCode::KeyR)
    } else if keysym == KEYSYM_UPPER_R {
        PhysicalKey::Code(KeyCode::KeyR)
    } else if keysym == KEYSYM_S {
        PhysicalKey::Code(KeyCode::KeyS)
    } else if keysym == KEYSYM_UPPER_S {
        PhysicalKey::Code(KeyCode::KeyS)
    } else if keysym == KEYSYM_T {
        PhysicalKey::Code(KeyCode::KeyT)
    } else if keysym == KEYSYM_UPPER_T {
        PhysicalKey::Code(KeyCode::KeyT)
    } else if keysym == KEYSYM_U {
        PhysicalKey::Code(KeyCode::KeyU)
    } else if keysym == KEYSYM_UPPER_U {
        PhysicalKey::Code(KeyCode::KeyU)
    } else if keysym == KEYSYM_V {
        PhysicalKey::Code(KeyCode::KeyV)
    } else if keysym == KEYSYM_UPPER_V {
        PhysicalKey::Code(KeyCode::KeyV)
    } else if keysym == KEYSYM_W {
        PhysicalKey::Code(KeyCode::KeyW)
    } else if keysym == KEYSYM_UPPER_W {
        PhysicalKey::Code(KeyCode::KeyW)
    } else if keysym == KEYSYM_X {
        PhysicalKey::Code(KeyCode::KeyX)
    } else if keysym == KEYSYM_UPPER_X {
        PhysicalKey::Code(KeyCode::KeyX)
    } else if keysym == KEYSYM_Y {
        PhysicalKey::Code(KeyCode::KeyY)
    } else if keysym == KEYSYM_UPPER_Y {
        PhysicalKey::Code(KeyCode::KeyY)
    } else if keysym == KEYSYM_Z {
        PhysicalKey::Code(KeyCode::KeyZ)
    } else if keysym == KEYSYM_UPPER_Z {
        PhysicalKey::Code(KeyCode::KeyZ)
    } else if keysym == KEYSYM_GRAVE {
        PhysicalKey::Code(KeyCode::Backquote)
    } else if keysym == KEYSYM_MINUS {
        PhysicalKey::Code(KeyCode::Minus)
    } else if keysym == KEYSYM_EQUAL {
        PhysicalKey::Code(KeyCode::Equal)
    } else if keysym == KEYSYM_BRACKET_LEFT {
        PhysicalKey::Code(KeyCode::BracketLeft)
    } else if keysym == KEYSYM_BRACKET_RIGHT {
        PhysicalKey::Code(KeyCode::BracketRight)
    } else if keysym == KEYSYM_BACKSLASH {
        PhysicalKey::Code(KeyCode::Backslash)
    } else if keysym == KEYSYM_SEMICOLON {
        PhysicalKey::Code(KeyCode::Semicolon)
    } else if keysym == KEYSYM_APOSTROPHE {
        PhysicalKey::Code(KeyCode::Quote)
    } else if keysym == KEYSYM_COMMA {
        PhysicalKey::Code(KeyCode::Comma)
    } else if keysym == KEYSYM_PERIOD {
        PhysicalKey::Code(KeyCode::Period)
    } else if keysym == KEYSYM_SLASH {
        PhysicalKey::Code(KeyCode::Slash)
    } else if keysym == KEYSYM_SPACE {
        PhysicalKey::Code(KeyCode::Space)
    } else if keysym == KEYSYM_TAB {
        PhysicalKey::Code(KeyCode::Tab)
    } else if keysym == KEYSYM_RETURN {
        PhysicalKey::Code(KeyCode::Enter)
    } else if keysym == KEYSYM_BACKSPACE {
        PhysicalKey::Code(KeyCode::Backspace)
    } else if keysym == KEYSYM_DELETE {
        PhysicalKey::Code(KeyCode::Delete)
    } else if keysym == KEYSYM_ESCAPE {
        PhysicalKey::Code(KeyCode::Escape)
    } else if keysym == KEYSYM_SHIFT_L {
        PhysicalKey::Code(KeyCode::ShiftLeft)
    } else if keysym == KEYSYM_SHIFT_R {
        PhysicalKey::Code(KeyCode::ShiftRight)
    } else if keysym == KEYSYM_CONTROL_L {
        PhysicalKey::Code(KeyCode::ControlLeft)
    } else if keysym == KEYSYM_CONTROL_R {
        PhysicalKey::Code(KeyCode::ControlRight)
    } else if keysym == KEYSYM_ALT_L {
        PhysicalKey::Code(KeyCode::AltLeft)
    } else if keysym == KEYSYM_ALT_R {
        PhysicalKey::Code(KeyCode::AltRight)
    } else if keysym == KEYSYM_SUPER_L {
        PhysicalKey::Code(KeyCode::SuperLeft)
    } else if keysym == KEYSYM_SUPER_R {
        PhysicalKey::Code(KeyCode::SuperRight)
    } else if keysym == KEYSYM_CAPS_LOCK {
        PhysicalKey::Code(KeyCode::CapsLock)
    } else if keysym == KEYSYM_NUM_LOCK {
        PhysicalKey::Code(KeyCode::NumLock)
    } else if keysym == KEYSYM_SCROLL_LOCK {
        PhysicalKey::Code(KeyCode::ScrollLock)
    } else if keysym == KEYSYM_HOME {
        PhysicalKey::Code(KeyCode::Home)
    } else if keysym == KEYSYM_END {
        PhysicalKey::Code(KeyCode::End)
    } else if keysym == KEYSYM_PAGE_UP {
        PhysicalKey::Code(KeyCode::PageUp)
    } else if keysym == KEYSYM_PAGE_DOWN {
        PhysicalKey::Code(KeyCode::PageDown)
    } else if keysym == KEYSYM_LEFT {
        PhysicalKey::Code(KeyCode::ArrowLeft)
    } else if keysym == KEYSYM_RIGHT {
        PhysicalKey::Code(KeyCode::ArrowRight)
    } else if keysym == KEYSYM_UP {
        PhysicalKey::Code(KeyCode::ArrowUp)
    } else if keysym == KEYSYM_DOWN {
        PhysicalKey::Code(KeyCode::ArrowDown)
    } else if keysym == KEYSYM_INSERT {
        PhysicalKey::Code(KeyCode::Insert)
    } else if keysym == KEYSYM_PRINT {
        PhysicalKey::Code(KeyCode::PrintScreen)
    } else if keysym == KEYSYM_SYS_REQ {
        PhysicalKey::Code(KeyCode::PrintScreen)
    } else if keysym == KEYSYM_F1 {
        PhysicalKey::Code(KeyCode::F1)
    } else if keysym == KEYSYM_F2 {
        PhysicalKey::Code(KeyCode::F2)
    } else if keysym == KEYSYM_F3 {
        PhysicalKey::Code(KeyCode::F3)
    } else if keysym == KEYSYM_F4 {
        PhysicalKey::Code(KeyCode::F4)
    } else if keysym == KEYSYM_F5 {
        PhysicalKey::Code(KeyCode::F5)
    } else if keysym == KEYSYM_F6 {
        PhysicalKey::Code(KeyCode::F6)
    } else if keysym == KEYSYM_F7 {
        PhysicalKey::Code(KeyCode::F7)
    } else if keysym == KEYSYM_F8 {
        PhysicalKey::Code(KeyCode::F8)
    } else if keysym == KEYSYM_F9 {
        PhysicalKey::Code(KeyCode::F9)
    } else if keysym == KEYSYM_F10 {
        PhysicalKey::Code(KeyCode::F10)
    } else if keysym == KEYSYM_F11 {
        PhysicalKey::Code(KeyCode::F11)
    } else if keysym == KEYSYM_F12 {
        PhysicalKey::Code(KeyCode::F12)
    } else if keysym == KEYSYM_F13 {
        PhysicalKey::Code(KeyCode::F13)
    } else if keysym == KEYSYM_F14 {
        PhysicalKey::Code(KeyCode::F14)
    } else if keysym == KEYSYM_F15 {
        PhysicalKey::Code(KeyCode::F15)
    } else if keysym == KEYSYM_F16 {
        PhysicalKey::Code(KeyCode::F16)
    } else if keysym == KEYSYM_F17 {
        PhysicalKey::Code(KeyCode::F17)
    } else if keysym == KEYSYM_F18 {
        PhysicalKey::Code(KeyCode::F18)
    } else if keysym == KEYSYM_F19 {
        PhysicalKey::Code(KeyCode::F19)
    } else if keysym == KEYSYM_F20 {
        PhysicalKey::Code(KeyCode::F20)
    } else if keysym == KEYSYM_F21 {
        PhysicalKey::Code(KeyCode::F21)
    } else if keysym == KEYSYM_F22 {
        PhysicalKey::Code(KeyCode::F22)
    } else if keysym == KEYSYM_F23 {
        PhysicalKey::Code(KeyCode::F23)
    } else if keysym == KEYSYM_F24 {
        PhysicalKey::Code(KeyCode::F24)
    } else if keysym == KEYSYM_F25 {
        PhysicalKey::Code(KeyCode::F25)
    } else if keysym == KEYSYM_F26 {
        PhysicalKey::Code(KeyCode::F26)
    } else if keysym == KEYSYM_F27 {
        PhysicalKey::Code(KeyCode::F27)
    } else if keysym == KEYSYM_F28 {
        PhysicalKey::Code(KeyCode::F28)
    } else if keysym == KEYSYM_F29 {
        PhysicalKey::Code(KeyCode::F29)
    } else if keysym == KEYSYM_F30 {
        PhysicalKey::Code(KeyCode::F30)
    } else if keysym == KEYSYM_F31 {
        PhysicalKey::Code(KeyCode::F31)
    } else if keysym == KEYSYM_F32 {
        PhysicalKey::Code(KeyCode::F32)
    } else if keysym == KEYSYM_F33 {
        PhysicalKey::Code(KeyCode::F33)
    } else if keysym == KEYSYM_F34 {
        PhysicalKey::Code(KeyCode::F34)
    } else if keysym == KEYSYM_F35 {
        PhysicalKey::Code(KeyCode::F35)
    } else if keysym == KEYSYM_KP_0 {
        PhysicalKey::Code(KeyCode::Numpad0)
    } else if keysym == KEYSYM_KP_1 {
        PhysicalKey::Code(KeyCode::Numpad1)
    } else if keysym == KEYSYM_KP_2 {
        PhysicalKey::Code(KeyCode::Numpad2)
    } else if keysym == KEYSYM_KP_3 {
        PhysicalKey::Code(KeyCode::Numpad3)
    } else if keysym == KEYSYM_KP_4 {
        PhysicalKey::Code(KeyCode::Numpad4)
    } else if keysym == KEYSYM_KP_5 {
        PhysicalKey::Code(KeyCode::Numpad5)
    } else if keysym == KEYSYM_KP_6 {
        PhysicalKey::Code(KeyCode::Numpad6)
    } else if keysym == KEYSYM_KP_7 {
        PhysicalKey::Code(KeyCode::Numpad7)
    } else if keysym == KEYSYM_KP_8 {
        PhysicalKey::Code(KeyCode::Numpad8)
    } else if keysym == KEYSYM_KP_9 {
        PhysicalKey::Code(KeyCode::Numpad9)
    } else if keysym == KEYSYM_KP_DECIMAL {
        PhysicalKey::Code(KeyCode::NumpadDecimal)
    } else if keysym == KEYSYM_KP_DIVIDE {
        PhysicalKey::Code(KeyCode::NumpadDivide)
    } else if keysym == KEYSYM_KP_MULTIPLY {
        PhysicalKey::Code(KeyCode::NumpadMultiply)
    } else if keysym == KEYSYM_KP_SUBTRACT {
        PhysicalKey::Code(KeyCode::NumpadSubtract)
    } else if keysym == KEYSYM_KP_ADD {
        PhysicalKey::Code(KeyCode::NumpadAdd)
    } else if keysym == KEYSYM_KP_ENTER {
        PhysicalKey::Code(KeyCode::NumpadEnter)
    } else if keysym == KEYSYM_KP_EQUAL {
        PhysicalKey::Code(KeyCode::NumpadEqual)
    } else if keysym == KEYSYM_PAUSE {
        PhysicalKey::Code(KeyCode::Pause)
    } else if keysym == KEYSYM_BREAK {
        PhysicalKey::Code(KeyCode::Pause)
    } else if keysym == KEYSYM_XF86_AUDIO_MUTE {
        PhysicalKey::Code(KeyCode::AudioVolumeMute)
    } else if keysym == KEYSYM_XF86_AUDIO_LOWER_VOLUME {
        PhysicalKey::Code(KeyCode::AudioVolumeDown)
    } else if keysym == KEYSYM_XF86_AUDIO_RAISE_VOLUME {
        PhysicalKey::Code(KeyCode::AudioVolumeUp)
    } else if keysym == KEYSYM_XF86_AUDIO_PLAY {
        PhysicalKey::Code(KeyCode::MediaPlayPause)
    } else if keysym == KEYSYM_XF86_AUDIO_STOP {
        PhysicalKey::Code(KeyCode::MediaStop)
    } else if keysym == KEYSYM_XF86_AUDIO_PREV {
        PhysicalKey::Code(KeyCode::MediaTrackPrevious)
    } else if keysym == KEYSYM_XF86_AUDIO_NEXT {
        PhysicalKey::Code(KeyCode::MediaTrackNext)
    } else if keysym == KEYSYM_XF86_BACK {
        PhysicalKey::Code(KeyCode::BrowserBack)
    } else if keysym == KEYSYM_XF86_FORWARD {
        PhysicalKey::Code(KeyCode::BrowserForward)
    } else if keysym == KEYSYM_XF86_REFRESH {
        PhysicalKey::Code(KeyCode::BrowserRefresh)
    } else if keysym == KEYSYM_XF86_STOP {
        PhysicalKey::Code(KeyCode::BrowserStop)
    } else if keysym == KEYSYM_XF86_SEARCH {
        PhysicalKey::Code(KeyCode::BrowserSearch)
    } else if keysym == KEYSYM_XF86_HOME_PAGE {
        PhysicalKey::Code(KeyCode::BrowserHome)
    } else if keysym == KEYSYM_XF86_FAVORITES {
        PhysicalKey::Code(KeyCode::BrowserFavorites)
    } else if keysym == KEYSYM_XF86_POWER_OFF {
        PhysicalKey::Code(KeyCode::Power)
    } else if keysym == KEYSYM_XF86_SLEEP {
        PhysicalKey::Code(KeyCode::Sleep)
    } else if keysym == KEYSYM_XF86_WAKE_UP {
        PhysicalKey::Code(KeyCode::WakeUp)
    } else if keysym == KEYSYM_XF86_CALCULATOR {
        PhysicalKey::Code(KeyCode::LaunchApp2)
    } else if keysym == KEYSYM_XF86_MAIL {
        PhysicalKey::Code(KeyCode::LaunchMail)
    } else if keysym == KEYSYM_XF86_MY_COMPUTER {
        PhysicalKey::Code(KeyCode::LaunchApp1)
    } else if keysym == KEYSYM_XF86_MUSIC {
        PhysicalKey::Code(KeyCode::MediaSelect)
    } else if keysym == KEYSYM_XF86_VIDEO {
        PhysicalKey::Code(KeyCode::LaunchApp2)
    } else if keysym == KEYSYM_XF86_COPY {
        PhysicalKey::Code(KeyCode::Copy)
    } else if keysym == KEYSYM_XF86_CUT {
        PhysicalKey::Code(KeyCode::Cut)
    } else if keysym == KEYSYM_XF86_PASTE {
        PhysicalKey::Code(KeyCode::Paste)
    } else if keysym == KEYSYM_HENKAN_MODE {
        PhysicalKey::Code(KeyCode::Convert)
    } else if keysym == KEYSYM_MUHENKAN {
        PhysicalKey::Code(KeyCode::NonConvert)
    } else if keysym == KEYSYM_KANJI {
        PhysicalKey::Code(KeyCode::Lang2)
    } else if keysym == KEYSYM_HIRAGANA {
        PhysicalKey::Code(KeyCode::Lang4)
    } else if keysym == KEYSYM_KATAKANA {
        PhysicalKey::Code(KeyCode::Lang3)
    } else if keysym == KEYSYM_MENU {
        PhysicalKey::Code(KeyCode::ContextMenu)
    } else {
        PhysicalKey::Unidentified(raw_code)
    }
}

/// Maps a raw pointer button code to the abstract button the UI toolkit
/// understands.  Only the fixed set of recognized hardware codes maps to
/// a button; any other code yields `None` and the caller drops the event.
pub fn wayland_button_to_iced(button: u32) -> (r: Option<MouseButton>)
    ensures
        r == spec_pointer_button(button),
{
    if button == BTN_CODE_LEFT {
        Some(MouseButton::Left)
    } else if button == BTN_CODE_RIGHT {
        Some(MouseButton::Right)
    } else if button == BTN_CODE_MIDDLE {
        Some(MouseButton::Middle)
    } else {
        None
    }
}

/// An unmapped physical key is never dropped: outside the table the raw
/// scan code is carried verbatim in the result.
pub proof fn lemma_physical_key_total(keysym: u32, raw_code: u32)
    ensures
        spec_physical_key(keysym, raw_code) is Code
            || spec_physical_key(keysym, raw_code) == PhysicalKey::Unidentified(raw_code),
{
}

} // verus!
