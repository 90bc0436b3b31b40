//! Keyboard vocabulary: physical key codes, logical keys and key locations.

use vstd::prelude::*;

verus! {

/// A physical key, identified by its position on a US-layout keyboard.
#[derive(Clone, Copy, Debug, PartialEq, Eq, Hash)]
pub enum Code {
    Escape,
    Digit1,
    Digit2,
    Digit3,
    Digit4,
    Digit5,
    Digit6,
    Digit7,
    Digit8,
    Digit9,
    Digit0,
    Minus,
    Equal,
    Backspace,
    Tab,
    KeyQ,
    KeyW,
    KeyE,
    KeyR,
    KeyT,
    KeyY,
    KeyU,
    KeyI,
    KeyO,
    KeyP,
    BracketLeft,
    BracketRight,
    Enter,
    ControlLeft,
    KeyA,
    KeyS,
    KeyD,
    KeyF,
    KeyG,
    KeyH,
    KeyJ,
    KeyK,
    KeyL,
    Semicolon,
    Quote,
    Backquote,
    ShiftLeft,
    Backslash,
    KeyZ,
    KeyX,
    KeyC,
    KeyV,
    KeyB,
    KeyN,
    KeyM,
    Comma,
    Period,
    Slash,
    ShiftRight,
    NumpadMultiply,
    AltLeft,
    Space,
    CapsLock,
    F1,
    F2,
    F3,
    F4,
    F5,
    F6,
    F7,
    F8,
    F9,
    F10,
    NumLock,
    ScrollLock,
    Numpad7,
    Numpad8,
    Numpad9,
    NumpadSubtract,
    Numpad4,
    Numpad5,
    Numpad6,
    NumpadAdd,
    Numpad1,
    Numpad2,
    Numpad3,
    Numpad0,
    NumpadDecimal,
    Lang5,
    IntlBackslash,
    F11,
    F12,
    IntlRo,
    Lang3,
    Lang4,
    Convert,
    KanaMode,
    NonConvert,
    NumpadEnter,
    ControlRight,
    NumpadDivide,
    PrintScreen,
    AltRight,
    Home,
    ArrowUp,
    PageUp,
    ArrowLeft,
    ArrowRight,
    End,
    ArrowDown,
    PageDown,
    Insert,
    Delete,
    AudioVolumeMute,
    AudioVolumeDown,
    AudioVolumeUp,
    Power,
    NumpadEqual,
    Pause,
    ShowAllWindows,
    NumpadComma,
    Lang1,
    Lang2,
    IntlYen,
    MetaLeft,
    MetaRight,
    ContextMenu,
    BrowserStop,
    Again,
    Props,
    Undo,
    Select,
    Copy,
    Open,
    Paste,
    Find,
    Cut,
    Help,
    LaunchApp2,
    Sleep,
    WakeUp,
    LaunchApp1,
    LaunchMail,
    BrowserFavorites,
    BrowserBack,
    BrowserForward,
    Eject,
    MediaTrackNext,
    MediaPlayPause,
    MediaTrackPrevious,
    MediaStop,
    MediaRecord,
    MediaRewind,
    MediaSelect,
    BrowserHome,
    BrowserRefresh,
    NumpadParenLeft,
    NumpadParenRight,
    F13,
    F14,
    F15,
    F16,
    F17,
    F18,
    F19,
    F20,
    F21,
    F22,
    F23,
    F24,
    MediaPause,
    MediaPlay,
    MediaFastForward,
    BrowserSearch,
    BrightnessDown,
    BrightnessUp,
    DisplayToggleIntExt,
    KeyboardBacklightToggle,
    MailSend,
    MailReply,
    MailForward,
    MicrophoneMuteToggle,
    ZoomToggle,
    LaunchControlPanel,
    SelectTask,
    LaunchScreenSaver,
    LaunchAssistant,
    KeyboardLayoutSelect,
    PrivacyScreenToggle,
    Fn,
    FnLock,
    Hyper,
    Turbo,
    Abort,
    Resume,
    Suspend,
    Hiragana,
    Katakana,
    NumpadBackspace,
    NumpadClear,
    NumpadClearEntry,
    NumpadHash,
    NumpadMemoryAdd,
    NumpadMemoryClear,
    NumpadMemoryRecall,
    NumpadMemoryStore,
    NumpadMemorySubtract,
    NumpadStar,
    F25,
    F26,
    F27,
    F28,
    F29,
    F30,
    F31,
    F32,
    F33,
    F34,
    F35,
}

/// A platform scancode that has no `Code` of its own.
#[derive(Clone, Copy, Debug, PartialEq, Eq, Hash)]
pub enum NativeCode {
    /// The platform reported that it could not identify the key.
    Unidentified,
    /// A raw scancode.
    Code(u32),
}

/// The key that was pressed, independent of the keyboard layout.
#[derive(Clone, Copy, Debug, PartialEq, Eq, Hash)]
pub enum PhysicalKey {
    Code(Code),
    Unidentified(NativeCode),
}

/// A key with a name rather than a printable character.
#[derive(Clone, Copy, Debug, PartialEq, Eq, Hash)]
pub enum NamedKey {
    Backspace,
    Tab,
    Clear,
    Enter,
    Pause,
    ScrollLock,
    PrintScreen,
    Escape,
    Delete,
    Compose,
    CodeInput,
    SingleCandidate,
    AllCandidates,
    PreviousCandidate,
    KanjiMode,
    NonConvert,
    Convert,
    Romaji,
    Hiragana,
    HiraganaKatakana,
    Zenkaku,
    Hankaku,
    ZenkakuHankaku,
    KanaMode,
    Alphanumeric,
    Home,
    ArrowLeft,
    ArrowUp,
    ArrowRight,
    ArrowDown,
    PageUp,
    PageDown,
    End,
    Select,
    Execute,
    Insert,
    Undo,
    Redo,
    ContextMenu,
    Find,
    Cancel,
    Help,
    ModeChange,
    NumLock,
    F1,
    F2,
    F3,
    F4,
    F5,
    F6,
    F7,
    F8,
    F9,
    F10,
    F11,
    F12,
    F13,
    F14,
    F15,
    F16,
    F17,
    F18,
    F19,
    F20,
    F21,
    F22,
    F23,
    F24,
    F25,
    F26,
    F27,
    F28,
    F29,
    F30,
    F31,
    F32,
    F33,
    F34,
    F35,
    Shift,
    Control,
    CapsLock,
    Alt,
    Hyper,
    Meta,
    AltGraph,
    GroupNext,
    GroupPrevious,
    GroupFirst,
    GroupLast,
    EraseEof,
    Attn,
    Play,
    ExSel,
    CrSel,
    BrightnessUp,
    BrightnessDown,
    Standby,
    AudioVolumeDown,
    AudioVolumeUp,
    MediaPlay,
    MediaStop,
    MediaTrackPrevious,
    MediaTrackNext,
    BrowserHome,
    LaunchMail,
    BrowserSearch,
    MediaRecord,
    LaunchApplication2,
    LaunchCalendar,
    Power,
    BrowserBack,
    BrowserForward,
    BrowserRefresh,
    WakeUp,
    Eject,
    LaunchScreenSaver,
    LaunchWebBrowser,
    BrowserFavorites,
    MediaPause,
    LaunchApplication1,
    MediaRewind,
    Close,
    Copy,
    Cut,
    LaunchSpreadsheet,
    LogOff,
    New,
    Open,
    Paste,
    LaunchPhone,
    MailReply,
    Save,
    MailSend,
    SpellCheck,
    SplitScreenToggle,
    LaunchMediaPlayer,
    LaunchWordProcessor,
    ZoomIn,
    ZoomOut,
    LaunchWebCam,
    MailForward,
    LaunchMusicPlayer,
    MediaFastForward,
    RandomToggle,
    Subtitle,
    MediaAudioTrack,
    Hibernate,
    AudioVolumeMute,
    VideoModeNext,
}

/// A platform key symbol that has no named meaning.
#[derive(Clone, Copy, Debug, PartialEq, Eq, Hash)]
pub enum NativeKey {
    Unidentified,
    /// A raw key symbol.
    Key(u32),
}

/// The meaning of a key press under the active keyboard layout.
#[derive(Clone, Debug, PartialEq, Eq, Hash)]
pub enum LogicalKey {
    Named(NamedKey),
    /// The text that the key produces.
    Character(String),
    Unidentified(NativeKey),
    /// A dead key, with the character it combines into when that is known.
    Dead(Option<char>),
}

/// Where on the keyboard a key lies, for keys that occur more than once.
#[derive(Clone, Copy, Debug, PartialEq, Eq, Hash)]
pub enum Location {
    Standard,
    Left,
    Right,
    Numpad,
}

/// Whether a key went down or came up.
#[derive(Clone, Copy, Debug, PartialEq, Eq, Hash)]
pub enum KeyState {
    Down,
    Up,
}

} // verus!
