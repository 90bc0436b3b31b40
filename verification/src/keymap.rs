//! Mapping between Linux scancodes, X11 key symbols and the keyboard vocabulary of `keys`.
//!
//! The scancode values are those of `linux/include/uapi/linux/input-event-codes.h`; X11 and
//! Wayland report keycodes offset by 8 from them.

use crate::keys::{Code, LogicalKey, Location, NamedKey, NativeCode, NativeKey, PhysicalKey};
use crate::keysym;
use vstd::prelude::*;

verus! {

/// The Linux scancode of each `Code` that has one.
pub open spec fn code_scancode(code: Code) -> Option<u32> {
    match code {
        Code::Escape => Some(1u32),
        Code::Digit1 => Some(2u32),
        Code::Digit2 => Some(3u32),
        Code::Digit3 => Some(4u32),
        Code::Digit4 => Some(5u32),
        Code::Digit5 => Some(6u32),
        Code::Digit6 => Some(7u32),
        Code::Digit7 => Some(8u32),
        Code::Digit8 => Some(9u32),
        Code::Digit9 => Some(10u32),
        Code::Digit0 => Some(11u32),
        Code::Minus => Some(12u32),
        Code::Equal => Some(13u32),
        Code::Backspace => Some(14u32),
        Code::Tab => Some(15u32),
        Code::KeyQ => Some(16u32),
        Code::KeyW => Some(17u32),
        Code::KeyE => Some(18u32),
        Code::KeyR => Some(19u32),
        Code::KeyT => Some(20u32),
        Code::KeyY => Some(21u32),
        Code::KeyU => Some(22u32),
        Code::KeyI => Some(23u32),
        Code::KeyO => Some(24u32),
        Code::KeyP => Some(25u32),
        Code::BracketLeft => Some(26u32),
        Code::BracketRight => Some(27u32),
        Code::Enter => Some(28u32),
        Code::ControlLeft => Some(29u32),
        Code::KeyA => Some(30u32),
        Code::KeyS => Some(31u32),
        Code::KeyD => Some(32u32),
        Code::KeyF => Some(33u32),
        Code::KeyG => Some(34u32),
        Code::KeyH => Some(35u32),
        Code::KeyJ => Some(36u32),
        Code::KeyK => Some(37u32),
        Code::KeyL => Some(38u32),
        Code::Semicolon => Some(39u32),
        Code::Quote => Some(40u32),
        Code::Backquote => Some(41u32),
        Code::ShiftLeft => Some(42u32),
        Code::Backslash => Some(43u32),
        Code::KeyZ => Some(44u32),
        Code::KeyX => Some(45u32),
        Code::KeyC => Some(46u32),
        Code::KeyV => Some(47u32),
        Code::KeyB => Some(48u32),
        Code::KeyN => Some(49u32),
        Code::KeyM => Some(50u32),
        Code::Comma => Some(51u32),
        Code::Period => Some(52u32),
        Code::Slash => Some(53u32),
        Code::ShiftRight => Some(54u32),
        Code::NumpadMultiply => Some(55u32),
        Code::AltLeft => Some(56u32),
        Code::Space => Some(57u32),
        Code::CapsLock => Some(58u32),
        Code::F1 => Some(59u32),
        Code::F2 => Some(60u32),
        Code::F3 => Some(61u32),
        Code::F4 => Some(62u32),
        Code::F5 => Some(63u32),
        Code::F6 => Some(64u32),
        Code::F7 => Some(65u32),
        Code::F8 => Some(66u32),
        Code::F9 => Some(67u32),
        Code::F10 => Some(68u32),
        Code::NumLock => Some(69u32),
        Code::ScrollLock => Some(70u32),
        Code::Numpad7 => Some(71u32),
        Code::Numpad8 => Some(72u32),
        Code::Numpad9 => Some(73u32),
        Code::NumpadSubtract => Some(74u32),
        Code::Numpad4 => Some(75u32),
        Code::Numpad5 => Some(76u32),
        Code::Numpad6 => Some(77u32),
        Code::NumpadAdd => Some(78u32),
        Code::Numpad1 => Some(79u32),
        Code::Numpad2 => Some(80u32),
        Code::Numpad3 => Some(81u32),
        Code::Numpad0 => Some(82u32),
        Code::NumpadDecimal => Some(83u32),
        Code::Lang5 => Some(85u32),
        Code::IntlBackslash => Some(86u32),
        Code::F11 => Some(87u32),
        Code::F12 => Some(88u32),
        Code::IntlRo => Some(89u32),
        Code::Lang3 => Some(90u32),
        Code::Lang4 => Some(91u32),
        Code::Convert => Some(92u32),
        Code::KanaMode => Some(93u32),
        Code::NonConvert => Some(94u32),
        Code::NumpadEnter => Some(96u32),
        Code::ControlRight => Some(97u32),
        Code::NumpadDivide => Some(98u32),
        Code::PrintScreen => Some(99u32),
        Code::AltRight => Some(100u32),
        Code::Home => Some(102u32),
        Code::ArrowUp => Some(103u32),
        Code::PageUp => Some(104u32),
        Code::ArrowLeft => Some(105u32),
        Code::ArrowRight => Some(106u32),
        Code::End => Some(107u32),
        Code::ArrowDown => Some(108u32),
        Code::PageDown => Some(109u32),
        Code::Insert => Some(110u32),
        Code::Delete => Some(111u32),
        Code::AudioVolumeMute => Some(113u32),
        Code::AudioVolumeDown => Some(114u32),
        Code::AudioVolumeUp => Some(115u32),
        Code::Power => Some(116u32),
        Code::NumpadEqual => Some(117u32),
        Code::Pause => Some(119u32),
        Code::ShowAllWindows => Some(120u32),
        Code::NumpadComma => Some(121u32),
        Code::Lang1 => Some(122u32),
        Code::Lang2 => Some(123u32),
        Code::IntlYen => Some(124u32),
        Code::MetaLeft => Some(125u32),
        Code::MetaRight => Some(126u32),
        Code::ContextMenu => Some(127u32),
        Code::BrowserStop => Some(128u32),
        Code::Again => Some(129u32),
        Code::Props => Some(130u32),
        Code::Undo => Some(131u32),
        Code::Select => Some(132u32),
        Code::Copy => Some(133u32),
        Code::Open => Some(134u32),
        Code::Paste => Some(135u32),
        Code::Find => Some(136u32),
        Code::Cut => Some(137u32),
        Code::Help => Some(138u32),
        Code::LaunchApp2 => Some(140u32),
        Code::Sleep => Some(142u32),
        Code::WakeUp => Some(143u32),
        Code::LaunchApp1 => Some(144u32),
        Code::LaunchMail => Some(155u32),
        Code::BrowserFavorites => Some(156u32),
        Code::BrowserBack => Some(158u32),
        Code::BrowserForward => Some(159u32),
        Code::Eject => Some(161u32),
        Code::MediaTrackNext => Some(163u32),
        Code::MediaPlayPause => Some(164u32),
        Code::MediaTrackPrevious => Some(165u32),
        Code::MediaStop => Some(166u32),
        Code::MediaRecord => Some(167u32),
        Code::MediaRewind => Some(168u32),
        Code::MediaSelect => Some(171u32),
        Code::BrowserHome => Some(172u32),
        Code::BrowserRefresh => Some(173u32),
        Code::NumpadParenLeft => Some(179u32),
        Code::NumpadParenRight => Some(180u32),
        Code::F13 => Some(183u32),
        Code::F14 => Some(184u32),
        Code::F15 => Some(185u32),
        Code::F16 => Some(186u32),
        Code::F17 => Some(187u32),
        Code::F18 => Some(188u32),
        Code::F19 => Some(189u32),
        Code::F20 => Some(190u32),
        Code::F21 => Some(191u32),
        Code::F22 => Some(192u32),
        Code::F23 => Some(193u32),
        Code::F24 => Some(194u32),
        Code::MediaPause => Some(201u32),
        Code::MediaPlay => Some(207u32),
        Code::MediaFastForward => Some(208u32),
        Code::BrowserSearch => Some(217u32),
        Code::BrightnessDown => Some(224u32),
        Code::BrightnessUp => Some(225u32),
        Code::DisplayToggleIntExt => Some(227u32),
        Code::KeyboardBacklightToggle => Some(228u32),
        Code::MailSend => Some(231u32),
        Code::MailReply => Some(232u32),
        Code::MailForward => Some(233u32),
        Code::MicrophoneMuteToggle => Some(248u32),
        Code::ZoomToggle => Some(372u32),
        Code::LaunchControlPanel => Some(579u32),
        Code::SelectTask => Some(580u32),
        Code::LaunchScreenSaver => Some(581u32),
        Code::LaunchAssistant => Some(583u32),
        Code::KeyboardLayoutSelect => Some(584u32),
        Code::PrivacyScreenToggle => Some(633u32),
        _ => None,
    }
}

/// The scancode that identifies a physical key, if it has one.
pub open spec fn physical_key_scancode(key: PhysicalKey) -> Option<u32> {
    match key {
        PhysicalKey::Code(code) => code_scancode(code),
        PhysicalKey::Unidentified(NativeCode::Unidentified) => Some(240u32),
        PhysicalKey::Unidentified(NativeCode::Code(raw)) => Some(raw),
    }
}

/// Some `Code` has the scancode `scancode`.
pub open spec fn is_code_scancode(scancode: u32) -> bool {
    exists|code: Code| #[trigger] code_scancode(code) == Some(scancode)
}

/// The physical key that a Linux scancode denotes: the `Code` whose scancode it is; the
/// reserved scancode 240 stands for a key the kernel could not identify; any other scancode is
/// kept raw.
pub open spec fn scancode_physical_key(scancode: u32) -> PhysicalKey {
    if scancode == 240 {
        PhysicalKey::Unidentified(NativeCode::Unidentified)
    } else if is_code_scancode(scancode) {
        PhysicalKey::Code(choose|code: Code| #[trigger] code_scancode(code) == Some(scancode))
    } else {
        PhysicalKey::Unidentified(NativeCode::Code(scancode))
    }
}

/// No two codes share a scancode.
pub proof fn lemma_code_scancode_injective(a: Code, b: Code)
    requires
        code_scancode(a) is Some,
        code_scancode(a) == code_scancode(b),
    ensures
        a == b,
{
}

/// Neither 0 nor the reserved scancode 240 belongs to a code.
pub proof fn lemma_reserved_scancodes_unused(code: Code)
    ensures
        code_scancode(code) != Some(0u32),
        code_scancode(code) != Some(240u32),
{
}

/// A code's own scancode leads back to it.
pub proof fn lemma_scancode_finds_code(scancode: u32, code: Code)
    requires
        code_scancode(code) == Some(scancode),
    ensures
        scancode_physical_key(scancode) == PhysicalKey::Code(code),
{
    lemma_reserved_scancodes_unused(code);
    assert(is_code_scancode(scancode));
    let found = choose|c: Code| #[trigger] code_scancode(c) == Some(scancode);
    lemma_code_scancode_injective(code, found);
}

/// Every scancode survives the trip to a physical key and back.
pub proof fn lemma_scancode_round_trip(scancode: u32)
    ensures
        physical_key_scancode(scancode_physical_key(scancode)) == Some(scancode),
{
}

/// A physical key survives the trip to its scancode and back, unless it is a raw scancode that
/// names the reserved scancode or one that belongs to a code.
pub proof fn lemma_physical_key_round_trip(key: PhysicalKey)
    requires
        physical_key_scancode(key) is Some,
        !(key matches PhysicalKey::Unidentified(NativeCode::Code(raw)) && (raw == 240
            || is_code_scancode(raw))),
    ensures
        scancode_physical_key(physical_key_scancode(key)->0) == key,
{
    if let PhysicalKey::Code(code) = key {
        lemma_scancode_finds_code(code_scancode(code)->0, code);
    }
}

/// Map the raw X11-style keycode to a physical key.
///
/// X11-style keycodes are offset by 8 from the keycodes the Linux kernel uses.
pub fn raw_keycode_to_physicalkey(keycode: u32) -> (key: PhysicalKey)
    ensures
        key == scancode_physical_key(if keycode < 8 { 0 } else { (keycode - 8) as u32 }),
{
    scancode_to_physicalkey(keycode.saturating_sub(8))
}

/// Map the Linux scancode to a physical key.
///
/// Both X11 and Wayland use keys with `+ 8` offset to linux scancode.
#[verifier::rlimit(40)]
pub fn scancode_to_physicalkey(scancode: u32) -> (key: PhysicalKey)
    ensures
        key == scancode_physical_key(scancode),
{
    let code = match scancode {
        0 => {
            proof {
                assert forall|c: Code| code_scancode(c) != Some(scancode) by {
                    lemma_reserved_scancodes_unused(c);
                }
            }
            return PhysicalKey::Unidentified(NativeCode::Code(0));
        },
        1 => Code::Escape,
        2 => Code::Digit1,
        3 => Code::Digit2,
        4 => Code::Digit3,
        5 => Code::Digit4,
        6 => Code::Digit5,
        7 => Code::Digit6,
        8 => Code::Digit7,
        9 => Code::Digit8,
        10 => Code::Digit9,
        11 => Code::Digit0,
        12 => Code::Minus,
        13 => Code::Equal,
        14 => Code::Backspace,
        15 => Code::Tab,
        16 => Code::KeyQ,
        17 => Code::KeyW,
        18 => Code::KeyE,
        19 => Code::KeyR,
        20 => Code::KeyT,
        21 => Code::KeyY,
        22 => Code::KeyU,
        23 => Code::KeyI,
        24 => Code::KeyO,
        25 => Code::KeyP,
        26 => Code::BracketLeft,
        27 => Code::BracketRight,
        28 => Code::Enter,
        29 => Code::ControlLeft,
        30 => Code::KeyA,
        31 => Code::KeyS,
        32 => Code::KeyD,
        33 => Code::KeyF,
        34 => Code::KeyG,
        35 => Code::KeyH,
        36 => Code::KeyJ,
        37 => Code::KeyK,
        38 => Code::KeyL,
        39 => Code::Semicolon,
        40 => Code::Quote,
        41 => Code::Backquote,
        42 => Code::ShiftLeft,
        43 => Code::Backslash,
        44 => Code::KeyZ,
        45 => Code::KeyX,
        46 => Code::KeyC,
        47 => Code::KeyV,
        48 => Code::KeyB,
        49 => Code::KeyN,
        50 => Code::KeyM,
        51 => Code::Comma,
        52 => Code::Period,
        53 => Code::Slash,
        54 => Code::ShiftRight,
        55 => Code::NumpadMultiply,
        56 => Code::AltLeft,
        57 => Code::Space,
        58 => Code::CapsLock,
        59 => Code::F1,
        60 => Code::F2,
        61 => Code::F3,
        62 => Code::F4,
        63 => Code::F5,
        64 => Code::F6,
        65 => Code::F7,
        66 => Code::F8,
        67 => Code::F9,
        68 => Code::F10,
        69 => Code::NumLock,
        70 => Code::ScrollLock,
        71 => Code::Numpad7,
        72 => Code::Numpad8,
        73 => Code::Numpad9,
        74 => Code::NumpadSubtract,
        75 => Code::Numpad4,
        76 => Code::Numpad5,
        77 => Code::Numpad6,
        78 => Code::NumpadAdd,
        79 => Code::Numpad1,
        80 => Code::Numpad2,
        81 => Code::Numpad3,
        82 => Code::Numpad0,
        83 => Code::NumpadDecimal,
        85 => Code::Lang5,
        86 => Code::IntlBackslash,
        87 => Code::F11,
        88 => Code::F12,
        89 => Code::IntlRo,
        90 => Code::Lang3,
        91 => Code::Lang4,
        92 => Code::Convert,
        93 => Code::KanaMode,
        94 => Code::NonConvert,
        96 => Code::NumpadEnter,
        97 => Code::ControlRight,
        98 => Code::NumpadDivide,
        99 => Code::PrintScreen,
        100 => Code::AltRight,
        102 => Code::Home,
        103 => Code::ArrowUp,
        104 => Code::PageUp,
        105 => Code::ArrowLeft,
        106 => Code::ArrowRight,
        107 => Code::End,
        108 => Code::ArrowDown,
        109 => Code::PageDown,
        110 => Code::Insert,
        111 => Code::Delete,
        113 => Code::AudioVolumeMute,
        114 => Code::AudioVolumeDown,
        115 => Code::AudioVolumeUp,
        116 => Code::Power,
        117 => Code::NumpadEqual,
        119 => Code::Pause,
        120 => Code::ShowAllWindows,
        121 => Code::NumpadComma,
        122 => Code::Lang1,
        123 => Code::Lang2,
        124 => Code::IntlYen,
        125 => Code::MetaLeft,
        126 => Code::MetaRight,
        127 => Code::ContextMenu,
        128 => Code::BrowserStop,
        129 => Code::Again,
        130 => Code::Props,
        131 => Code::Undo,
        132 => Code::Select,
        133 => Code::Copy,
        134 => Code::Open,
        135 => Code::Paste,
        136 => Code::Find,
        137 => Code::Cut,
        138 => Code::Help,
        140 => Code::LaunchApp2,
        142 => Code::Sleep,
        143 => Code::WakeUp,
        144 => Code::LaunchApp1,
        155 => Code::LaunchMail,
        156 => Code::BrowserFavorites,
        158 => Code::BrowserBack,
        159 => Code::BrowserForward,
        161 => Code::Eject,
        163 => Code::MediaTrackNext,
        164 => Code::MediaPlayPause,
        165 => Code::MediaTrackPrevious,
        166 => Code::MediaStop,
        167 => Code::MediaRecord,
        168 => Code::MediaRewind,
        171 => Code::MediaSelect,
        172 => Code::BrowserHome,
        173 => Code::BrowserRefresh,
        179 => Code::NumpadParenLeft,
        180 => Code::NumpadParenRight,
        183 => Code::F13,
        184 => Code::F14,
        185 => Code::F15,
        186 => Code::F16,
        187 => Code::F17,
        188 => Code::F18,
        189 => Code::F19,
        190 => Code::F20,
        191 => Code::F21,
        192 => Code::F22,
        193 => Code::F23,
        194 => Code::F24,
        201 => Code::MediaPause,
        207 => Code::MediaPlay,
        208 => Code::MediaFastForward,
        217 => Code::BrowserSearch,
        224 => Code::BrightnessDown,
        225 => Code::BrightnessUp,
        227 => Code::DisplayToggleIntExt,
        228 => Code::KeyboardBacklightToggle,
        231 => Code::MailSend,
        232 => Code::MailReply,
        233 => Code::MailForward,
        248 => Code::MicrophoneMuteToggle,
        372 => Code::ZoomToggle,
        579 => Code::LaunchControlPanel,
        580 => Code::SelectTask,
        581 => Code::LaunchScreenSaver,
        583 => Code::LaunchAssistant,
        584 => Code::KeyboardLayoutSelect,
        633 => Code::PrivacyScreenToggle,
        240 => return PhysicalKey::Unidentified(NativeCode::Unidentified),
        _ => {
            assert(!is_code_scancode(scancode));
            return PhysicalKey::Unidentified(NativeCode::Code(scancode));
        },
    };
    proof {
        lemma_scancode_finds_code(scancode, code);
    }
    PhysicalKey::Code(code)
}

/// The Linux scancode of a physical key, if it has one.
pub fn physicalkey_to_scancode(key: PhysicalKey) -> (scancode: Option<u32>)
    ensures
        scancode == physical_key_scancode(key),
{
    let code = match key {
        PhysicalKey::Code(code) => code,
        PhysicalKey::Unidentified(code) => {
            return match code {
                NativeCode::Unidentified => Some(240),
                NativeCode::Code(raw) => Some(raw),
            };
        },
    };
    match code {
        Code::Escape => Some(1),
        Code::Digit1 => Some(2),
        Code::Digit2 => Some(3),
        Code::Digit3 => Some(4),
        Code::Digit4 => Some(5),
        Code::Digit5 => Some(6),
        Code::Digit6 => Some(7),
        Code::Digit7 => Some(8),
        Code::Digit8 => Some(9),
        Code::Digit9 => Some(10),
        Code::Digit0 => Some(11),
        Code::Minus => Some(12),
        Code::Equal => Some(13),
        Code::Backspace => Some(14),
        Code::Tab => Some(15),
        Code::KeyQ => Some(16),
        Code::KeyW => Some(17),
        Code::KeyE => Some(18),
        Code::KeyR => Some(19),
        Code::KeyT => Some(20),
        Code::KeyY => Some(21),
        Code::KeyU => Some(22),
        Code::KeyI => Some(23),
        Code::KeyO => Some(24),
        Code::KeyP => Some(25),
        Code::BracketLeft => Some(26),
        Code::BracketRight => Some(27),
        Code::Enter => Some(28),
        Code::ControlLeft => Some(29),
        Code::KeyA => Some(30),
        Code::KeyS => Some(31),
        Code::KeyD => Some(32),
        Code::KeyF => Some(33),
        Code::KeyG => Some(34),
        Code::KeyH => Some(35),
        Code::KeyJ => Some(36),
        Code::KeyK => Some(37),
        Code::KeyL => Some(38),
        Code::Semicolon => Some(39),
        Code::Quote => Some(40),
        Code::Backquote => Some(41),
        Code::ShiftLeft => Some(42),
        Code::Backslash => Some(43),
        Code::KeyZ => Some(44),
        Code::KeyX => Some(45),
        Code::KeyC => Some(46),
        Code::KeyV => Some(47),
        Code::KeyB => Some(48),
        Code::KeyN => Some(49),
        Code::KeyM => Some(50),
        Code::Comma => Some(51),
        Code::Period => Some(52),
        Code::Slash => Some(53),
        Code::ShiftRight => Some(54),
        Code::NumpadMultiply => Some(55),
        Code::AltLeft => Some(56),
        Code::Space => Some(57),
        Code::CapsLock => Some(58),
        Code::F1 => Some(59),
        Code::F2 => Some(60),
        Code::F3 => Some(61),
        Code::F4 => Some(62),
        Code::F5 => Some(63),
        Code::F6 => Some(64),
        Code::F7 => Some(65),
        Code::F8 => Some(66),
        Code::F9 => Some(67),
        Code::F10 => Some(68),
        Code::NumLock => Some(69),
        Code::ScrollLock => Some(70),
        Code::Numpad7 => Some(71),
        Code::Numpad8 => Some(72),
        Code::Numpad9 => Some(73),
        Code::NumpadSubtract => Some(74),
        Code::Numpad4 => Some(75),
        Code::Numpad5 => Some(76),
        Code::Numpad6 => Some(77),
        Code::NumpadAdd => Some(78),
        Code::Numpad1 => Some(79),
        Code::Numpad2 => Some(80),
        Code::Numpad3 => Some(81),
        Code::Numpad0 => Some(82),
        Code::NumpadDecimal => Some(83),
        Code::Lang5 => Some(85),
        Code::IntlBackslash => Some(86),
        Code::F11 => Some(87),
        Code::F12 => Some(88),
        Code::IntlRo => Some(89),
        Code::Lang3 => Some(90),
        Code::Lang4 => Some(91),
        Code::Convert => Some(92),
        Code::KanaMode => Some(93),
        Code::NonConvert => Some(94),
        Code::NumpadEnter => Some(96),
        Code::ControlRight => Some(97),
        Code::NumpadDivide => Some(98),
        Code::PrintScreen => Some(99),
        Code::AltRight => Some(100),
        Code::Home => Some(102),
        Code::ArrowUp => Some(103),
        Code::PageUp => Some(104),
        Code::ArrowLeft => Some(105),
        Code::ArrowRight => Some(106),
        Code::End => Some(107),
        Code::ArrowDown => Some(108),
        Code::PageDown => Some(109),
        Code::Insert => Some(110),
        Code::Delete => Some(111),
        Code::AudioVolumeMute => Some(113),
        Code::AudioVolumeDown => Some(114),
        Code::AudioVolumeUp => Some(115),
        Code::Power => Some(116),
        Code::NumpadEqual => Some(117),
        Code::Pause => Some(119),
        Code::ShowAllWindows => Some(120),
        Code::NumpadComma => Some(121),
        Code::Lang1 => Some(122),
        Code::Lang2 => Some(123),
        Code::IntlYen => Some(124),
        Code::MetaLeft => Some(125),
        Code::MetaRight => Some(126),
        Code::ContextMenu => Some(127),
        Code::BrowserStop => Some(128),
        Code::Again => Some(129),
        Code::Props => Some(130),
        Code::Undo => Some(131),
        Code::Select => Some(132),
        Code::Copy => Some(133),
        Code::Open => Some(134),
        Code::Paste => Some(135),
        Code::Find => Some(136),
        Code::Cut => Some(137),
        Code::Help => Some(138),
        Code::LaunchApp2 => Some(140),
        Code::Sleep => Some(142),
        Code::WakeUp => Some(143),
        Code::LaunchApp1 => Some(144),
        Code::LaunchMail => Some(155),
        Code::BrowserFavorites => Some(156),
        Code::BrowserBack => Some(158),
        Code::BrowserForward => Some(159),
        Code::Eject => Some(161),
        Code::MediaTrackNext => Some(163),
        Code::MediaPlayPause => Some(164),
        Code::MediaTrackPrevious => Some(165),
        Code::MediaStop => Some(166),
        Code::MediaRecord => Some(167),
        Code::MediaRewind => Some(168),
        Code::MediaSelect => Some(171),
        Code::BrowserHome => Some(172),
        Code::BrowserRefresh => Some(173),
        Code::NumpadParenLeft => Some(179),
        Code::NumpadParenRight => Some(180),
        Code::F13 => Some(183),
        Code::F14 => Some(184),
        Code::F15 => Some(185),
        Code::F16 => Some(186),
        Code::F17 => Some(187),
        Code::F18 => Some(188),
        Code::F19 => Some(189),
        Code::F20 => Some(190),
        Code::F21 => Some(191),
        Code::F22 => Some(192),
        Code::F23 => Some(193),
        Code::F24 => Some(194),
        Code::MediaPause => Some(201),
        Code::MediaPlay => Some(207),
        Code::MediaFastForward => Some(208),
        Code::BrowserSearch => Some(217),
        Code::BrightnessDown => Some(224),
        Code::BrightnessUp => Some(225),
        Code::DisplayToggleIntExt => Some(227),
        Code::KeyboardBacklightToggle => Some(228),
        Code::MailSend => Some(231),
        Code::MailReply => Some(232),
        Code::MailForward => Some(233),
        Code::MicrophoneMuteToggle => Some(248),
        Code::ZoomToggle => Some(372),
        Code::LaunchControlPanel => Some(579),
        Code::SelectTask => Some(580),
        Code::LaunchScreenSaver => Some(581),
        Code::LaunchAssistant => Some(583),
        Code::KeyboardLayoutSelect => Some(584),
        Code::PrivacyScreenToggle => Some(633),
        _ => None,
    }
}

/// The named key that a key symbol stands for, if it is one of those the keymap names.
pub open spec fn keysym_named_key(keysym: u32) -> Option<NamedKey> {
    match keysym {
        keysym::BackSpace => Some(NamedKey::Backspace),
        keysym::Tab => Some(NamedKey::Tab),
        keysym::Clear => Some(NamedKey::Clear),
        keysym::Return => Some(NamedKey::Enter),
        keysym::Pause => Some(NamedKey::Pause),
        keysym::Scroll_Lock => Some(NamedKey::ScrollLock),
        keysym::Sys_Req => Some(NamedKey::PrintScreen),
        keysym::Escape => Some(NamedKey::Escape),
        keysym::Delete => Some(NamedKey::Delete),
        keysym::Multi_key => Some(NamedKey::Compose),
        keysym::Codeinput => Some(NamedKey::CodeInput),
        keysym::SingleCandidate => Some(NamedKey::SingleCandidate),
        keysym::MultipleCandidate => Some(NamedKey::AllCandidates),
        keysym::PreviousCandidate => Some(NamedKey::PreviousCandidate),
        keysym::Kanji => Some(NamedKey::KanjiMode),
        keysym::Muhenkan => Some(NamedKey::NonConvert),
        keysym::Henkan_Mode => Some(NamedKey::Convert),
        keysym::Romaji => Some(NamedKey::Romaji),
        keysym::Hiragana => Some(NamedKey::Hiragana),
        keysym::Hiragana_Katakana => Some(NamedKey::HiraganaKatakana),
        keysym::Zenkaku => Some(NamedKey::Zenkaku),
        keysym::Hankaku => Some(NamedKey::Hankaku),
        keysym::Zenkaku_Hankaku => Some(NamedKey::ZenkakuHankaku),
        keysym::Kana_Lock => Some(NamedKey::KanaMode),
        keysym::Kana_Shift => Some(NamedKey::KanaMode),
        keysym::Eisu_Shift => Some(NamedKey::Alphanumeric),
        keysym::Eisu_toggle => Some(NamedKey::Alphanumeric),
        keysym::Home => Some(NamedKey::Home),
        keysym::Left => Some(NamedKey::ArrowLeft),
        keysym::Up => Some(NamedKey::ArrowUp),
        keysym::Right => Some(NamedKey::ArrowRight),
        keysym::Down => Some(NamedKey::ArrowDown),
        keysym::Page_Up => Some(NamedKey::PageUp),
        keysym::Page_Down => Some(NamedKey::PageDown),
        keysym::End => Some(NamedKey::End),
        keysym::Select => Some(NamedKey::Select),
        keysym::Print => Some(NamedKey::PrintScreen),
        keysym::Execute => Some(NamedKey::Execute),
        keysym::Insert => Some(NamedKey::Insert),
        keysym::Undo => Some(NamedKey::Undo),
        keysym::Redo => Some(NamedKey::Redo),
        keysym::Menu => Some(NamedKey::ContextMenu),
        keysym::Find => Some(NamedKey::Find),
        keysym::Cancel => Some(NamedKey::Cancel),
        keysym::Help => Some(NamedKey::Help),
        keysym::Break => Some(NamedKey::Pause),
        keysym::Mode_switch => Some(NamedKey::ModeChange),
        keysym::Num_Lock => Some(NamedKey::NumLock),
        keysym::KP_Tab => Some(NamedKey::Tab),
        keysym::KP_Enter => Some(NamedKey::Enter),
        keysym::KP_F1 => Some(NamedKey::F1),
        keysym::KP_F2 => Some(NamedKey::F2),
        keysym::KP_F3 => Some(NamedKey::F3),
        keysym::KP_F4 => Some(NamedKey::F4),
        keysym::KP_Home => Some(NamedKey::Home),
        keysym::KP_Left => Some(NamedKey::ArrowLeft),
        keysym::KP_Up => Some(NamedKey::ArrowUp),
        keysym::KP_Right => Some(NamedKey::ArrowRight),
        keysym::KP_Down => Some(NamedKey::ArrowDown),
        keysym::KP_Page_Up => Some(NamedKey::PageUp),
        keysym::KP_Page_Down => Some(NamedKey::PageDown),
        keysym::KP_End => Some(NamedKey::End),
        keysym::KP_Insert => Some(NamedKey::Insert),
        keysym::KP_Delete => Some(NamedKey::Delete),
        keysym::F1 => Some(NamedKey::F1),
        keysym::F2 => Some(NamedKey::F2),
        keysym::F3 => Some(NamedKey::F3),
        keysym::F4 => Some(NamedKey::F4),
        keysym::F5 => Some(NamedKey::F5),
        keysym::F6 => Some(NamedKey::F6),
        keysym::F7 => Some(NamedKey::F7),
        keysym::F8 => Some(NamedKey::F8),
        keysym::F9 => Some(NamedKey::F9),
        keysym::F10 => Some(NamedKey::F10),
        keysym::F11 => Some(NamedKey::F11),
        keysym::F12 => Some(NamedKey::F12),
        keysym::F13 => Some(NamedKey::F13),
        keysym::F14 => Some(NamedKey::F14),
        keysym::F15 => Some(NamedKey::F15),
        keysym::F16 => Some(NamedKey::F16),
        keysym::F17 => Some(NamedKey::F17),
        keysym::F18 => Some(NamedKey::F18),
        keysym::F19 => Some(NamedKey::F19),
        keysym::F20 => Some(NamedKey::F20),
        keysym::F21 => Some(NamedKey::F21),
        keysym::F22 => Some(NamedKey::F22),
        keysym::F23 => Some(NamedKey::F23),
        keysym::F24 => Some(NamedKey::F24),
        keysym::F25 => Some(NamedKey::F25),
        keysym::F26 => Some(NamedKey::F26),
        keysym::F27 => Some(NamedKey::F27),
        keysym::F28 => Some(NamedKey::F28),
        keysym::F29 => Some(NamedKey::F29),
        keysym::F30 => Some(NamedKey::F30),
        keysym::F31 => Some(NamedKey::F31),
        keysym::F32 => Some(NamedKey::F32),
        keysym::F33 => Some(NamedKey::F33),
        keysym::F34 => Some(NamedKey::F34),
        keysym::F35 => Some(NamedKey::F35),
        keysym::Shift_L => Some(NamedKey::Shift),
        keysym::Shift_R => Some(NamedKey::Shift),
        keysym::Control_L => Some(NamedKey::Control),
        keysym::Control_R => Some(NamedKey::Control),
        keysym::Caps_Lock => Some(NamedKey::CapsLock),
        keysym::Alt_L => Some(NamedKey::Alt),
        keysym::Alt_R => Some(NamedKey::Alt),
        keysym::Hyper_L => Some(NamedKey::Hyper),
        keysym::Hyper_R => Some(NamedKey::Hyper),
        keysym::Super_L => Some(NamedKey::Meta),
        keysym::Super_R => Some(NamedKey::Meta),
        keysym::ISO_Level3_Shift => Some(NamedKey::AltGraph),
        keysym::ISO_Level3_Latch => Some(NamedKey::AltGraph),
        keysym::ISO_Level3_Lock => Some(NamedKey::AltGraph),
        keysym::ISO_Next_Group => Some(NamedKey::GroupNext),
        keysym::ISO_Prev_Group => Some(NamedKey::GroupPrevious),
        keysym::ISO_First_Group => Some(NamedKey::GroupFirst),
        keysym::ISO_Last_Group => Some(NamedKey::GroupLast),
        keysym::ISO_Left_Tab => Some(NamedKey::Tab),
        keysym::ISO_Enter => Some(NamedKey::Enter),
        keysym::_3270_EraseEOF => Some(NamedKey::EraseEof),
        keysym::_3270_Attn => Some(NamedKey::Attn),
        keysym::_3270_Play => Some(NamedKey::Play),
        keysym::_3270_ExSelect => Some(NamedKey::ExSel),
        keysym::_3270_CursorSelect => Some(NamedKey::CrSel),
        keysym::_3270_PrintScreen => Some(NamedKey::PrintScreen),
        keysym::_3270_Enter => Some(NamedKey::Enter),
        keysym::XF86_MonBrightnessUp => Some(NamedKey::BrightnessUp),
        keysym::XF86_MonBrightnessDown => Some(NamedKey::BrightnessDown),
        keysym::XF86_Standby => Some(NamedKey::Standby),
        keysym::XF86_AudioLowerVolume => Some(NamedKey::AudioVolumeDown),
        keysym::XF86_AudioRaiseVolume => Some(NamedKey::AudioVolumeUp),
        keysym::XF86_AudioPlay => Some(NamedKey::MediaPlay),
        keysym::XF86_AudioStop => Some(NamedKey::MediaStop),
        keysym::XF86_AudioPrev => Some(NamedKey::MediaTrackPrevious),
        keysym::XF86_AudioNext => Some(NamedKey::MediaTrackNext),
        keysym::XF86_HomePage => Some(NamedKey::BrowserHome),
        keysym::XF86_Mail => Some(NamedKey::LaunchMail),
        keysym::XF86_Search => Some(NamedKey::BrowserSearch),
        keysym::XF86_AudioRecord => Some(NamedKey::MediaRecord),
        keysym::XF86_Calculator => Some(NamedKey::LaunchApplication2),
        keysym::XF86_Calendar => Some(NamedKey::LaunchCalendar),
        keysym::XF86_PowerDown => Some(NamedKey::Power),
        keysym::XF86_Back => Some(NamedKey::BrowserBack),
        keysym::XF86_Forward => Some(NamedKey::BrowserForward),
        keysym::XF86_Refresh => Some(NamedKey::BrowserRefresh),
        keysym::XF86_PowerOff => Some(NamedKey::Power),
        keysym::XF86_WakeUp => Some(NamedKey::WakeUp),
        keysym::XF86_Eject => Some(NamedKey::Eject),
        keysym::XF86_ScreenSaver => Some(NamedKey::LaunchScreenSaver),
        keysym::XF86_WWW => Some(NamedKey::LaunchWebBrowser),
        keysym::XF86_Sleep => Some(NamedKey::Standby),
        keysym::XF86_Favorites => Some(NamedKey::BrowserFavorites),
        keysym::XF86_AudioPause => Some(NamedKey::MediaPause),
        keysym::XF86_MyComputer => Some(NamedKey::LaunchApplication1),
        keysym::XF86_AudioRewind => Some(NamedKey::MediaRewind),
        keysym::XF86_Calculater => Some(NamedKey::LaunchApplication2),
        keysym::XF86_Close => Some(NamedKey::Close),
        keysym::XF86_Copy => Some(NamedKey::Copy),
        keysym::XF86_Cut => Some(NamedKey::Cut),
        keysym::XF86_Excel => Some(NamedKey::LaunchSpreadsheet),
        keysym::XF86_LogOff => Some(NamedKey::LogOff),
        keysym::XF86_MySites => Some(NamedKey::BrowserFavorites),
        keysym::XF86_New => Some(NamedKey::New),
        keysym::XF86_Open => Some(NamedKey::Open),
        keysym::XF86_Paste => Some(NamedKey::Paste),
        keysym::XF86_Phone => Some(NamedKey::LaunchPhone),
        keysym::XF86_Reply => Some(NamedKey::MailReply),
        keysym::XF86_Reload => Some(NamedKey::BrowserRefresh),
        keysym::XF86_Save => Some(NamedKey::Save),
        keysym::XF86_Send => Some(NamedKey::MailSend),
        keysym::XF86_Spell => Some(NamedKey::SpellCheck),
        keysym::XF86_SplitScreen => Some(NamedKey::SplitScreenToggle),
        keysym::XF86_Video => Some(NamedKey::LaunchMediaPlayer),
        keysym::XF86_Word => Some(NamedKey::LaunchWordProcessor),
        keysym::XF86_ZoomIn => Some(NamedKey::ZoomIn),
        keysym::XF86_ZoomOut => Some(NamedKey::ZoomOut),
        keysym::XF86_WebCam => Some(NamedKey::LaunchWebCam),
        keysym::XF86_MailForward => Some(NamedKey::MailForward),
        keysym::XF86_Music => Some(NamedKey::LaunchMusicPlayer),
        keysym::XF86_AudioForward => Some(NamedKey::MediaFastForward),
        keysym::XF86_AudioRandomPlay => Some(NamedKey::RandomToggle),
        keysym::XF86_Subtitle => Some(NamedKey::Subtitle),
        keysym::XF86_AudioCycleTrack => Some(NamedKey::MediaAudioTrack),
        keysym::XF86_Suspend => Some(NamedKey::Standby),
        keysym::XF86_Hibernate => Some(NamedKey::Hibernate),
        keysym::XF86_AudioMute => Some(NamedKey::AudioVolumeMute),
        keysym::XF86_Next_VMode => Some(NamedKey::VideoModeNext),
        keysym::SUN_Copy => Some(NamedKey::Copy),
        keysym::SUN_Open => Some(NamedKey::Open),
        keysym::SUN_Paste => Some(NamedKey::Paste),
        keysym::SUN_Cut => Some(NamedKey::Cut),
        keysym::SUN_AudioLowerVolume => Some(NamedKey::AudioVolumeDown),
        keysym::SUN_AudioMute => Some(NamedKey::AudioVolumeMute),
        keysym::SUN_AudioRaiseVolume => Some(NamedKey::AudioVolumeUp),
        keysym::SUN_VideoLowerBrightness => Some(NamedKey::BrightnessDown),
        keysym::SUN_VideoRaiseBrightness => Some(NamedKey::BrightnessUp),
        _ => None,
    }
}

/// The logical key of a key symbol other than `space` (which yields the character `" "`).
pub open spec fn keysym_logical_key(keysym: u32) -> LogicalKey {
    if keysym == 0 {
        LogicalKey::Unidentified(NativeKey::Unidentified)
    } else {
        match keysym_named_key(keysym) {
            Some(named) => LogicalKey::Named(named),
            None => LogicalKey::Unidentified(NativeKey::Key(keysym)),
        }
    }
}

/// Map an X11 key symbol to its logical key.
pub fn keysym_to_key(keysym: u32) -> (key: LogicalKey)
    ensures
        keysym == keysym::space ==> (key matches LogicalKey::Character(text) && text@ == seq![' ']),
        keysym != keysym::space ==> key == keysym_logical_key(keysym),
{
    LogicalKey::Named(
        match keysym {
            keysym::BackSpace => NamedKey::Backspace,
            keysym::Tab => NamedKey::Tab,
            keysym::Clear => NamedKey::Clear,
            keysym::Return => NamedKey::Enter,
            keysym::Pause => NamedKey::Pause,
            keysym::Scroll_Lock => NamedKey::ScrollLock,
            keysym::Sys_Req => NamedKey::PrintScreen,
            keysym::Escape => NamedKey::Escape,
            keysym::Delete => NamedKey::Delete,
            keysym::Multi_key => NamedKey::Compose,
            keysym::Codeinput => NamedKey::CodeInput,
            keysym::SingleCandidate => NamedKey::SingleCandidate,
            keysym::MultipleCandidate => NamedKey::AllCandidates,
            keysym::PreviousCandidate => NamedKey::PreviousCandidate,
            keysym::Kanji => NamedKey::KanjiMode,
            keysym::Muhenkan => NamedKey::NonConvert,
            keysym::Henkan_Mode => NamedKey::Convert,
            keysym::Romaji => NamedKey::Romaji,
            keysym::Hiragana => NamedKey::Hiragana,
            keysym::Hiragana_Katakana => NamedKey::HiraganaKatakana,
            keysym::Zenkaku => NamedKey::Zenkaku,
            keysym::Hankaku => NamedKey::Hankaku,
            keysym::Zenkaku_Hankaku => NamedKey::ZenkakuHankaku,
            keysym::Kana_Lock => NamedKey::KanaMode,
            keysym::Kana_Shift => NamedKey::KanaMode,
            keysym::Eisu_Shift => NamedKey::Alphanumeric,
            keysym::Eisu_toggle => NamedKey::Alphanumeric,
            keysym::Home => NamedKey::Home,
            keysym::Left => NamedKey::ArrowLeft,
            keysym::Up => NamedKey::ArrowUp,
            keysym::Right => NamedKey::ArrowRight,
            keysym::Down => NamedKey::ArrowDown,
            keysym::Page_Up => NamedKey::PageUp,
            keysym::Page_Down => NamedKey::PageDown,
            keysym::End => NamedKey::End,
            keysym::Select => NamedKey::Select,
            keysym::Print => NamedKey::PrintScreen,
            keysym::Execute => NamedKey::Execute,
            keysym::Insert => NamedKey::Insert,
            keysym::Undo => NamedKey::Undo,
            keysym::Redo => NamedKey::Redo,
            keysym::Menu => NamedKey::ContextMenu,
            keysym::Find => NamedKey::Find,
            keysym::Cancel => NamedKey::Cancel,
            keysym::Help => NamedKey::Help,
            keysym::Break => NamedKey::Pause,
            keysym::Mode_switch => NamedKey::ModeChange,
            keysym::Num_Lock => NamedKey::NumLock,
            keysym::KP_Tab => NamedKey::Tab,
            keysym::KP_Enter => NamedKey::Enter,
            keysym::KP_F1 => NamedKey::F1,
            keysym::KP_F2 => NamedKey::F2,
            keysym::KP_F3 => NamedKey::F3,
            keysym::KP_F4 => NamedKey::F4,
            keysym::KP_Home => NamedKey::Home,
            keysym::KP_Left => NamedKey::ArrowLeft,
            keysym::KP_Up => NamedKey::ArrowUp,
            keysym::KP_Right => NamedKey::ArrowRight,
            keysym::KP_Down => NamedKey::ArrowDown,
            keysym::KP_Page_Up => NamedKey::PageUp,
            keysym::KP_Page_Down => NamedKey::PageDown,
            keysym::KP_End => NamedKey::End,
            keysym::KP_Insert => NamedKey::Insert,
            keysym::KP_Delete => NamedKey::Delete,
            keysym::F1 => NamedKey::F1,
            keysym::F2 => NamedKey::F2,
            keysym::F3 => NamedKey::F3,
            keysym::F4 => NamedKey::F4,
            keysym::F5 => NamedKey::F5,
            keysym::F6 => NamedKey::F6,
            keysym::F7 => NamedKey::F7,
            keysym::F8 => NamedKey::F8,
            keysym::F9 => NamedKey::F9,
            keysym::F10 => NamedKey::F10,
            keysym::F11 => NamedKey::F11,
            keysym::F12 => NamedKey::F12,
            keysym::F13 => NamedKey::F13,
            keysym::F14 => NamedKey::F14,
            keysym::F15 => NamedKey::F15,
            keysym::F16 => NamedKey::F16,
            keysym::F17 => NamedKey::F17,
            keysym::F18 => NamedKey::F18,
            keysym::F19 => NamedKey::F19,
            keysym::F20 => NamedKey::F20,
            keysym::F21 => NamedKey::F21,
            keysym::F22 => NamedKey::F22,
            keysym::F23 => NamedKey::F23,
            keysym::F24 => NamedKey::F24,
            keysym::F25 => NamedKey::F25,
            keysym::F26 => NamedKey::F26,
            keysym::F27 => NamedKey::F27,
            keysym::F28 => NamedKey::F28,
            keysym::F29 => NamedKey::F29,
            keysym::F30 => NamedKey::F30,
            keysym::F31 => NamedKey::F31,
            keysym::F32 => NamedKey::F32,
            keysym::F33 => NamedKey::F33,
            keysym::F34 => NamedKey::F34,
            keysym::F35 => NamedKey::F35,
            keysym::Shift_L => NamedKey::Shift,
            keysym::Shift_R => NamedKey::Shift,
            keysym::Control_L => NamedKey::Control,
            keysym::Control_R => NamedKey::Control,
            keysym::Caps_Lock => NamedKey::CapsLock,
            keysym::Alt_L => NamedKey::Alt,
            keysym::Alt_R => NamedKey::Alt,
            keysym::Hyper_L => NamedKey::Hyper,
            keysym::Hyper_R => NamedKey::Hyper,
            keysym::Super_L => NamedKey::Meta,
            keysym::Super_R => NamedKey::Meta,
            keysym::ISO_Level3_Shift => NamedKey::AltGraph,
            keysym::ISO_Level3_Latch => NamedKey::AltGraph,
            keysym::ISO_Level3_Lock => NamedKey::AltGraph,
            keysym::ISO_Next_Group => NamedKey::GroupNext,
            keysym::ISO_Prev_Group => NamedKey::GroupPrevious,
            keysym::ISO_First_Group => NamedKey::GroupFirst,
            keysym::ISO_Last_Group => NamedKey::GroupLast,
            keysym::ISO_Left_Tab => NamedKey::Tab,
            keysym::ISO_Enter => NamedKey::Enter,
            keysym::_3270_EraseEOF => NamedKey::EraseEof,
            keysym::_3270_Attn => NamedKey::Attn,
            keysym::_3270_Play => NamedKey::Play,
            keysym::_3270_ExSelect => NamedKey::ExSel,
            keysym::_3270_CursorSelect => NamedKey::CrSel,
            keysym::_3270_PrintScreen => NamedKey::PrintScreen,
            keysym::_3270_Enter => NamedKey::Enter,
            keysym::XF86_MonBrightnessUp => NamedKey::BrightnessUp,
            keysym::XF86_MonBrightnessDown => NamedKey::BrightnessDown,
            keysym::XF86_Standby => NamedKey::Standby,
            keysym::XF86_AudioLowerVolume => NamedKey::AudioVolumeDown,
            keysym::XF86_AudioRaiseVolume => NamedKey::AudioVolumeUp,
            keysym::XF86_AudioPlay => NamedKey::MediaPlay,
            keysym::XF86_AudioStop => NamedKey::MediaStop,
            keysym::XF86_AudioPrev => NamedKey::MediaTrackPrevious,
            keysym::XF86_AudioNext => NamedKey::MediaTrackNext,
            keysym::XF86_HomePage => NamedKey::BrowserHome,
            keysym::XF86_Mail => NamedKey::LaunchMail,
            keysym::XF86_Search => NamedKey::BrowserSearch,
            keysym::XF86_AudioRecord => NamedKey::MediaRecord,
            keysym::XF86_Calculator => NamedKey::LaunchApplication2,
            keysym::XF86_Calendar => NamedKey::LaunchCalendar,
            keysym::XF86_PowerDown => NamedKey::Power,
            keysym::XF86_Back => NamedKey::BrowserBack,
            keysym::XF86_Forward => NamedKey::BrowserForward,
            keysym::XF86_Refresh => NamedKey::BrowserRefresh,
            keysym::XF86_PowerOff => NamedKey::Power,
            keysym::XF86_WakeUp => NamedKey::WakeUp,
            keysym::XF86_Eject => NamedKey::Eject,
            keysym::XF86_ScreenSaver => NamedKey::LaunchScreenSaver,
            keysym::XF86_WWW => NamedKey::LaunchWebBrowser,
            keysym::XF86_Sleep => NamedKey::Standby,
            keysym::XF86_Favorites => NamedKey::BrowserFavorites,
            keysym::XF86_AudioPause => NamedKey::MediaPause,
            keysym::XF86_MyComputer => NamedKey::LaunchApplication1,
            keysym::XF86_AudioRewind => NamedKey::MediaRewind,
            keysym::XF86_Calculater => NamedKey::LaunchApplication2,
            keysym::XF86_Close => NamedKey::Close,
            keysym::XF86_Copy => NamedKey::Copy,
            keysym::XF86_Cut => NamedKey::Cut,
            keysym::XF86_Excel => NamedKey::LaunchSpreadsheet,
            keysym::XF86_LogOff => NamedKey::LogOff,
            keysym::XF86_MySites => NamedKey::BrowserFavorites,
            keysym::XF86_New => NamedKey::New,
            keysym::XF86_Open => NamedKey::Open,
            keysym::XF86_Paste => NamedKey::Paste,
            keysym::XF86_Phone => NamedKey::LaunchPhone,
            keysym::XF86_Reply => NamedKey::MailReply,
            keysym::XF86_Reload => NamedKey::BrowserRefresh,
            keysym::XF86_Save => NamedKey::Save,
            keysym::XF86_Send => NamedKey::MailSend,
            keysym::XF86_Spell => NamedKey::SpellCheck,
            keysym::XF86_SplitScreen => NamedKey::SplitScreenToggle,
            keysym::XF86_Video => NamedKey::LaunchMediaPlayer,
            keysym::XF86_Word => NamedKey::LaunchWordProcessor,
            keysym::XF86_ZoomIn => NamedKey::ZoomIn,
            keysym::XF86_ZoomOut => NamedKey::ZoomOut,
            keysym::XF86_WebCam => NamedKey::LaunchWebCam,
            keysym::XF86_MailForward => NamedKey::MailForward,
            keysym::XF86_Music => NamedKey::LaunchMusicPlayer,
            keysym::XF86_AudioForward => NamedKey::MediaFastForward,
            keysym::XF86_AudioRandomPlay => NamedKey::RandomToggle,
            keysym::XF86_Subtitle => NamedKey::Subtitle,
            keysym::XF86_AudioCycleTrack => NamedKey::MediaAudioTrack,
            keysym::XF86_Suspend => NamedKey::Standby,
            keysym::XF86_Hibernate => NamedKey::Hibernate,
            keysym::XF86_AudioMute => NamedKey::AudioVolumeMute,
            keysym::XF86_Next_VMode => NamedKey::VideoModeNext,
            keysym::SUN_Copy => NamedKey::Copy,
            keysym::SUN_Open => NamedKey::Open,
            keysym::SUN_Paste => NamedKey::Paste,
            keysym::SUN_Cut => NamedKey::Cut,
            keysym::SUN_AudioLowerVolume => NamedKey::AudioVolumeDown,
            keysym::SUN_AudioMute => NamedKey::AudioVolumeMute,
            keysym::SUN_AudioRaiseVolume => NamedKey::AudioVolumeUp,
            keysym::SUN_VideoLowerBrightness => NamedKey::BrightnessDown,
            keysym::SUN_VideoRaiseBrightness => NamedKey::BrightnessUp,
            keysym::space => {
                let text = " ".to_owned();
                proof {
                    reveal_strlit(" ");
                }
                return LogicalKey::Character(text);
            },
            0 => return LogicalKey::Unidentified(NativeKey::Unidentified),
            _ => return LogicalKey::Unidentified(NativeKey::Key(keysym)),
        },
    )
}

/// The key symbols of the left-hand modifier keys.
pub open spec fn is_left_keysym(keysym: u32) -> bool {
    ||| keysym == keysym::Shift_L
    ||| keysym == keysym::Control_L
    ||| keysym == keysym::Meta_L
    ||| keysym == keysym::Alt_L
    ||| keysym == keysym::Super_L
    ||| keysym == keysym::Hyper_L
}

/// The key symbols of the right-hand modifier keys.
pub open spec fn is_right_keysym(keysym: u32) -> bool {
    ||| keysym == keysym::Shift_R
    ||| keysym == keysym::Control_R
    ||| keysym == keysym::Meta_R
    ||| keysym == keysym::Alt_R
    ||| keysym == keysym::Super_R
    ||| keysym == keysym::Hyper_R
}

/// The key symbols of the keypad (`KP_*`).
pub open spec fn is_numpad_keysym(keysym: u32) -> bool {
    keysym_location_spec(keysym) == Location::Numpad
}

/// Where the key of a key symbol lies on the keyboard.
pub open spec fn keysym_location_spec(keysym: u32) -> Location {
    if is_left_keysym(keysym) {
        Location::Left
    } else if is_right_keysym(keysym) {
        Location::Right
    } else {
        match keysym {
            keysym::KP_0 |
        keysym::KP_1 |
        keysym::KP_2 |
        keysym::KP_3 |
        keysym::KP_4 |
        keysym::KP_5 |
        keysym::KP_6 |
        keysym::KP_7 |
        keysym::KP_8 |
        keysym::KP_9 |
        keysym::KP_Space |
        keysym::KP_Tab |
        keysym::KP_Enter |
        keysym::KP_F1 |
        keysym::KP_F2 |
        keysym::KP_F3 |
        keysym::KP_F4 |
        keysym::KP_Home |
        keysym::KP_Left |
        keysym::KP_Up |
        keysym::KP_Right |
        keysym::KP_Down |
        keysym::KP_Page_Up |
        keysym::KP_Page_Down |
        keysym::KP_End |
        keysym::KP_Begin |
        keysym::KP_Insert |
        keysym::KP_Delete |
        keysym::KP_Equal |
        keysym::KP_Multiply |
        keysym::KP_Add |
        keysym::KP_Separator |
        keysym::KP_Subtract |
        keysym::KP_Decimal |
        keysym::KP_Divide => Location::Numpad,
            _ => Location::Standard,
        }
    }
}

/// Where the key of an X11 key symbol lies on the keyboard.
pub fn keysym_location(keysym: u32) -> (location: Location)
    ensures
        location == keysym_location_spec(keysym),
{
    match keysym {
        keysym::Shift_L |
        keysym::Control_L |
        keysym::Meta_L |
        keysym::Alt_L |
        keysym::Super_L |
        keysym::Hyper_L => Location::Left,
        keysym::Shift_R |
        keysym::Control_R |
        keysym::Meta_R |
        keysym::Alt_R |
        keysym::Super_R |
        keysym::Hyper_R => Location::Right,
        keysym::KP_0 |
        keysym::KP_1 |
        keysym::KP_2 |
        keysym::KP_3 |
        keysym::KP_4 |
        keysym::KP_5 |
        keysym::KP_6 |
        keysym::KP_7 |
        keysym::KP_8 |
        keysym::KP_9 |
        keysym::KP_Space |
        keysym::KP_Tab |
        keysym::KP_Enter |
        keysym::KP_F1 |
        keysym::KP_F2 |
        keysym::KP_F3 |
        keysym::KP_F4 |
        keysym::KP_Home |
        keysym::KP_Left |
        keysym::KP_Up |
        keysym::KP_Right |
        keysym::KP_Down |
        keysym::KP_Page_Up |
        keysym::KP_Page_Down |
        keysym::KP_End |
        keysym::KP_Begin |
        keysym::KP_Insert |
        keysym::KP_Delete |
        keysym::KP_Equal |
        keysym::KP_Multiply |
        keysym::KP_Add |
        keysym::KP_Separator |
        keysym::KP_Subtract |
        keysym::KP_Decimal |
        keysym::KP_Divide => Location::Numpad,
        _ => Location::Standard,
    }
}

/// The named keys that X11 reports separately for the left and right side of the keyboard.
pub open spec fn is_sided_modifier(named: NamedKey) -> bool {
    ||| named == NamedKey::Shift
    ||| named == NamedKey::Control
    ||| named == NamedKey::Alt
    ||| named == NamedKey::Hyper
    ||| named == NamedKey::Meta
}

/// A key symbol that names a sided modifier lies on the left or on the right of the keyboard.
pub proof fn lemma_modifier_keysyms_are_sided(keysym: u32)
    requires
        keysym_named_key(keysym) matches Some(named) && is_sided_modifier(named),
    ensures
        keysym_location_spec(keysym) == Location::Left || keysym_location_spec(keysym)
            == Location::Right,
{
}

/// A key symbol on the left or right of the keyboard is a sided modifier, or a `Meta` key
/// symbol that the keymap leaves unnamed.
pub proof fn lemma_sided_keysyms_are_modifiers(keysym: u32)
    requires
        keysym_location_spec(keysym) == Location::Left || keysym_location_spec(keysym)
            == Location::Right,
    ensures
        (keysym_named_key(keysym) matches Some(named) && is_sided_modifier(named))
            || keysym == keysym::Meta_L || keysym == keysym::Meta_R,
{
}

/// X11 numbers the sided modifier keys in left/right pairs from `0xffe1` (`Shift_L`) to
/// `0xffee` (`Hyper_R`), left first; only `Caps_Lock` (`0xffe5`) and `Shift_Lock` (`0xffe6`) in
/// that block have no side. So a key symbol of the block lies on the left when it is odd and on
/// the right when it is even, and no key symbol outside the block lies on either side.
pub proof fn lemma_sides_follow_keysym_pairs(keysym: u32)
    ensures
        0xffe1 <= keysym <= 0xffee && keysym != 0xffe5 && keysym != 0xffe6 && keysym % 2 == 1
            ==> keysym_location_spec(keysym) == Location::Left,
        0xffe1 <= keysym <= 0xffee && keysym != 0xffe5 && keysym != 0xffe6 && keysym % 2 == 0
            ==> keysym_location_spec(keysym) == Location::Right,
        keysym_location_spec(keysym) == Location::Left || keysym_location_spec(keysym)
            == Location::Right ==> 0xffe1 <= keysym <= 0xffee && keysym != 0xffe5 && keysym
            != 0xffe6,
{
}

/// The keypad key symbols of X11 are `0xff80` (space), `0xff89` (tab), `0xff8d` (enter),
/// `0xff91` to `0xff9f` (the function and cursor keys), `0xffaa` to `0xffb9` (the operators,
/// the separator, the decimal point and the digits) and `0xffbd` (equals): exactly these lie on
/// the keypad.
pub proof fn lemma_numpad_is_keypad_block(keysym: u32)
    ensures
        keysym_location_spec(keysym) == Location::Numpad <==> (keysym == 0xff80 || keysym
            == 0xff89 || keysym == 0xff8d || (0xff91 <= keysym <= 0xff9f) || (0xffaa <= keysym
            <= 0xffb9) || keysym == 0xffbd),
{
}

} // verus!
