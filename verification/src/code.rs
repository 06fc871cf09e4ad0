//! Physical keys.
//!
//! `Code` names the physical position of a key, after the W3C UI Events `code`
//! values, in the same order as `keyboard_types::Code`, so that a key's number
//! (its place in that list) is the same in both.

use vstd::prelude::*;

verus! {

/// The physical position of a key on the keyboard, named after its place on a
/// US layout (W3C UI Events `code` values).
#[derive(Clone, Copy, Debug, PartialEq, Eq, Hash, Structural)]
pub enum Code {
    Backquote,
    Backslash,
    BracketLeft,
    BracketRight,
    Comma,
    Digit0,
    Digit1,
    Digit2,
    Digit3,
    Digit4,
    Digit5,
    Digit6,
    Digit7,
    Digit8,
    Digit9,
    Equal,
    IntlBackslash,
    IntlRo,
    IntlYen,
    KeyA,
    KeyB,
    KeyC,
    KeyD,
    KeyE,
    KeyF,
    KeyG,
    KeyH,
    KeyI,
    KeyJ,
    KeyK,
    KeyL,
    KeyM,
    KeyN,
    KeyO,
    KeyP,
    KeyQ,
    KeyR,
    KeyS,
    KeyT,
    KeyU,
    KeyV,
    KeyW,
    KeyX,
    KeyY,
    KeyZ,
    Minus,
    Period,
    Quote,
    Semicolon,
    Slash,
    AltLeft,
    AltRight,
    Backspace,
    CapsLock,
    ContextMenu,
    ControlLeft,
    ControlRight,
    Enter,
    MetaLeft,
    MetaRight,
    ShiftLeft,
    ShiftRight,
    Space,
    Tab,
    Convert,
    KanaMode,
    Lang1,
    Lang2,
    Lang3,
    Lang4,
    Lang5,
    NonConvert,
    Delete,
    End,
    Help,
    Home,
    Insert,
    PageDown,
    PageUp,
    ArrowDown,
    ArrowLeft,
    ArrowRight,
    ArrowUp,
    NumLock,
    Numpad0,
    Numpad1,
    Numpad2,
    Numpad3,
    Numpad4,
    Numpad5,
    Numpad6,
    Numpad7,
    Numpad8,
    Numpad9,
    NumpadAdd,
    NumpadBackspace,
    NumpadClear,
    NumpadClearEntry,
    NumpadComma,
    NumpadDecimal,
    NumpadDivide,
    NumpadEnter,
    NumpadEqual,
    NumpadHash,
    NumpadMemoryAdd,
    NumpadMemoryClear,
    NumpadMemoryRecall,
    NumpadMemoryStore,
    NumpadMemorySubtract,
    NumpadMultiply,
    NumpadParenLeft,
    NumpadParenRight,
    NumpadStar,
    NumpadSubtract,
    Escape,
    Fn,
    FnLock,
    PrintScreen,
    ScrollLock,
    Pause,
    BrowserBack,
    BrowserFavorites,
    BrowserForward,
    BrowserHome,
    BrowserRefresh,
    BrowserSearch,
    BrowserStop,
    Eject,
    LaunchApp1,
    LaunchApp2,
    LaunchMail,
    MediaPlayPause,
    MediaSelect,
    MediaStop,
    MediaTrackNext,
    MediaTrackPrevious,
    Power,
    Sleep,
    AudioVolumeDown,
    AudioVolumeMute,
    AudioVolumeUp,
    WakeUp,
    Hyper,
    Super,
    Turbo,
    Abort,
    Resume,
    Suspend,
    Again,
    Copy,
    Cut,
    Find,
    Open,
    Paste,
    Props,
    Select,
    Undo,
    Hiragana,
    Katakana,
    Unidentified,
    F1,
    F2,
    F3,
    F4,
    F5,
    F6,
    F7,
    F8,
    F9,
    F10,
    F11,
    F12,
    F13,
    F14,
    F15,
    F16,
    F17,
    F18,
    F19,
    F20,
    F21,
    F22,
    F23,
    F24,
    F25,
    F26,
    F27,
    F28,
    F29,
    F30,
    F31,
    F32,
    F33,
    F34,
    F35,
    BrightnessDown,
    BrightnessUp,
    DisplayToggleIntExt,
    KeyboardLayoutSelect,
    LaunchAssistant,
    LaunchControlPanel,
    LaunchScreenSaver,
    MailForward,
    MailReply,
    MailSend,
    MediaFastForward,
    MediaPause,
    MediaPlay,
    MediaRecord,
    MediaRewind,
    MicrophoneMuteToggle,
    PrivacyScreenToggle,
    SelectTask,
    ShowAllWindows,
    ZoomToggle,
}

/// The number of keys that `Code` names.
pub const CODE_COUNT: u16 = 215;

impl Code {
    /// The key's number: its place in the list of keys, counting from zero.
    pub open spec fn spec_index(self) -> u16 {
        match self {
            Code::Backquote => 0,
            Code::Backslash => 1,
            Code::BracketLeft => 2,
            Code::BracketRight => 3,
            Code::Comma => 4,
            Code::Digit0 => 5,
            Code::Digit1 => 6,
            Code::Digit2 => 7,
            Code::Digit3 => 8,
            Code::Digit4 => 9,
            Code::Digit5 => 10,
            Code::Digit6 => 11,
            Code::Digit7 => 12,
            Code::Digit8 => 13,
            Code::Digit9 => 14,
            Code::Equal => 15,
            Code::IntlBackslash => 16,
            Code::IntlRo => 17,
            Code::IntlYen => 18,
            Code::KeyA => 19,
            Code::KeyB => 20,
            Code::KeyC => 21,
            Code::KeyD => 22,
            Code::KeyE => 23,
            Code::KeyF => 24,
            Code::KeyG => 25,
            Code::KeyH => 26,
            Code::KeyI => 27,
            Code::KeyJ => 28,
            Code::KeyK => 29,
            Code::KeyL => 30,
            Code::KeyM => 31,
            Code::KeyN => 32,
            Code::KeyO => 33,
            Code::KeyP => 34,
            Code::KeyQ => 35,
            Code::KeyR => 36,
            Code::KeyS => 37,
            Code::KeyT => 38,
            Code::KeyU => 39,
            Code::KeyV => 40,
            Code::KeyW => 41,
            Code::KeyX => 42,
            Code::KeyY => 43,
            Code::KeyZ => 44,
            Code::Minus => 45,
            Code::Period => 46,
            Code::Quote => 47,
            Code::Semicolon => 48,
            Code::Slash => 49,
            Code::AltLeft => 50,
            Code::AltRight => 51,
            Code::Backspace => 52,
            Code::CapsLock => 53,
            Code::ContextMenu => 54,
            Code::ControlLeft => 55,
            Code::ControlRight => 56,
            Code::Enter => 57,
            Code::MetaLeft => 58,
            Code::MetaRight => 59,
            Code::ShiftLeft => 60,
            Code::ShiftRight => 61,
            Code::Space => 62,
            Code::Tab => 63,
            Code::Convert => 64,
            Code::KanaMode => 65,
            Code::Lang1 => 66,
            Code::Lang2 => 67,
            Code::Lang3 => 68,
            Code::Lang4 => 69,
            Code::Lang5 => 70,
            Code::NonConvert => 71,
            Code::Delete => 72,
            Code::End => 73,
            Code::Help => 74,
            Code::Home => 75,
            Code::Insert => 76,
            Code::PageDown => 77,
            Code::PageUp => 78,
            Code::ArrowDown => 79,
            Code::ArrowLeft => 80,
            Code::ArrowRight => 81,
            Code::ArrowUp => 82,
            Code::NumLock => 83,
            Code::Numpad0 => 84,
            Code::Numpad1 => 85,
            Code::Numpad2 => 86,
            Code::Numpad3 => 87,
            Code::Numpad4 => 88,
            Code::Numpad5 => 89,
            Code::Numpad6 => 90,
            Code::Numpad7 => 91,
            Code::Numpad8 => 92,
            Code::Numpad9 => 93,
            Code::NumpadAdd => 94,
            Code::NumpadBackspace => 95,
            Code::NumpadClear => 96,
            Code::NumpadClearEntry => 97,
            Code::NumpadComma => 98,
            Code::NumpadDecimal => 99,
            Code::NumpadDivide => 100,
            Code::NumpadEnter => 101,
            Code::NumpadEqual => 102,
            Code::NumpadHash => 103,
            Code::NumpadMemoryAdd => 104,
            Code::NumpadMemoryClear => 105,
            Code::NumpadMemoryRecall => 106,
            Code::NumpadMemoryStore => 107,
            Code::NumpadMemorySubtract => 108,
            Code::NumpadMultiply => 109,
            Code::NumpadParenLeft => 110,
            Code::NumpadParenRight => 111,
            Code::NumpadStar => 112,
            Code::NumpadSubtract => 113,
            Code::Escape => 114,
            Code::Fn => 115,
            Code::FnLock => 116,
            Code::PrintScreen => 117,
            Code::ScrollLock => 118,
            Code::Pause => 119,
            Code::BrowserBack => 120,
            Code::BrowserFavorites => 121,
            Code::BrowserForward => 122,
            Code::BrowserHome => 123,
            Code::BrowserRefresh => 124,
            Code::BrowserSearch => 125,
            Code::BrowserStop => 126,
            Code::Eject => 127,
            Code::LaunchApp1 => 128,
            Code::LaunchApp2 => 129,
            Code::LaunchMail => 130,
            Code::MediaPlayPause => 131,
            Code::MediaSelect => 132,
            Code::MediaStop => 133,
            Code::MediaTrackNext => 134,
            Code::MediaTrackPrevious => 135,
            Code::Power => 136,
            Code::Sleep => 137,
            Code::AudioVolumeDown => 138,
            Code::AudioVolumeMute => 139,
            Code::AudioVolumeUp => 140,
            Code::WakeUp => 141,
            Code::Hyper => 142,
            Code::Super => 143,
            Code::Turbo => 144,
            Code::Abort => 145,
            Code::Resume => 146,
            Code::Suspend => 147,
            Code::Again => 148,
            Code::Copy => 149,
            Code::Cut => 150,
            Code::Find => 151,
            Code::Open => 152,
            Code::Paste => 153,
            Code::Props => 154,
            Code::Select => 155,
            Code::Undo => 156,
            Code::Hiragana => 157,
            Code::Katakana => 158,
            Code::Unidentified => 159,
            Code::F1 => 160,
            Code::F2 => 161,
            Code::F3 => 162,
            Code::F4 => 163,
            Code::F5 => 164,
            Code::F6 => 165,
            Code::F7 => 166,
            Code::F8 => 167,
            Code::F9 => 168,
            Code::F10 => 169,
            Code::F11 => 170,
            Code::F12 => 171,
            Code::F13 => 172,
            Code::F14 => 173,
            Code::F15 => 174,
            Code::F16 => 175,
            Code::F17 => 176,
            Code::F18 => 177,
            Code::F19 => 178,
            Code::F20 => 179,
            Code::F21 => 180,
            Code::F22 => 181,
            Code::F23 => 182,
            Code::F24 => 183,
            Code::F25 => 184,
            Code::F26 => 185,
            Code::F27 => 186,
            Code::F28 => 187,
            Code::F29 => 188,
            Code::F30 => 189,
            Code::F31 => 190,
            Code::F32 => 191,
            Code::F33 => 192,
            Code::F34 => 193,
            Code::F35 => 194,
            Code::BrightnessDown => 195,
            Code::BrightnessUp => 196,
            Code::DisplayToggleIntExt => 197,
            Code::KeyboardLayoutSelect => 198,
            Code::LaunchAssistant => 199,
            Code::LaunchControlPanel => 200,
            Code::LaunchScreenSaver => 201,
            Code::MailForward => 202,
            Code::MailReply => 203,
            Code::MailSend => 204,
            Code::MediaFastForward => 205,
            Code::MediaPause => 206,
            Code::MediaPlay => 207,
            Code::MediaRecord => 208,
            Code::MediaRewind => 209,
            Code::MicrophoneMuteToggle => 210,
            Code::PrivacyScreenToggle => 211,
            Code::SelectTask => 212,
            Code::ShowAllWindows => 213,
            Code::ZoomToggle => 214,
        }
    }

    /// The key whose number is `i`, if there is one.
    pub open spec fn spec_from_index(i: u16) -> Option<Code> {
        match i {
            0 => Some(Code::Backquote),
            1 => Some(Code::Backslash),
            2 => Some(Code::BracketLeft),
            3 => Some(Code::BracketRight),
            4 => Some(Code::Comma),
            5 => Some(Code::Digit0),
            6 => Some(Code::Digit1),
            7 => Some(Code::Digit2),
            8 => Some(Code::Digit3),
            9 => Some(Code::Digit4),
            10 => Some(Code::Digit5),
            11 => Some(Code::Digit6),
            12 => Some(Code::Digit7),
            13 => Some(Code::Digit8),
            14 => Some(Code::Digit9),
            15 => Some(Code::Equal),
            16 => Some(Code::IntlBackslash),
            17 => Some(Code::IntlRo),
            18 => Some(Code::IntlYen),
            19 => Some(Code::KeyA),
            20 => Some(Code::KeyB),
            21 => Some(Code::KeyC),
            22 => Some(Code::KeyD),
            23 => Some(Code::KeyE),
            24 => Some(Code::KeyF),
            25 => Some(Code::KeyG),
            26 => Some(Code::KeyH),
            27 => Some(Code::KeyI),
            28 => Some(Code::KeyJ),
            29 => Some(Code::KeyK),
            30 => Some(Code::KeyL),
            31 => Some(Code::KeyM),
            32 => Some(Code::KeyN),
            33 => Some(Code::KeyO),
            34 => Some(Code::KeyP),
            35 => Some(Code::KeyQ),
            36 => Some(Code::KeyR),
            37 => Some(Code::KeyS),
            38 => Some(Code::KeyT),
            39 => Some(Code::KeyU),
            40 => Some(Code::KeyV),
            41 => Some(Code::KeyW),
            42 => Some(Code::KeyX),
            43 => Some(Code::KeyY),
            44 => Some(Code::KeyZ),
            45 => Some(Code::Minus),
            46 => Some(Code::Period),
            47 => Some(Code::Quote),
            48 => Some(Code::Semicolon),
            49 => Some(Code::Slash),
            50 => Some(Code::AltLeft),
            51 => Some(Code::AltRight),
            52 => Some(Code::Backspace),
            53 => Some(Code::CapsLock),
            54 => Some(Code::ContextMenu),
            55 => Some(Code::ControlLeft),
            56 => Some(Code::ControlRight),
            57 => Some(Code::Enter),
            58 => Some(Code::MetaLeft),
            59 => Some(Code::MetaRight),
            60 => Some(Code::ShiftLeft),
            61 => Some(Code::ShiftRight),
            62 => Some(Code::Space),
            63 => Some(Code::Tab),
            64 => Some(Code::Convert),
            65 => Some(Code::KanaMode),
            66 => Some(Code::Lang1),
            67 => Some(Code::Lang2),
            68 => Some(Code::Lang3),
            69 => Some(Code::Lang4),
            70 => Some(Code::Lang5),
            71 => Some(Code::NonConvert),
            72 => Some(Code::Delete),
            73 => Some(Code::End),
            74 => Some(Code::Help),
            75 => Some(Code::Home),
            76 => Some(Code::Insert),
            77 => Some(Code::PageDown),
            78 => Some(Code::PageUp),
            79 => Some(Code::ArrowDown),
            80 => Some(Code::ArrowLeft),
            81 => Some(Code::ArrowRight),
            82 => Some(Code::ArrowUp),
            83 => Some(Code::NumLock),
            84 => Some(Code::Numpad0),
            85 => Some(Code::Numpad1),
            86 => Some(Code::Numpad2),
            87 => Some(Code::Numpad3),
            88 => Some(Code::Numpad4),
            89 => Some(Code::Numpad5),
            90 => Some(Code::Numpad6),
            91 => Some(Code::Numpad7),
            92 => Some(Code::Numpad8),
            93 => Some(Code::Numpad9),
            94 => Some(Code::NumpadAdd),
            95 => Some(Code::NumpadBackspace),
            96 => Some(Code::NumpadClear),
            97 => Some(Code::NumpadClearEntry),
            98 => Some(Code::NumpadComma),
            99 => Some(Code::NumpadDecimal),
            100 => Some(Code::NumpadDivide),
            101 => Some(Code::NumpadEnter),
            102 => Some(Code::NumpadEqual),
            103 => Some(Code::NumpadHash),
            104 => Some(Code::NumpadMemoryAdd),
            105 => Some(Code::NumpadMemoryClear),
            106 => Some(Code::NumpadMemoryRecall),
            107 => Some(Code::NumpadMemoryStore),
            108 => Some(Code::NumpadMemorySubtract),
            109 => Some(Code::NumpadMultiply),
            110 => Some(Code::NumpadParenLeft),
            111 => Some(Code::NumpadParenRight),
            112 => Some(Code::NumpadStar),
            113 => Some(Code::NumpadSubtract),
            114 => Some(Code::Escape),
            115 => Some(Code::Fn),
            116 => Some(Code::FnLock),
            117 => Some(Code::PrintScreen),
            118 => Some(Code::ScrollLock),
            119 => Some(Code::Pause),
            120 => Some(Code::BrowserBack),
            121 => Some(Code::BrowserFavorites),
            122 => Some(Code::BrowserForward),
            123 => Some(Code::BrowserHome),
            124 => Some(Code::BrowserRefresh),
            125 => Some(Code::BrowserSearch),
            126 => Some(Code::BrowserStop),
            127 => Some(Code::Eject),
            128 => Some(Code::LaunchApp1),
            129 => Some(Code::LaunchApp2),
            130 => Some(Code::LaunchMail),
            131 => Some(Code::MediaPlayPause),
            132 => Some(Code::MediaSelect),
            133 => Some(Code::MediaStop),
            134 => Some(Code::MediaTrackNext),
            135 => Some(Code::MediaTrackPrevious),
            136 => Some(Code::Power),
            137 => Some(Code::Sleep),
            138 => Some(Code::AudioVolumeDown),
            139 => Some(Code::AudioVolumeMute),
            140 => Some(Code::AudioVolumeUp),
            141 => Some(Code::WakeUp),
            142 => Some(Code::Hyper),
            143 => Some(Code::Super),
            144 => Some(Code::Turbo),
            145 => Some(Code::Abort),
            146 => Some(Code::Resume),
            147 => Some(Code::Suspend),
            148 => Some(Code::Again),
            149 => Some(Code::Copy),
            150 => Some(Code::Cut),
            151 => Some(Code::Find),
            152 => Some(Code::Open),
            153 => Some(Code::Paste),
            154 => Some(Code::Props),
            155 => Some(Code::Select),
            156 => Some(Code::Undo),
            157 => Some(Code::Hiragana),
            158 => Some(Code::Katakana),
            159 => Some(Code::Unidentified),
            160 => Some(Code::F1),
            161 => Some(Code::F2),
            162 => Some(Code::F3),
            163 => Some(Code::F4),
            164 => Some(Code::F5),
            165 => Some(Code::F6),
            166 => Some(Code::F7),
            167 => Some(Code::F8),
            168 => Some(Code::F9),
            169 => Some(Code::F10),
            170 => Some(Code::F11),
            171 => Some(Code::F12),
            172 => Some(Code::F13),
            173 => Some(Code::F14),
            174 => Some(Code::F15),
            175 => Some(Code::F16),
            176 => Some(Code::F17),
            177 => Some(Code::F18),
            178 => Some(Code::F19),
            179 => Some(Code::F20),
            180 => Some(Code::F21),
            181 => Some(Code::F22),
            182 => Some(Code::F23),
            183 => Some(Code::F24),
            184 => Some(Code::F25),
            185 => Some(Code::F26),
            186 => Some(Code::F27),
            187 => Some(Code::F28),
            188 => Some(Code::F29),
            189 => Some(Code::F30),
            190 => Some(Code::F31),
            191 => Some(Code::F32),
            192 => Some(Code::F33),
            193 => Some(Code::F34),
            194 => Some(Code::F35),
            195 => Some(Code::BrightnessDown),
            196 => Some(Code::BrightnessUp),
            197 => Some(Code::DisplayToggleIntExt),
            198 => Some(Code::KeyboardLayoutSelect),
            199 => Some(Code::LaunchAssistant),
            200 => Some(Code::LaunchControlPanel),
            201 => Some(Code::LaunchScreenSaver),
            202 => Some(Code::MailForward),
            203 => Some(Code::MailReply),
            204 => Some(Code::MailSend),
            205 => Some(Code::MediaFastForward),
            206 => Some(Code::MediaPause),
            207 => Some(Code::MediaPlay),
            208 => Some(Code::MediaRecord),
            209 => Some(Code::MediaRewind),
            210 => Some(Code::MicrophoneMuteToggle),
            211 => Some(Code::PrivacyScreenToggle),
            212 => Some(Code::SelectTask),
            213 => Some(Code::ShowAllWindows),
            214 => Some(Code::ZoomToggle),
            _ => None,
        }
    }

    /// The key's name, as the W3C UI Events specification writes it.
    pub open spec fn spec_name(self) -> Seq<char> {
        match self {
            Code::Backquote => "Backquote"@,
            Code::Backslash => "Backslash"@,
            Code::BracketLeft => "BracketLeft"@,
            Code::BracketRight => "BracketRight"@,
            Code::Comma => "Comma"@,
            Code::Digit0 => "Digit0"@,
            Code::Digit1 => "Digit1"@,
            Code::Digit2 => "Digit2"@,
            Code::Digit3 => "Digit3"@,
            Code::Digit4 => "Digit4"@,
            Code::Digit5 => "Digit5"@,
            Code::Digit6 => "Digit6"@,
            Code::Digit7 => "Digit7"@,
            Code::Digit8 => "Digit8"@,
            Code::Digit9 => "Digit9"@,
            Code::Equal => "Equal"@,
            Code::IntlBackslash => "IntlBackslash"@,
            Code::IntlRo => "IntlRo"@,
            Code::IntlYen => "IntlYen"@,
            Code::KeyA => "KeyA"@,
            Code::KeyB => "KeyB"@,
            Code::KeyC => "KeyC"@,
            Code::KeyD => "KeyD"@,
            Code::KeyE => "KeyE"@,
            Code::KeyF => "KeyF"@,
            Code::KeyG => "KeyG"@,
            Code::KeyH => "KeyH"@,
            Code::KeyI => "KeyI"@,
            Code::KeyJ => "KeyJ"@,
            Code::KeyK => "KeyK"@,
            Code::KeyL => "KeyL"@,
            Code::KeyM => "KeyM"@,
            Code::KeyN => "KeyN"@,
            Code::KeyO => "KeyO"@,
            Code::KeyP => "KeyP"@,
            Code::KeyQ => "KeyQ"@,
            Code::KeyR => "KeyR"@,
            Code::KeyS => "KeyS"@,
            Code::KeyT => "KeyT"@,
            Code::KeyU => "KeyU"@,
            Code::KeyV => "KeyV"@,
            Code::KeyW => "KeyW"@,
            Code::KeyX => "KeyX"@,
            Code::KeyY => "KeyY"@,
            Code::KeyZ => "KeyZ"@,
            Code::Minus => "Minus"@,
            Code::Period => "Period"@,
            Code::Quote => "Quote"@,
            Code::Semicolon => "Semicolon"@,
            Code::Slash => "Slash"@,
            Code::AltLeft => "AltLeft"@,
            Code::AltRight => "AltRight"@,
            Code::Backspace => "Backspace"@,
            Code::CapsLock => "CapsLock"@,
            Code::ContextMenu => "ContextMenu"@,
            Code::ControlLeft => "ControlLeft"@,
            Code::ControlRight => "ControlRight"@,
            Code::Enter => "Enter"@,
            Code::MetaLeft => "MetaLeft"@,
            Code::MetaRight => "MetaRight"@,
            Code::ShiftLeft => "ShiftLeft"@,
            Code::ShiftRight => "ShiftRight"@,
            Code::Space => "Space"@,
            Code::Tab => "Tab"@,
            Code::Convert => "Convert"@,
            Code::KanaMode => "KanaMode"@,
            Code::Lang1 => "Lang1"@,
            Code::Lang2 => "Lang2"@,
            Code::Lang3 => "Lang3"@,
            Code::Lang4 => "Lang4"@,
            Code::Lang5 => "Lang5"@,
            Code::NonConvert => "NonConvert"@,
            Code::Delete => "Delete"@,
            Code::End => "End"@,
            Code::Help => "Help"@,
            Code::Home => "Home"@,
            Code::Insert => "Insert"@,
            Code::PageDown => "PageDown"@,
            Code::PageUp => "PageUp"@,
            Code::ArrowDown => "ArrowDown"@,
            Code::ArrowLeft => "ArrowLeft"@,
            Code::ArrowRight => "ArrowRight"@,
            Code::ArrowUp => "ArrowUp"@,
            Code::NumLock => "NumLock"@,
            Code::Numpad0 => "Numpad0"@,
            Code::Numpad1 => "Numpad1"@,
            Code::Numpad2 => "Numpad2"@,
            Code::Numpad3 => "Numpad3"@,
            Code::Numpad4 => "Numpad4"@,
            Code::Numpad5 => "Numpad5"@,
            Code::Numpad6 => "Numpad6"@,
            Code::Numpad7 => "Numpad7"@,
            Code::Numpad8 => "Numpad8"@,
            Code::Numpad9 => "Numpad9"@,
            Code::NumpadAdd => "NumpadAdd"@,
            Code::NumpadBackspace => "NumpadBackspace"@,
            Code::NumpadClear => "NumpadClear"@,
            Code::NumpadClearEntry => "NumpadClearEntry"@,
            Code::NumpadComma => "NumpadComma"@,
            Code::NumpadDecimal => "NumpadDecimal"@,
            Code::NumpadDivide => "NumpadDivide"@,
            Code::NumpadEnter => "NumpadEnter"@,
            Code::NumpadEqual => "NumpadEqual"@,
            Code::NumpadHash => "NumpadHash"@,
            Code::NumpadMemoryAdd => "NumpadMemoryAdd"@,
            Code::NumpadMemoryClear => "NumpadMemoryClear"@,
            Code::NumpadMemoryRecall => "NumpadMemoryRecall"@,
            Code::NumpadMemoryStore => "NumpadMemoryStore"@,
            Code::NumpadMemorySubtract => "NumpadMemorySubtract"@,
            Code::NumpadMultiply => "NumpadMultiply"@,
            Code::NumpadParenLeft => "NumpadParenLeft"@,
            Code::NumpadParenRight => "NumpadParenRight"@,
            Code::NumpadStar => "NumpadStar"@,
            Code::NumpadSubtract => "NumpadSubtract"@,
            Code::Escape => "Escape"@,
            Code::Fn => "Fn"@,
            Code::FnLock => "FnLock"@,
            Code::PrintScreen => "PrintScreen"@,
            Code::ScrollLock => "ScrollLock"@,
            Code::Pause => "Pause"@,
            Code::BrowserBack => "BrowserBack"@,
            Code::BrowserFavorites => "BrowserFavorites"@,
            Code::BrowserForward => "BrowserForward"@,
            Code::BrowserHome => "BrowserHome"@,
            Code::BrowserRefresh => "BrowserRefresh"@,
            Code::BrowserSearch => "BrowserSearch"@,
            Code::BrowserStop => "BrowserStop"@,
            Code::Eject => "Eject"@,
            Code::LaunchApp1 => "LaunchApp1"@,
            Code::LaunchApp2 => "LaunchApp2"@,
            Code::LaunchMail => "LaunchMail"@,
            Code::MediaPlayPause => "MediaPlayPause"@,
            Code::MediaSelect => "MediaSelect"@,
            Code::MediaStop => "MediaStop"@,
            Code::MediaTrackNext => "MediaTrackNext"@,
            Code::MediaTrackPrevious => "MediaTrackPrevious"@,
            Code::Power => "Power"@,
            Code::Sleep => "Sleep"@,
            Code::AudioVolumeDown => "AudioVolumeDown"@,
            Code::AudioVolumeMute => "AudioVolumeMute"@,
            Code::AudioVolumeUp => "AudioVolumeUp"@,
            Code::WakeUp => "WakeUp"@,
            Code::Hyper => "Hyper"@,
            Code::Super => "Super"@,
            Code::Turbo => "Turbo"@,
            Code::Abort => "Abort"@,
            Code::Resume => "Resume"@,
            Code::Suspend => "Suspend"@,
            Code::Again => "Again"@,
            Code::Copy => "Copy"@,
            Code::Cut => "Cut"@,
            Code::Find => "Find"@,
            Code::Open => "Open"@,
            Code::Paste => "Paste"@,
            Code::Props => "Props"@,
            Code::Select => "Select"@,
            Code::Undo => "Undo"@,
            Code::Hiragana => "Hiragana"@,
            Code::Katakana => "Katakana"@,
            Code::Unidentified => "Unidentified"@,
            Code::F1 => "F1"@,
            Code::F2 => "F2"@,
            Code::F3 => "F3"@,
            Code::F4 => "F4"@,
            Code::F5 => "F5"@,
            Code::F6 => "F6"@,
            Code::F7 => "F7"@,
            Code::F8 => "F8"@,
            Code::F9 => "F9"@,
            Code::F10 => "F10"@,
            Code::F11 => "F11"@,
            Code::F12 => "F12"@,
            Code::F13 => "F13"@,
            Code::F14 => "F14"@,
            Code::F15 => "F15"@,
            Code::F16 => "F16"@,
            Code::F17 => "F17"@,
            Code::F18 => "F18"@,
            Code::F19 => "F19"@,
            Code::F20 => "F20"@,
            Code::F21 => "F21"@,
            Code::F22 => "F22"@,
            Code::F23 => "F23"@,
            Code::F24 => "F24"@,
            Code::F25 => "F25"@,
            Code::F26 => "F26"@,
            Code::F27 => "F27"@,
            Code::F28 => "F28"@,
            Code::F29 => "F29"@,
            Code::F30 => "F30"@,
            Code::F31 => "F31"@,
            Code::F32 => "F32"@,
            Code::F33 => "F33"@,
            Code::F34 => "F34"@,
            Code::F35 => "F35"@,
            Code::BrightnessDown => "BrightnessDown"@,
            Code::BrightnessUp => "BrightnessUp"@,
            Code::DisplayToggleIntExt => "DisplayToggleIntExt"@,
            Code::KeyboardLayoutSelect => "KeyboardLayoutSelect"@,
            Code::LaunchAssistant => "LaunchAssistant"@,
            Code::LaunchControlPanel => "LaunchControlPanel"@,
            Code::LaunchScreenSaver => "LaunchScreenSaver"@,
            Code::MailForward => "MailForward"@,
            Code::MailReply => "MailReply"@,
            Code::MailSend => "MailSend"@,
            Code::MediaFastForward => "MediaFastForward"@,
            Code::MediaPause => "MediaPause"@,
            Code::MediaPlay => "MediaPlay"@,
            Code::MediaRecord => "MediaRecord"@,
            Code::MediaRewind => "MediaRewind"@,
            Code::MicrophoneMuteToggle => "MicrophoneMuteToggle"@,
            Code::PrivacyScreenToggle => "PrivacyScreenToggle"@,
            Code::SelectTask => "SelectTask"@,
            Code::ShowAllWindows => "ShowAllWindows"@,
            Code::ZoomToggle => "ZoomToggle"@,
        }
    }

    /// The key's number: its place in the list of keys, counting from zero.
    pub fn index(&self) -> (r: u16)
        ensures
            r == self.spec_index(),
            r < CODE_COUNT,
    {
        match self {
            Code::Backquote => 0,
            Code::Backslash => 1,
            Code::BracketLeft => 2,
            Code::BracketRight => 3,
            Code::Comma => 4,
            Code::Digit0 => 5,
            Code::Digit1 => 6,
            Code::Digit2 => 7,
            Code::Digit3 => 8,
            Code::Digit4 => 9,
            Code::Digit5 => 10,
            Code::Digit6 => 11,
            Code::Digit7 => 12,
            Code::Digit8 => 13,
            Code::Digit9 => 14,
            Code::Equal => 15,
            Code::IntlBackslash => 16,
            Code::IntlRo => 17,
            Code::IntlYen => 18,
            Code::KeyA => 19,
            Code::KeyB => 20,
            Code::KeyC => 21,
            Code::KeyD => 22,
            Code::KeyE => 23,
            Code::KeyF => 24,
            Code::KeyG => 25,
            Code::KeyH => 26,
            Code::KeyI => 27,
            Code::KeyJ => 28,
            Code::KeyK => 29,
            Code::KeyL => 30,
            Code::KeyM => 31,
            Code::KeyN => 32,
            Code::KeyO => 33,
            Code::KeyP => 34,
            Code::KeyQ => 35,
            Code::KeyR => 36,
            Code::KeyS => 37,
            Code::KeyT => 38,
            Code::KeyU => 39,
            Code::KeyV => 40,
            Code::KeyW => 41,
            Code::KeyX => 42,
            Code::KeyY => 43,
            Code::KeyZ => 44,
            Code::Minus => 45,
            Code::Period => 46,
            Code::Quote => 47,
            Code::Semicolon => 48,
            Code::Slash => 49,
            Code::AltLeft => 50,
            Code::AltRight => 51,
            Code::Backspace => 52,
            Code::CapsLock => 53,
            Code::ContextMenu => 54,
            Code::ControlLeft => 55,
            Code::ControlRight => 56,
            Code::Enter => 57,
            Code::MetaLeft => 58,
            Code::MetaRight => 59,
            Code::ShiftLeft => 60,
            Code::ShiftRight => 61,
            Code::Space => 62,
            Code::Tab => 63,
            Code::Convert => 64,
            Code::KanaMode => 65,
            Code::Lang1 => 66,
            Code::Lang2 => 67,
            Code::Lang3 => 68,
            Code::Lang4 => 69,
            Code::Lang5 => 70,
            Code::NonConvert => 71,
            Code::Delete => 72,
            Code::End => 73,
            Code::Help => 74,
            Code::Home => 75,
            Code::Insert => 76,
            Code::PageDown => 77,
            Code::PageUp => 78,
            Code::ArrowDown => 79,
            Code::ArrowLeft => 80,
            Code::ArrowRight => 81,
            Code::ArrowUp => 82,
            Code::NumLock => 83,
            Code::Numpad0 => 84,
            Code::Numpad1 => 85,
            Code::Numpad2 => 86,
            Code::Numpad3 => 87,
            Code::Numpad4 => 88,
            Code::Numpad5 => 89,
            Code::Numpad6 => 90,
            Code::Numpad7 => 91,
            Code::Numpad8 => 92,
            Code::Numpad9 => 93,
            Code::NumpadAdd => 94,
            Code::NumpadBackspace => 95,
            Code::NumpadClear => 96,
            Code::NumpadClearEntry => 97,
            Code::NumpadComma => 98,
            Code::NumpadDecimal => 99,
            Code::NumpadDivide => 100,
            Code::NumpadEnter => 101,
            Code::NumpadEqual => 102,
            Code::NumpadHash => 103,
            Code::NumpadMemoryAdd => 104,
            Code::NumpadMemoryClear => 105,
            Code::NumpadMemoryRecall => 106,
            Code::NumpadMemoryStore => 107,
            Code::NumpadMemorySubtract => 108,
            Code::NumpadMultiply => 109,
            Code::NumpadParenLeft => 110,
            Code::NumpadParenRight => 111,
            Code::NumpadStar => 112,
            Code::NumpadSubtract => 113,
            Code::Escape => 114,
            Code::Fn => 115,
            Code::FnLock => 116,
            Code::PrintScreen => 117,
            Code::ScrollLock => 118,
            Code::Pause => 119,
            Code::BrowserBack => 120,
            Code::BrowserFavorites => 121,
            Code::BrowserForward => 122,
            Code::BrowserHome => 123,
            Code::BrowserRefresh => 124,
            Code::BrowserSearch => 125,
            Code::BrowserStop => 126,
            Code::Eject => 127,
            Code::LaunchApp1 => 128,
            Code::LaunchApp2 => 129,
            Code::LaunchMail => 130,
            Code::MediaPlayPause => 131,
            Code::MediaSelect => 132,
            Code::MediaStop => 133,
            Code::MediaTrackNext => 134,
            Code::MediaTrackPrevious => 135,
            Code::Power => 136,
            Code::Sleep => 137,
            Code::AudioVolumeDown => 138,
            Code::AudioVolumeMute => 139,
            Code::AudioVolumeUp => 140,
            Code::WakeUp => 141,
            Code::Hyper => 142,
            Code::Super => 143,
            Code::Turbo => 144,
            Code::Abort => 145,
            Code::Resume => 146,
            Code::Suspend => 147,
            Code::Again => 148,
            Code::Copy => 149,
            Code::Cut => 150,
            Code::Find => 151,
            Code::Open => 152,
            Code::Paste => 153,
            Code::Props => 154,
            Code::Select => 155,
            Code::Undo => 156,
            Code::Hiragana => 157,
            Code::Katakana => 158,
            Code::Unidentified => 159,
            Code::F1 => 160,
            Code::F2 => 161,
            Code::F3 => 162,
            Code::F4 => 163,
            Code::F5 => 164,
            Code::F6 => 165,
            Code::F7 => 166,
            Code::F8 => 167,
            Code::F9 => 168,
            Code::F10 => 169,
            Code::F11 => 170,
            Code::F12 => 171,
            Code::F13 => 172,
            Code::F14 => 173,
            Code::F15 => 174,
            Code::F16 => 175,
            Code::F17 => 176,
            Code::F18 => 177,
            Code::F19 => 178,
            Code::F20 => 179,
            Code::F21 => 180,
            Code::F22 => 181,
            Code::F23 => 182,
            Code::F24 => 183,
            Code::F25 => 184,
            Code::F26 => 185,
            Code::F27 => 186,
            Code::F28 => 187,
            Code::F29 => 188,
            Code::F30 => 189,
            Code::F31 => 190,
            Code::F32 => 191,
            Code::F33 => 192,
            Code::F34 => 193,
            Code::F35 => 194,
            Code::BrightnessDown => 195,
            Code::BrightnessUp => 196,
            Code::DisplayToggleIntExt => 197,
            Code::KeyboardLayoutSelect => 198,
            Code::LaunchAssistant => 199,
            Code::LaunchControlPanel => 200,
            Code::LaunchScreenSaver => 201,
            Code::MailForward => 202,
            Code::MailReply => 203,
            Code::MailSend => 204,
            Code::MediaFastForward => 205,
            Code::MediaPause => 206,
            Code::MediaPlay => 207,
            Code::MediaRecord => 208,
            Code::MediaRewind => 209,
            Code::MicrophoneMuteToggle => 210,
            Code::PrivacyScreenToggle => 211,
            Code::SelectTask => 212,
            Code::ShowAllWindows => 213,
            Code::ZoomToggle => 214,
        }
    }

    /// The key with number `i`, or `None` where `i` is not below `CODE_COUNT`.
    pub fn from_index(i: u16) -> (r: Option<Code>)
        ensures
            r == Code::spec_from_index(i),
            r is Some <==> i < CODE_COUNT,
    {
        match i {
            0 => Some(Code::Backquote),
            1 => Some(Code::Backslash),
            2 => Some(Code::BracketLeft),
            3 => Some(Code::BracketRight),
            4 => Some(Code::Comma),
            5 => Some(Code::Digit0),
            6 => Some(Code::Digit1),
            7 => Some(Code::Digit2),
            8 => Some(Code::Digit3),
            9 => Some(Code::Digit4),
            10 => Some(Code::Digit5),
            11 => Some(Code::Digit6),
            12 => Some(Code::Digit7),
            13 => Some(Code::Digit8),
            14 => Some(Code::Digit9),
            15 => Some(Code::Equal),
            16 => Some(Code::IntlBackslash),
            17 => Some(Code::IntlRo),
            18 => Some(Code::IntlYen),
            19 => Some(Code::KeyA),
            20 => Some(Code::KeyB),
            21 => Some(Code::KeyC),
            22 => Some(Code::KeyD),
            23 => Some(Code::KeyE),
            24 => Some(Code::KeyF),
            25 => Some(Code::KeyG),
            26 => Some(Code::KeyH),
            27 => Some(Code::KeyI),
            28 => Some(Code::KeyJ),
            29 => Some(Code::KeyK),
            30 => Some(Code::KeyL),
            31 => Some(Code::KeyM),
            32 => Some(Code::KeyN),
            33 => Some(Code::KeyO),
            34 => Some(Code::KeyP),
            35 => Some(Code::KeyQ),
            36 => Some(Code::KeyR),
            37 => Some(Code::KeyS),
            38 => Some(Code::KeyT),
            39 => Some(Code::KeyU),
            40 => Some(Code::KeyV),
            41 => Some(Code::KeyW),
            42 => Some(Code::KeyX),
            43 => Some(Code::KeyY),
            44 => Some(Code::KeyZ),
            45 => Some(Code::Minus),
            46 => Some(Code::Period),
            47 => Some(Code::Quote),
            48 => Some(Code::Semicolon),
            49 => Some(Code::Slash),
            50 => Some(Code::AltLeft),
            51 => Some(Code::AltRight),
            52 => Some(Code::Backspace),
            53 => Some(Code::CapsLock),
            54 => Some(Code::ContextMenu),
            55 => Some(Code::ControlLeft),
            56 => Some(Code::ControlRight),
            57 => Some(Code::Enter),
            58 => Some(Code::MetaLeft),
            59 => Some(Code::MetaRight),
            60 => Some(Code::ShiftLeft),
            61 => Some(Code::ShiftRight),
            62 => Some(Code::Space),
            63 => Some(Code::Tab),
            64 => Some(Code::Convert),
            65 => Some(Code::KanaMode),
            66 => Some(Code::Lang1),
            67 => Some(Code::Lang2),
            68 => Some(Code::Lang3),
            69 => Some(Code::Lang4),
            70 => Some(Code::Lang5),
            71 => Some(Code::NonConvert),
            72 => Some(Code::Delete),
            73 => Some(Code::End),
            74 => Some(Code::Help),
            75 => Some(Code::Home),
            76 => Some(Code::Insert),
            77 => Some(Code::PageDown),
            78 => Some(Code::PageUp),
            79 => Some(Code::ArrowDown),
            80 => Some(Code::ArrowLeft),
            81 => Some(Code::ArrowRight),
            82 => Some(Code::ArrowUp),
            83 => Some(Code::NumLock),
            84 => Some(Code::Numpad0),
            85 => Some(Code::Numpad1),
            86 => Some(Code::Numpad2),
            87 => Some(Code::Numpad3),
            88 => Some(Code::Numpad4),
            89 => Some(Code::Numpad5),
            90 => Some(Code::Numpad6),
            91 => Some(Code::Numpad7),
            92 => Some(Code::Numpad8),
            93 => Some(Code::Numpad9),
            94 => Some(Code::NumpadAdd),
            95 => Some(Code::NumpadBackspace),
            96 => Some(Code::NumpadClear),
            97 => Some(Code::NumpadClearEntry),
            98 => Some(Code::NumpadComma),
            99 => Some(Code::NumpadDecimal),
            100 => Some(Code::NumpadDivide),
            101 => Some(Code::NumpadEnter),
            102 => Some(Code::NumpadEqual),
            103 => Some(Code::NumpadHash),
            104 => Some(Code::NumpadMemoryAdd),
            105 => Some(Code::NumpadMemoryClear),
            106 => Some(Code::NumpadMemoryRecall),
            107 => Some(Code::NumpadMemoryStore),
            108 => Some(Code::NumpadMemorySubtract),
            109 => Some(Code::NumpadMultiply),
            110 => Some(Code::NumpadParenLeft),
            111 => Some(Code::NumpadParenRight),
            112 => Some(Code::NumpadStar),
            113 => Some(Code::NumpadSubtract),
            114 => Some(Code::Escape),
            115 => Some(Code::Fn),
            116 => Some(Code::FnLock),
            117 => Some(Code::PrintScreen),
            118 => Some(Code::ScrollLock),
            119 => Some(Code::Pause),
            120 => Some(Code::BrowserBack),
            121 => Some(Code::BrowserFavorites),
            122 => Some(Code::BrowserForward),
            123 => Some(Code::BrowserHome),
            124 => Some(Code::BrowserRefresh),
            125 => Some(Code::BrowserSearch),
            126 => Some(Code::BrowserStop),
            127 => Some(Code::Eject),
            128 => Some(Code::LaunchApp1),
            129 => Some(Code::LaunchApp2),
            130 => Some(Code::LaunchMail),
            131 => Some(Code::MediaPlayPause),
            132 => Some(Code::MediaSelect),
            133 => Some(Code::MediaStop),
            134 => Some(Code::MediaTrackNext),
            135 => Some(Code::MediaTrackPrevious),
            136 => Some(Code::Power),
            137 => Some(Code::Sleep),
            138 => Some(Code::AudioVolumeDown),
            139 => Some(Code::AudioVolumeMute),
            140 => Some(Code::AudioVolumeUp),
            141 => Some(Code::WakeUp),
            142 => Some(Code::Hyper),
            143 => Some(Code::Super),
            144 => Some(Code::Turbo),
            145 => Some(Code::Abort),
            146 => Some(Code::Resume),
            147 => Some(Code::Suspend),
            148 => Some(Code::Again),
            149 => Some(Code::Copy),
            150 => Some(Code::Cut),
            151 => Some(Code::Find),
            152 => Some(Code::Open),
            153 => Some(Code::Paste),
            154 => Some(Code::Props),
            155 => Some(Code::Select),
            156 => Some(Code::Undo),
            157 => Some(Code::Hiragana),
            158 => Some(Code::Katakana),
            159 => Some(Code::Unidentified),
            160 => Some(Code::F1),
            161 => Some(Code::F2),
            162 => Some(Code::F3),
            163 => Some(Code::F4),
            164 => Some(Code::F5),
            165 => Some(Code::F6),
            166 => Some(Code::F7),
            167 => Some(Code::F8),
            168 => Some(Code::F9),
            169 => Some(Code::F10),
            170 => Some(Code::F11),
            171 => Some(Code::F12),
            172 => Some(Code::F13),
            173 => Some(Code::F14),
            174 => Some(Code::F15),
            175 => Some(Code::F16),
            176 => Some(Code::F17),
            177 => Some(Code::F18),
            178 => Some(Code::F19),
            179 => Some(Code::F20),
            180 => Some(Code::F21),
            181 => Some(Code::F22),
            182 => Some(Code::F23),
            183 => Some(Code::F24),
            184 => Some(Code::F25),
            185 => Some(Code::F26),
            186 => Some(Code::F27),
            187 => Some(Code::F28),
            188 => Some(Code::F29),
            189 => Some(Code::F30),
            190 => Some(Code::F31),
            191 => Some(Code::F32),
            192 => Some(Code::F33),
            193 => Some(Code::F34),
            194 => Some(Code::F35),
            195 => Some(Code::BrightnessDown),
            196 => Some(Code::BrightnessUp),
            197 => Some(Code::DisplayToggleIntExt),
            198 => Some(Code::KeyboardLayoutSelect),
            199 => Some(Code::LaunchAssistant),
            200 => Some(Code::LaunchControlPanel),
            201 => Some(Code::LaunchScreenSaver),
            202 => Some(Code::MailForward),
            203 => Some(Code::MailReply),
            204 => Some(Code::MailSend),
            205 => Some(Code::MediaFastForward),
            206 => Some(Code::MediaPause),
            207 => Some(Code::MediaPlay),
            208 => Some(Code::MediaRecord),
            209 => Some(Code::MediaRewind),
            210 => Some(Code::MicrophoneMuteToggle),
            211 => Some(Code::PrivacyScreenToggle),
            212 => Some(Code::SelectTask),
            213 => Some(Code::ShowAllWindows),
            214 => Some(Code::ZoomToggle),
            _ => None,
        }
    }

    /// The key's name, as the W3C UI Events specification writes it (`"KeyA"`, `"ShiftLeft"`, ...).
    pub fn name(&self) -> (r: &'static str)
        ensures
            r@ == self.spec_name(),
    {
        match self {
            Code::Backquote => "Backquote",
            Code::Backslash => "Backslash",
            Code::BracketLeft => "BracketLeft",
            Code::BracketRight => "BracketRight",
            Code::Comma => "Comma",
            Code::Digit0 => "Digit0",
            Code::Digit1 => "Digit1",
            Code::Digit2 => "Digit2",
            Code::Digit3 => "Digit3",
            Code::Digit4 => "Digit4",
            Code::Digit5 => "Digit5",
            Code::Digit6 => "Digit6",
            Code::Digit7 => "Digit7",
            Code::Digit8 => "Digit8",
            Code::Digit9 => "Digit9",
            Code::Equal => "Equal",
            Code::IntlBackslash => "IntlBackslash",
            Code::IntlRo => "IntlRo",
            Code::IntlYen => "IntlYen",
            Code::KeyA => "KeyA",
            Code::KeyB => "KeyB",
            Code::KeyC => "KeyC",
            Code::KeyD => "KeyD",
            Code::KeyE => "KeyE",
            Code::KeyF => "KeyF",
            Code::KeyG => "KeyG",
            Code::KeyH => "KeyH",
            Code::KeyI => "KeyI",
            Code::KeyJ => "KeyJ",
            Code::KeyK => "KeyK",
            Code::KeyL => "KeyL",
            Code::KeyM => "KeyM",
            Code::KeyN => "KeyN",
            Code::KeyO => "KeyO",
            Code::KeyP => "KeyP",
            Code::KeyQ => "KeyQ",
            Code::KeyR => "KeyR",
            Code::KeyS => "KeyS",
            Code::KeyT => "KeyT",
            Code::KeyU => "KeyU",
            Code::KeyV => "KeyV",
            Code::KeyW => "KeyW",
            Code::KeyX => "KeyX",
            Code::KeyY => "KeyY",
            Code::KeyZ => "KeyZ",
            Code::Minus => "Minus",
            Code::Period => "Period",
            Code::Quote => "Quote",
            Code::Semicolon => "Semicolon",
            Code::Slash => "Slash",
            Code::AltLeft => "AltLeft",
            Code::AltRight => "AltRight",
            Code::Backspace => "Backspace",
            Code::CapsLock => "CapsLock",
            Code::ContextMenu => "ContextMenu",
            Code::ControlLeft => "ControlLeft",
            Code::ControlRight => "ControlRight",
            Code::Enter => "Enter",
            Code::MetaLeft => "MetaLeft",
            Code::MetaRight => "MetaRight",
            Code::ShiftLeft => "ShiftLeft",
            Code::ShiftRight => "ShiftRight",
            Code::Space => "Space",
            Code::Tab => "Tab",
            Code::Convert => "Convert",
            Code::KanaMode => "KanaMode",
            Code::Lang1 => "Lang1",
            Code::Lang2 => "Lang2",
            Code::Lang3 => "Lang3",
            Code::Lang4 => "Lang4",
            Code::Lang5 => "Lang5",
            Code::NonConvert => "NonConvert",
            Code::Delete => "Delete",
            Code::End => "End",
            Code::Help => "Help",
            Code::Home => "Home",
            Code::Insert => "Insert",
            Code::PageDown => "PageDown",
            Code::PageUp => "PageUp",
            Code::ArrowDown => "ArrowDown",
            Code::ArrowLeft => "ArrowLeft",
            Code::ArrowRight => "ArrowRight",
            Code::ArrowUp => "ArrowUp",
            Code::NumLock => "NumLock",
            Code::Numpad0 => "Numpad0",
            Code::Numpad1 => "Numpad1",
            Code::Numpad2 => "Numpad2",
            Code::Numpad3 => "Numpad3",
            Code::Numpad4 => "Numpad4",
            Code::Numpad5 => "Numpad5",
            Code::Numpad6 => "Numpad6",
            Code::Numpad7 => "Numpad7",
            Code::Numpad8 => "Numpad8",
            Code::Numpad9 => "Numpad9",
            Code::NumpadAdd => "NumpadAdd",
            Code::NumpadBackspace => "NumpadBackspace",
            Code::NumpadClear => "NumpadClear",
            Code::NumpadClearEntry => "NumpadClearEntry",
            Code::NumpadComma => "NumpadComma",
            Code::NumpadDecimal => "NumpadDecimal",
            Code::NumpadDivide => "NumpadDivide",
            Code::NumpadEnter => "NumpadEnter",
            Code::NumpadEqual => "NumpadEqual",
            Code::NumpadHash => "NumpadHash",
            Code::NumpadMemoryAdd => "NumpadMemoryAdd",
            Code::NumpadMemoryClear => "NumpadMemoryClear",
            Code::NumpadMemoryRecall => "NumpadMemoryRecall",
            Code::NumpadMemoryStore => "NumpadMemoryStore",
            Code::NumpadMemorySubtract => "NumpadMemorySubtract",
            Code::NumpadMultiply => "NumpadMultiply",
            Code::NumpadParenLeft => "NumpadParenLeft",
            Code::NumpadParenRight => "NumpadParenRight",
            Code::NumpadStar => "NumpadStar",
            Code::NumpadSubtract => "NumpadSubtract",
            Code::Escape => "Escape",
            Code::Fn => "Fn",
            Code::FnLock => "FnLock",
            Code::PrintScreen => "PrintScreen",
            Code::ScrollLock => "ScrollLock",
            Code::Pause => "Pause",
            Code::BrowserBack => "BrowserBack",
            Code::BrowserFavorites => "BrowserFavorites",
            Code::BrowserForward => "BrowserForward",
            Code::BrowserHome => "BrowserHome",
            Code::BrowserRefresh => "BrowserRefresh",
            Code::BrowserSearch => "BrowserSearch",
            Code::BrowserStop => "BrowserStop",
            Code::Eject => "Eject",
            Code::LaunchApp1 => "LaunchApp1",
            Code::LaunchApp2 => "LaunchApp2",
            Code::LaunchMail => "LaunchMail",
            Code::MediaPlayPause => "MediaPlayPause",
            Code::MediaSelect => "MediaSelect",
            Code::MediaStop => "MediaStop",
            Code::MediaTrackNext => "MediaTrackNext",
            Code::MediaTrackPrevious => "MediaTrackPrevious",
            Code::Power => "Power",
            Code::Sleep => "Sleep",
            Code::AudioVolumeDown => "AudioVolumeDown",
            Code::AudioVolumeMute => "AudioVolumeMute",
            Code::AudioVolumeUp => "AudioVolumeUp",
            Code::WakeUp => "WakeUp",
            Code::Hyper => "Hyper",
            Code::Super => "Super",
            Code::Turbo => "Turbo",
            Code::Abort => "Abort",
            Code::Resume => "Resume",
            Code::Suspend => "Suspend",
            Code::Again => "Again",
            Code::Copy => "Copy",
            Code::Cut => "Cut",
            Code::Find => "Find",
            Code::Open => "Open",
            Code::Paste => "Paste",
            Code::Props => "Props",
            Code::Select => "Select",
            Code::Undo => "Undo",
            Code::Hiragana => "Hiragana",
            Code::Katakana => "Katakana",
            Code::Unidentified => "Unidentified",
            Code::F1 => "F1",
            Code::F2 => "F2",
            Code::F3 => "F3",
            Code::F4 => "F4",
            Code::F5 => "F5",
            Code::F6 => "F6",
            Code::F7 => "F7",
            Code::F8 => "F8",
            Code::F9 => "F9",
            Code::F10 => "F10",
            Code::F11 => "F11",
            Code::F12 => "F12",
            Code::F13 => "F13",
            Code::F14 => "F14",
            Code::F15 => "F15",
            Code::F16 => "F16",
            Code::F17 => "F17",
            Code::F18 => "F18",
            Code::F19 => "F19",
            Code::F20 => "F20",
            Code::F21 => "F21",
            Code::F22 => "F22",
            Code::F23 => "F23",
            Code::F24 => "F24",
            Code::F25 => "F25",
            Code::F26 => "F26",
            Code::F27 => "F27",
            Code::F28 => "F28",
            Code::F29 => "F29",
            Code::F30 => "F30",
            Code::F31 => "F31",
            Code::F32 => "F32",
            Code::F33 => "F33",
            Code::F34 => "F34",
            Code::F35 => "F35",
            Code::BrightnessDown => "BrightnessDown",
            Code::BrightnessUp => "BrightnessUp",
            Code::DisplayToggleIntExt => "DisplayToggleIntExt",
            Code::KeyboardLayoutSelect => "KeyboardLayoutSelect",
            Code::LaunchAssistant => "LaunchAssistant",
            Code::LaunchControlPanel => "LaunchControlPanel",
            Code::LaunchScreenSaver => "LaunchScreenSaver",
            Code::MailForward => "MailForward",
            Code::MailReply => "MailReply",
            Code::MailSend => "MailSend",
            Code::MediaFastForward => "MediaFastForward",
            Code::MediaPause => "MediaPause",
            Code::MediaPlay => "MediaPlay",
            Code::MediaRecord => "MediaRecord",
            Code::MediaRewind => "MediaRewind",
            Code::MicrophoneMuteToggle => "MicrophoneMuteToggle",
            Code::PrivacyScreenToggle => "PrivacyScreenToggle",
            Code::SelectTask => "SelectTask",
            Code::ShowAllWindows => "ShowAllWindows",
            Code::ZoomToggle => "ZoomToggle",
        }
    }

    /// Numbering keys loses nothing: the number of a key leads back to it.
    pub proof fn lemma_index_round_trip(c: Code)
        ensures
            Code::spec_from_index(c.spec_index()) == Some(c),
            c.spec_index() < CODE_COUNT,
    {
    }

    /// Two keys with the same number are the same key.
    pub proof fn lemma_index_injective(a: Code, b: Code)
        ensures
            a.spec_index() == b.spec_index() <==> a == b,
    {
        Code::lemma_index_round_trip(a);
        Code::lemma_index_round_trip(b);
    }
}

} // verus!
