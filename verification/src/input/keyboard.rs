//! Keyboard keys and modifier flags.
use vstd::prelude::*;

use crate::glfw::{
    GLFW_MOD_ALT, GLFW_MOD_CAPS_LOCK, GLFW_MOD_CONTROL, GLFW_MOD_NUM_LOCK, GLFW_MOD_SHIFT, GLFW_MOD_SUPER,
};

use crate::glfw::{
    GLFW_KEY_0,
    GLFW_KEY_1,
    GLFW_KEY_2,
    GLFW_KEY_3,
    GLFW_KEY_4,
    GLFW_KEY_5,
    GLFW_KEY_6,
    GLFW_KEY_7,
    GLFW_KEY_8,
    GLFW_KEY_9,
    GLFW_KEY_A,
    GLFW_KEY_APOSTROPHE,
    GLFW_KEY_B,
    GLFW_KEY_BACKSLASH,
    GLFW_KEY_BACKSPACE,
    GLFW_KEY_C,
    GLFW_KEY_CAPS_LOCK,
    GLFW_KEY_COMMA,
    GLFW_KEY_D,
    GLFW_KEY_DELETE,
    GLFW_KEY_DOWN,
    GLFW_KEY_E,
    GLFW_KEY_END,
    GLFW_KEY_ENTER,
    GLFW_KEY_EQUAL,
    GLFW_KEY_ESCAPE,
    GLFW_KEY_F,
    GLFW_KEY_F1,
    GLFW_KEY_F10,
    GLFW_KEY_F11,
    GLFW_KEY_F12,
    GLFW_KEY_F13,
    GLFW_KEY_F14,
    GLFW_KEY_F15,
    GLFW_KEY_F16,
    GLFW_KEY_F17,
    GLFW_KEY_F18,
    GLFW_KEY_F19,
    GLFW_KEY_F2,
    GLFW_KEY_F20,
    GLFW_KEY_F21,
    GLFW_KEY_F22,
    GLFW_KEY_F23,
    GLFW_KEY_F24,
    GLFW_KEY_F25,
    GLFW_KEY_F3,
    GLFW_KEY_F4,
    GLFW_KEY_F5,
    GLFW_KEY_F6,
    GLFW_KEY_F7,
    GLFW_KEY_F8,
    GLFW_KEY_F9,
    GLFW_KEY_G,
    GLFW_KEY_GRAVE_ACCENT,
    GLFW_KEY_H,
    GLFW_KEY_HOME,
    GLFW_KEY_I,
    GLFW_KEY_INSERT,
    GLFW_KEY_J,
    GLFW_KEY_K,
    GLFW_KEY_KP_0,
    GLFW_KEY_KP_1,
    GLFW_KEY_KP_2,
    GLFW_KEY_KP_3,
    GLFW_KEY_KP_4,
    GLFW_KEY_KP_5,
    GLFW_KEY_KP_6,
    GLFW_KEY_KP_7,
    GLFW_KEY_KP_8,
    GLFW_KEY_KP_9,
    GLFW_KEY_KP_ADD,
    GLFW_KEY_KP_DECIMAL,
    GLFW_KEY_KP_DIVIDE,
    GLFW_KEY_KP_ENTER,
    GLFW_KEY_KP_EQUAL,
    GLFW_KEY_KP_MULTIPLY,
    GLFW_KEY_KP_SUBTRACT,
    GLFW_KEY_L,
    GLFW_KEY_LEFT,
    GLFW_KEY_LEFT_ALT,
    GLFW_KEY_LEFT_BRACKET,
    GLFW_KEY_LEFT_CONTROL,
    GLFW_KEY_LEFT_SHIFT,
    GLFW_KEY_LEFT_SUPER,
    GLFW_KEY_M,
    GLFW_KEY_MENU,
    GLFW_KEY_MINUS,
    GLFW_KEY_N,
    GLFW_KEY_NUM_LOCK,
    GLFW_KEY_O,
    GLFW_KEY_P,
    GLFW_KEY_PAGE_DOWN,
    GLFW_KEY_PAGE_UP,
    GLFW_KEY_PAUSE,
    GLFW_KEY_PERIOD,
    GLFW_KEY_PRINT_SCREEN,
    GLFW_KEY_Q,
    GLFW_KEY_R,
    GLFW_KEY_RIGHT,
    GLFW_KEY_RIGHT_ALT,
    GLFW_KEY_RIGHT_BRACKET,
    GLFW_KEY_RIGHT_CONTROL,
    GLFW_KEY_RIGHT_SHIFT,
    GLFW_KEY_RIGHT_SUPER,
    GLFW_KEY_S,
    GLFW_KEY_SCROLL_LOCK,
    GLFW_KEY_SEMICOLON,
    GLFW_KEY_SLASH,
    GLFW_KEY_SPACE,
    GLFW_KEY_T,
    GLFW_KEY_TAB,
    GLFW_KEY_U,
    GLFW_KEY_UP,
    GLFW_KEY_V,
    GLFW_KEY_W,
    GLFW_KEY_WORLD_1,
    GLFW_KEY_WORLD_2,
    GLFW_KEY_X,
    GLFW_KEY_Y,
    GLFW_KEY_Z,
};

verus! {

/// A keyboard key, named after its position on a US keyboard layout.
#[derive(Debug, Clone, Copy, PartialEq, Eq)]
pub enum Key {
    Space,
    Apostrophe,
    Comma,
    Minus,
    Period,
    Slash,
    Zero,
    One,
    Two,
    Three,
    Four,
    Five,
    Six,
    Seven,
    Eight,
    Nine,
    Semicolon,
    Equal,
    A,
    B,
    C,
    D,
    E,
    F,
    G,
    H,
    I,
    J,
    K,
    L,
    M,
    N,
    O,
    P,
    Q,
    R,
    S,
    T,
    U,
    V,
    W,
    X,
    Y,
    Z,
    LeftBracket,
    Backslash,
    RightBracket,
    Grave,
    World1,
    World2,
    Escape,
    Enter,
    Tab,
    Backspace,
    Insert,
    Delete,
    Right,
    Left,
    Down,
    Up,
    PageUp,
    PageDown,
    Home,
    End,
    CapsLock,
    ScrollLock,
    NumLock,
    PrintScreen,
    Pause,
    F1,
    F2,
    F3,
    F4,
    F5,
    F6,
    F7,
    F8,
    F9,
    F10,
    F11,
    F12,
    F13,
    F14,
    F15,
    F16,
    F17,
    F18,
    F19,
    F20,
    F21,
    F22,
    F23,
    F24,
    F25,
    Keypad0,
    Keypad1,
    Keypad2,
    Keypad3,
    Keypad4,
    Keypad5,
    Keypad6,
    Keypad7,
    Keypad8,
    Keypad9,
    KeypadDecimal,
    KeypadDivide,
    KeypadMultiply,
    KeypadSubtract,
    KeypadAdd,
    KeypadEnter,
    KeypadEqual,
    LeftShift,
    LeftControl,
    LeftAlt,
    LeftSuper,
    RightShift,
    RightControl,
    RightAlt,
    RightSuper,
    Menu,
}

/// The GLFW code of a [Key].
pub open spec fn key_code(v: Key) -> u32 {
    match v {
        Key::Space => 32,
        Key::Apostrophe => 39,
        Key::Comma => 44,
        Key::Minus => 45,
        Key::Period => 46,
        Key::Slash => 47,
        Key::Zero => 48,
        Key::One => 49,
        Key::Two => 50,
        Key::Three => 51,
        Key::Four => 52,
        Key::Five => 53,
        Key::Six => 54,
        Key::Seven => 55,
        Key::Eight => 56,
        Key::Nine => 57,
        Key::Semicolon => 59,
        Key::Equal => 61,
        Key::A => 65,
        Key::B => 66,
        Key::C => 67,
        Key::D => 68,
        Key::E => 69,
        Key::F => 70,
        Key::G => 71,
        Key::H => 72,
        Key::I => 73,
        Key::J => 74,
        Key::K => 75,
        Key::L => 76,
        Key::M => 77,
        Key::N => 78,
        Key::O => 79,
        Key::P => 80,
        Key::Q => 81,
        Key::R => 82,
        Key::S => 83,
        Key::T => 84,
        Key::U => 85,
        Key::V => 86,
        Key::W => 87,
        Key::X => 88,
        Key::Y => 89,
        Key::Z => 90,
        Key::LeftBracket => 91,
        Key::Backslash => 92,
        Key::RightBracket => 93,
        Key::Grave => 96,
        Key::World1 => 161,
        Key::World2 => 162,
        Key::Escape => 256,
        Key::Enter => 257,
        Key::Tab => 258,
        Key::Backspace => 259,
        Key::Insert => 260,
        Key::Delete => 261,
        Key::Right => 262,
        Key::Left => 263,
        Key::Down => 264,
        Key::Up => 265,
        Key::PageUp => 266,
        Key::PageDown => 267,
        Key::Home => 268,
        Key::End => 269,
        Key::CapsLock => 280,
        Key::ScrollLock => 281,
        Key::NumLock => 282,
        Key::PrintScreen => 283,
        Key::Pause => 284,
        Key::F1 => 290,
        Key::F2 => 291,
        Key::F3 => 292,
        Key::F4 => 293,
        Key::F5 => 294,
        Key::F6 => 295,
        Key::F7 => 296,
        Key::F8 => 297,
        Key::F9 => 298,
        Key::F10 => 299,
        Key::F11 => 300,
        Key::F12 => 301,
        Key::F13 => 302,
        Key::F14 => 303,
        Key::F15 => 304,
        Key::F16 => 305,
        Key::F17 => 306,
        Key::F18 => 307,
        Key::F19 => 308,
        Key::F20 => 309,
        Key::F21 => 310,
        Key::F22 => 311,
        Key::F23 => 312,
        Key::F24 => 313,
        Key::F25 => 314,
        Key::Keypad0 => 320,
        Key::Keypad1 => 321,
        Key::Keypad2 => 322,
        Key::Keypad3 => 323,
        Key::Keypad4 => 324,
        Key::Keypad5 => 325,
        Key::Keypad6 => 326,
        Key::Keypad7 => 327,
        Key::Keypad8 => 328,
        Key::Keypad9 => 329,
        Key::KeypadDecimal => 330,
        Key::KeypadDivide => 331,
        Key::KeypadMultiply => 332,
        Key::KeypadSubtract => 333,
        Key::KeypadAdd => 334,
        Key::KeypadEnter => 335,
        Key::KeypadEqual => 336,
        Key::LeftShift => 340,
        Key::LeftControl => 341,
        Key::LeftAlt => 342,
        Key::LeftSuper => 343,
        Key::RightShift => 344,
        Key::RightControl => 345,
        Key::RightAlt => 346,
        Key::RightSuper => 347,
        Key::Menu => 348,
    }
}

/// The [Key] that a GLFW code stands for, if any.
pub open spec fn key_from_code(code: u32) -> Option<Key> {
    match code {
        32 => Some(Key::Space),
        39 => Some(Key::Apostrophe),
        44 => Some(Key::Comma),
        45 => Some(Key::Minus),
        46 => Some(Key::Period),
        47 => Some(Key::Slash),
        48 => Some(Key::Zero),
        49 => Some(Key::One),
        50 => Some(Key::Two),
        51 => Some(Key::Three),
        52 => Some(Key::Four),
        53 => Some(Key::Five),
        54 => Some(Key::Six),
        55 => Some(Key::Seven),
        56 => Some(Key::Eight),
        57 => Some(Key::Nine),
        59 => Some(Key::Semicolon),
        61 => Some(Key::Equal),
        65 => Some(Key::A),
        66 => Some(Key::B),
        67 => Some(Key::C),
        68 => Some(Key::D),
        69 => Some(Key::E),
        70 => Some(Key::F),
        71 => Some(Key::G),
        72 => Some(Key::H),
        73 => Some(Key::I),
        74 => Some(Key::J),
        75 => Some(Key::K),
        76 => Some(Key::L),
        77 => Some(Key::M),
        78 => Some(Key::N),
        79 => Some(Key::O),
        80 => Some(Key::P),
        81 => Some(Key::Q),
        82 => Some(Key::R),
        83 => Some(Key::S),
        84 => Some(Key::T),
        85 => Some(Key::U),
        86 => Some(Key::V),
        87 => Some(Key::W),
        88 => Some(Key::X),
        89 => Some(Key::Y),
        90 => Some(Key::Z),
        91 => Some(Key::LeftBracket),
        92 => Some(Key::Backslash),
        93 => Some(Key::RightBracket),
        96 => Some(Key::Grave),
        161 => Some(Key::World1),
        162 => Some(Key::World2),
        256 => Some(Key::Escape),
        257 => Some(Key::Enter),
        258 => Some(Key::Tab),
        259 => Some(Key::Backspace),
        260 => Some(Key::Insert),
        261 => Some(Key::Delete),
        262 => Some(Key::Right),
        263 => Some(Key::Left),
        264 => Some(Key::Down),
        265 => Some(Key::Up),
        266 => Some(Key::PageUp),
        267 => Some(Key::PageDown),
        268 => Some(Key::Home),
        269 => Some(Key::End),
        280 => Some(Key::CapsLock),
        281 => Some(Key::ScrollLock),
        282 => Some(Key::NumLock),
        283 => Some(Key::PrintScreen),
        284 => Some(Key::Pause),
        290 => Some(Key::F1),
        291 => Some(Key::F2),
        292 => Some(Key::F3),
        293 => Some(Key::F4),
        294 => Some(Key::F5),
        295 => Some(Key::F6),
        296 => Some(Key::F7),
        297 => Some(Key::F8),
        298 => Some(Key::F9),
        299 => Some(Key::F10),
        300 => Some(Key::F11),
        301 => Some(Key::F12),
        302 => Some(Key::F13),
        303 => Some(Key::F14),
        304 => Some(Key::F15),
        305 => Some(Key::F16),
        306 => Some(Key::F17),
        307 => Some(Key::F18),
        308 => Some(Key::F19),
        309 => Some(Key::F20),
        310 => Some(Key::F21),
        311 => Some(Key::F22),
        312 => Some(Key::F23),
        313 => Some(Key::F24),
        314 => Some(Key::F25),
        320 => Some(Key::Keypad0),
        321 => Some(Key::Keypad1),
        322 => Some(Key::Keypad2),
        323 => Some(Key::Keypad3),
        324 => Some(Key::Keypad4),
        325 => Some(Key::Keypad5),
        326 => Some(Key::Keypad6),
        327 => Some(Key::Keypad7),
        328 => Some(Key::Keypad8),
        329 => Some(Key::Keypad9),
        330 => Some(Key::KeypadDecimal),
        331 => Some(Key::KeypadDivide),
        332 => Some(Key::KeypadMultiply),
        333 => Some(Key::KeypadSubtract),
        334 => Some(Key::KeypadAdd),
        335 => Some(Key::KeypadEnter),
        336 => Some(Key::KeypadEqual),
        340 => Some(Key::LeftShift),
        341 => Some(Key::LeftControl),
        342 => Some(Key::LeftAlt),
        343 => Some(Key::LeftSuper),
        344 => Some(Key::RightShift),
        345 => Some(Key::RightControl),
        346 => Some(Key::RightAlt),
        347 => Some(Key::RightSuper),
        348 => Some(Key::Menu),
        _ => None,
    }
}

impl Key {
    /// Returns the GLFW code of this value.
    pub fn as_glfw(&self) -> (r: u32)
        ensures
            r == key_code(*self),
    {
        match self {
            Key::Space => 32,
            Key::Apostrophe => 39,
            Key::Comma => 44,
            Key::Minus => 45,
            Key::Period => 46,
            Key::Slash => 47,
            Key::Zero => 48,
            Key::One => 49,
            Key::Two => 50,
            Key::Three => 51,
            Key::Four => 52,
            Key::Five => 53,
            Key::Six => 54,
            Key::Seven => 55,
            Key::Eight => 56,
            Key::Nine => 57,
            Key::Semicolon => 59,
            Key::Equal => 61,
            Key::A => 65,
            Key::B => 66,
            Key::C => 67,
            Key::D => 68,
            Key::E => 69,
            Key::F => 70,
            Key::G => 71,
            Key::H => 72,
            Key::I => 73,
            Key::J => 74,
            Key::K => 75,
            Key::L => 76,
            Key::M => 77,
            Key::N => 78,
            Key::O => 79,
            Key::P => 80,
            Key::Q => 81,
            Key::R => 82,
            Key::S => 83,
            Key::T => 84,
            Key::U => 85,
            Key::V => 86,
            Key::W => 87,
            Key::X => 88,
            Key::Y => 89,
            Key::Z => 90,
            Key::LeftBracket => 91,
            Key::Backslash => 92,
            Key::RightBracket => 93,
            Key::Grave => 96,
            Key::World1 => 161,
            Key::World2 => 162,
            Key::Escape => 256,
            Key::Enter => 257,
            Key::Tab => 258,
            Key::Backspace => 259,
            Key::Insert => 260,
            Key::Delete => 261,
            Key::Right => 262,
            Key::Left => 263,
            Key::Down => 264,
            Key::Up => 265,
            Key::PageUp => 266,
            Key::PageDown => 267,
            Key::Home => 268,
            Key::End => 269,
            Key::CapsLock => 280,
            Key::ScrollLock => 281,
            Key::NumLock => 282,
            Key::PrintScreen => 283,
            Key::Pause => 284,
            Key::F1 => 290,
            Key::F2 => 291,
            Key::F3 => 292,
            Key::F4 => 293,
            Key::F5 => 294,
            Key::F6 => 295,
            Key::F7 => 296,
            Key::F8 => 297,
            Key::F9 => 298,
            Key::F10 => 299,
            Key::F11 => 300,
            Key::F12 => 301,
            Key::F13 => 302,
            Key::F14 => 303,
            Key::F15 => 304,
            Key::F16 => 305,
            Key::F17 => 306,
            Key::F18 => 307,
            Key::F19 => 308,
            Key::F20 => 309,
            Key::F21 => 310,
            Key::F22 => 311,
            Key::F23 => 312,
            Key::F24 => 313,
            Key::F25 => 314,
            Key::Keypad0 => 320,
            Key::Keypad1 => 321,
            Key::Keypad2 => 322,
            Key::Keypad3 => 323,
            Key::Keypad4 => 324,
            Key::Keypad5 => 325,
            Key::Keypad6 => 326,
            Key::Keypad7 => 327,
            Key::Keypad8 => 328,
            Key::Keypad9 => 329,
            Key::KeypadDecimal => 330,
            Key::KeypadDivide => 331,
            Key::KeypadMultiply => 332,
            Key::KeypadSubtract => 333,
            Key::KeypadAdd => 334,
            Key::KeypadEnter => 335,
            Key::KeypadEqual => 336,
            Key::LeftShift => 340,
            Key::LeftControl => 341,
            Key::LeftAlt => 342,
            Key::LeftSuper => 343,
            Key::RightShift => 344,
            Key::RightControl => 345,
            Key::RightAlt => 346,
            Key::RightSuper => 347,
            Key::Menu => 348,
        }
    }

    /// Returns the value that the GLFW code `value` stands for, or `None`
    /// when it stands for none.
    pub fn from_glfw(value: u32) -> (r: Option<Self>)
        ensures
            r == key_from_code(value),
    {
        match value {
            32 => Some(Key::Space),
            39 => Some(Key::Apostrophe),
            44 => Some(Key::Comma),
            45 => Some(Key::Minus),
            46 => Some(Key::Period),
            47 => Some(Key::Slash),
            48 => Some(Key::Zero),
            49 => Some(Key::One),
            50 => Some(Key::Two),
            51 => Some(Key::Three),
            52 => Some(Key::Four),
            53 => Some(Key::Five),
            54 => Some(Key::Six),
            55 => Some(Key::Seven),
            56 => Some(Key::Eight),
            57 => Some(Key::Nine),
            59 => Some(Key::Semicolon),
            61 => Some(Key::Equal),
            65 => Some(Key::A),
            66 => Some(Key::B),
            67 => Some(Key::C),
            68 => Some(Key::D),
            69 => Some(Key::E),
            70 => Some(Key::F),
            71 => Some(Key::G),
            72 => Some(Key::H),
            73 => Some(Key::I),
            74 => Some(Key::J),
            75 => Some(Key::K),
            76 => Some(Key::L),
            77 => Some(Key::M),
            78 => Some(Key::N),
            79 => Some(Key::O),
            80 => Some(Key::P),
            81 => Some(Key::Q),
            82 => Some(Key::R),
            83 => Some(Key::S),
            84 => Some(Key::T),
            85 => Some(Key::U),
            86 => Some(Key::V),
            87 => Some(Key::W),
            88 => Some(Key::X),
            89 => Some(Key::Y),
            90 => Some(Key::Z),
            91 => Some(Key::LeftBracket),
            92 => Some(Key::Backslash),
            93 => Some(Key::RightBracket),
            96 => Some(Key::Grave),
            161 => Some(Key::World1),
            162 => Some(Key::World2),
            256 => Some(Key::Escape),
            257 => Some(Key::Enter),
            258 => Some(Key::Tab),
            259 => Some(Key::Backspace),
            260 => Some(Key::Insert),
            261 => Some(Key::Delete),
            262 => Some(Key::Right),
            263 => Some(Key::Left),
            264 => Some(Key::Down),
            265 => Some(Key::Up),
            266 => Some(Key::PageUp),
            267 => Some(Key::PageDown),
            268 => Some(Key::Home),
            269 => Some(Key::End),
            280 => Some(Key::CapsLock),
            281 => Some(Key::ScrollLock),
            282 => Some(Key::NumLock),
            283 => Some(Key::PrintScreen),
            284 => Some(Key::Pause),
            290 => Some(Key::F1),
            291 => Some(Key::F2),
            292 => Some(Key::F3),
            293 => Some(Key::F4),
            294 => Some(Key::F5),
            295 => Some(Key::F6),
            296 => Some(Key::F7),
            297 => Some(Key::F8),
            298 => Some(Key::F9),
            299 => Some(Key::F10),
            300 => Some(Key::F11),
            301 => Some(Key::F12),
            302 => Some(Key::F13),
            303 => Some(Key::F14),
            304 => Some(Key::F15),
            305 => Some(Key::F16),
            306 => Some(Key::F17),
            307 => Some(Key::F18),
            308 => Some(Key::F19),
            309 => Some(Key::F20),
            310 => Some(Key::F21),
            311 => Some(Key::F22),
            312 => Some(Key::F23),
            313 => Some(Key::F24),
            314 => Some(Key::F25),
            320 => Some(Key::Keypad0),
            321 => Some(Key::Keypad1),
            322 => Some(Key::Keypad2),
            323 => Some(Key::Keypad3),
            324 => Some(Key::Keypad4),
            325 => Some(Key::Keypad5),
            326 => Some(Key::Keypad6),
            327 => Some(Key::Keypad7),
            328 => Some(Key::Keypad8),
            329 => Some(Key::Keypad9),
            330 => Some(Key::KeypadDecimal),
            331 => Some(Key::KeypadDivide),
            332 => Some(Key::KeypadMultiply),
            333 => Some(Key::KeypadSubtract),
            334 => Some(Key::KeypadAdd),
            335 => Some(Key::KeypadEnter),
            336 => Some(Key::KeypadEqual),
            340 => Some(Key::LeftShift),
            341 => Some(Key::LeftControl),
            342 => Some(Key::LeftAlt),
            343 => Some(Key::LeftSuper),
            344 => Some(Key::RightShift),
            345 => Some(Key::RightControl),
            346 => Some(Key::RightAlt),
            347 => Some(Key::RightSuper),
            348 => Some(Key::Menu),
            _ => None,
        }
    }
}

/// Every [Key] is recognised again from its GLFW code, and a code is
/// recognised only as the value whose code it is.
pub proof fn lemma_key_code_round_trip(v: Key, code: u32)
    ensures
        key_from_code(key_code(v)) == Some(v),
        key_from_code(code) matches Some(w) ==> key_code(w) == code,
{
}

/// Whether the modifier bits `bits` include the flag `flag`.
pub open spec fn has_flag(bits: u8, flag: u8) -> bool {
    bits & flag != 0
}

/// Whether `flag` is one of the six single-bit modifier flags.
pub open spec fn is_modifier_flag(flag: u8) -> bool {
    flag == GLFW_MOD_SHIFT as u8 || flag == GLFW_MOD_CONTROL as u8 || flag == GLFW_MOD_ALT as u8
        || flag == GLFW_MOD_SUPER as u8 || flag == GLFW_MOD_CAPS_LOCK as u8 || flag == GLFW_MOD_NUM_LOCK as u8
}

/// A set of modifier keys (shift, control, alt, super, caps lock and num
/// lock), held as GLFW's modifier bit flags.
#[derive(Debug, Clone, Copy, PartialEq, Eq)]
pub struct Modifier(u8);

impl View for Modifier {
    type V = u8;

    closed spec fn view(&self) -> u8 {
        self.0
    }
}

impl Modifier {
    /// The alt key alone.
    pub fn alt() -> (r: Modifier)
        ensures
            r@ == GLFW_MOD_ALT as u8,
    {
        Modifier(GLFW_MOD_ALT as u8)
    }

    /// Caps lock alone.
    pub fn caps_lock() -> (r: Modifier)
        ensures
            r@ == GLFW_MOD_CAPS_LOCK as u8,
    {
        Modifier(GLFW_MOD_CAPS_LOCK as u8)
    }

    /// The control key alone.
    pub fn control() -> (r: Modifier)
        ensures
            r@ == GLFW_MOD_CONTROL as u8,
    {
        Modifier(GLFW_MOD_CONTROL as u8)
    }

    /// Num lock alone.
    pub fn num_lock() -> (r: Modifier)
        ensures
            r@ == GLFW_MOD_NUM_LOCK as u8,
    {
        Modifier(GLFW_MOD_NUM_LOCK as u8)
    }

    /// The shift key alone.
    pub fn shift() -> (r: Modifier)
        ensures
            r@ == GLFW_MOD_SHIFT as u8,
    {
        Modifier(GLFW_MOD_SHIFT as u8)
    }

    /// The super key alone.
    pub fn super_key() -> (r: Modifier)
        ensures
            r@ == GLFW_MOD_SUPER as u8,
    {
        Modifier(GLFW_MOD_SUPER as u8)
    }

    /// Builds the set of modifiers from the bit flags that GLFW reports.
    pub fn from_glfw(mods: i32) -> (r: Modifier)
        ensures
            r@ == mods as u8,
    {
        Modifier(mods as u8)
    }

    /// Returns the GLFW bit flags of this set of modifiers.
    pub fn as_glfw(&self) -> (r: i32)
        ensures
            r == self@ as i32,
    {
        self.0 as i32
    }

    /// Whether the shift key is held.
    pub fn is_shift(&self) -> (r: bool)
        ensures
            r == has_flag(self@, GLFW_MOD_SHIFT as u8),
    {
        self.0 & (GLFW_MOD_SHIFT as u8) > 0
    }

    /// Whether the control key is held.
    pub fn is_control(&self) -> (r: bool)
        ensures
            r == has_flag(self@, GLFW_MOD_CONTROL as u8),
    {
        self.0 & (GLFW_MOD_CONTROL as u8) > 0
    }

    /// Whether the alt key is held.
    pub fn is_alt(&self) -> (r: bool)
        ensures
            r == has_flag(self@, GLFW_MOD_ALT as u8),
    {
        self.0 & (GLFW_MOD_ALT as u8) > 0
    }

    /// Whether the super key is held.
    pub fn is_super(&self) -> (r: bool)
        ensures
            r == has_flag(self@, GLFW_MOD_SUPER as u8),
    {
        self.0 & (GLFW_MOD_SUPER as u8) > 0
    }

    /// Whether caps lock is on.
    pub fn is_caps_lock(&self) -> (r: bool)
        ensures
            r == has_flag(self@, GLFW_MOD_CAPS_LOCK as u8),
    {
        self.0 & (GLFW_MOD_CAPS_LOCK as u8) > 0
    }

    /// Whether num lock is on.
    pub fn is_num_lock(&self) -> (r: bool)
        ensures
            r == has_flag(self@, GLFW_MOD_NUM_LOCK as u8),
    {
        self.0 & (GLFW_MOD_NUM_LOCK as u8) > 0
    }

    /// The modifiers present in both sets.
    pub fn bitand(self, rhs: Modifier) -> (r: Modifier)
        ensures
            r@ == self@ & rhs@,
    {
        Modifier(self.0 & rhs.0)
    }

    /// Keeps only the modifiers that are also in `rhs`.
    pub fn bitand_assign(&mut self, rhs: Modifier)
        ensures
            final(self)@ == old(self)@ & rhs@,
    {
        self.0 = self.0 & rhs.0;
    }

    /// The modifiers present in either set.
    pub fn bitor(self, rhs: Modifier) -> (r: Modifier)
        ensures
            r@ == self@ | rhs@,
    {
        Modifier(self.0 | rhs.0)
    }

    /// Adds the modifiers of `rhs`.
    pub fn bitor_assign(&mut self, rhs: Modifier)
        ensures
            final(self)@ == old(self)@ | rhs@,
    {
        self.0 = self.0 | rhs.0;
    }

    /// The modifiers present in exactly one of the sets.
    pub fn bitxor(self, rhs: Modifier) -> (r: Modifier)
        ensures
            r@ == self@ ^ rhs@,
    {
        Modifier(self.0 ^ rhs.0)
    }

    /// Toggles the modifiers of `rhs`.
    pub fn bitxor_assign(&mut self, rhs: Modifier)
        ensures
            final(self)@ == old(self)@ ^ rhs@,
    {
        self.0 = self.0 ^ rhs.0;
    }
}

/// A modifier is held in the union of two sets exactly when it is held in
/// either; in the intersection exactly when it is held in both; in the
/// symmetric difference exactly when it is held in one of them.
pub proof fn lemma_modifier_set_operations(a: u8, b: u8, flag: u8)
    requires
        is_modifier_flag(flag),
    ensures
        has_flag(a | b, flag) == (has_flag(a, flag) || has_flag(b, flag)),
        has_flag(a & b, flag) == (has_flag(a, flag) && has_flag(b, flag)),
        has_flag(a ^ b, flag) == (has_flag(a, flag) != has_flag(b, flag)),
{
    assert((a | b) & flag != 0 <==> (a & flag != 0 || b & flag != 0)) by (bit_vector)
        requires flag == 1u8 || flag == 2u8 || flag == 4u8 || flag == 8u8 || flag == 16u8 || flag == 32u8;
    assert((a & b) & flag != 0 <==> (a & flag != 0 && b & flag != 0)) by (bit_vector)
        requires flag == 1u8 || flag == 2u8 || flag == 4u8 || flag == 8u8 || flag == 16u8 || flag == 32u8;
    assert((a ^ b) & flag != 0 <==> (a & flag != 0) != (b & flag != 0)) by (bit_vector)
        requires flag == 1u8 || flag == 2u8 || flag == 4u8 || flag == 8u8 || flag == 16u8 || flag == 32u8;
}

/// A set of modifiers survives the trip to GLFW's bit flags and back.
pub proof fn lemma_modifier_glfw_round_trip(m: Modifier)
    ensures
        ((m@ as i32) as u8) == m@,
{
    let bits = m@;
    assert(((bits as i32) as u8) == bits) by (bit_vector);
}

/// Each key is GLFW's key of the same name, both ways: [Key::A] is
/// [GLFW_KEY_A], [Key::Escape] is [GLFW_KEY_ESCAPE], and so on for every key.
pub proof fn lemma_key_glfw_names()
    ensures
        key_code(Key::Space) == GLFW_KEY_SPACE,
        key_code(Key::Apostrophe) == GLFW_KEY_APOSTROPHE,
        key_code(Key::Comma) == GLFW_KEY_COMMA,
        key_code(Key::Minus) == GLFW_KEY_MINUS,
        key_code(Key::Period) == GLFW_KEY_PERIOD,
        key_code(Key::Slash) == GLFW_KEY_SLASH,
        key_code(Key::Zero) == GLFW_KEY_0,
        key_code(Key::One) == GLFW_KEY_1,
        key_code(Key::Two) == GLFW_KEY_2,
        key_code(Key::Three) == GLFW_KEY_3,
        key_code(Key::Four) == GLFW_KEY_4,
        key_code(Key::Five) == GLFW_KEY_5,
        key_code(Key::Six) == GLFW_KEY_6,
        key_code(Key::Seven) == GLFW_KEY_7,
        key_code(Key::Eight) == GLFW_KEY_8,
        key_code(Key::Nine) == GLFW_KEY_9,
        key_code(Key::Semicolon) == GLFW_KEY_SEMICOLON,
        key_code(Key::Equal) == GLFW_KEY_EQUAL,
        key_code(Key::A) == GLFW_KEY_A,
        key_code(Key::B) == GLFW_KEY_B,
        key_code(Key::C) == GLFW_KEY_C,
        key_code(Key::D) == GLFW_KEY_D,
        key_code(Key::E) == GLFW_KEY_E,
        key_code(Key::F) == GLFW_KEY_F,
        key_code(Key::G) == GLFW_KEY_G,
        key_code(Key::H) == GLFW_KEY_H,
        key_code(Key::I) == GLFW_KEY_I,
        key_code(Key::J) == GLFW_KEY_J,
        key_code(Key::K) == GLFW_KEY_K,
        key_code(Key::L) == GLFW_KEY_L,
        key_code(Key::M) == GLFW_KEY_M,
        key_code(Key::N) == GLFW_KEY_N,
        key_code(Key::O) == GLFW_KEY_O,
        key_code(Key::P) == GLFW_KEY_P,
        key_code(Key::Q) == GLFW_KEY_Q,
        key_code(Key::R) == GLFW_KEY_R,
        key_code(Key::S) == GLFW_KEY_S,
        key_code(Key::T) == GLFW_KEY_T,
        key_code(Key::U) == GLFW_KEY_U,
        key_code(Key::V) == GLFW_KEY_V,
        key_code(Key::W) == GLFW_KEY_W,
        key_code(Key::X) == GLFW_KEY_X,
        key_code(Key::Y) == GLFW_KEY_Y,
        key_code(Key::Z) == GLFW_KEY_Z,
        key_code(Key::LeftBracket) == GLFW_KEY_LEFT_BRACKET,
        key_code(Key::Backslash) == GLFW_KEY_BACKSLASH,
        key_code(Key::RightBracket) == GLFW_KEY_RIGHT_BRACKET,
        key_code(Key::Grave) == GLFW_KEY_GRAVE_ACCENT,
        key_code(Key::World1) == GLFW_KEY_WORLD_1,
        key_code(Key::World2) == GLFW_KEY_WORLD_2,
        key_code(Key::Escape) == GLFW_KEY_ESCAPE,
        key_code(Key::Enter) == GLFW_KEY_ENTER,
        key_code(Key::Tab) == GLFW_KEY_TAB,
        key_code(Key::Backspace) == GLFW_KEY_BACKSPACE,
        key_code(Key::Insert) == GLFW_KEY_INSERT,
        key_code(Key::Delete) == GLFW_KEY_DELETE,
        key_code(Key::Right) == GLFW_KEY_RIGHT,
        key_code(Key::Left) == GLFW_KEY_LEFT,
        key_code(Key::Down) == GLFW_KEY_DOWN,
        key_code(Key::Up) == GLFW_KEY_UP,
        key_code(Key::PageUp) == GLFW_KEY_PAGE_UP,
        key_code(Key::PageDown) == GLFW_KEY_PAGE_DOWN,
        key_code(Key::Home) == GLFW_KEY_HOME,
        key_code(Key::End) == GLFW_KEY_END,
        key_code(Key::CapsLock) == GLFW_KEY_CAPS_LOCK,
        key_code(Key::ScrollLock) == GLFW_KEY_SCROLL_LOCK,
        key_code(Key::NumLock) == GLFW_KEY_NUM_LOCK,
        key_code(Key::PrintScreen) == GLFW_KEY_PRINT_SCREEN,
        key_code(Key::Pause) == GLFW_KEY_PAUSE,
        key_code(Key::F1) == GLFW_KEY_F1,
        key_code(Key::F2) == GLFW_KEY_F2,
        key_code(Key::F3) == GLFW_KEY_F3,
        key_code(Key::F4) == GLFW_KEY_F4,
        key_code(Key::F5) == GLFW_KEY_F5,
        key_code(Key::F6) == GLFW_KEY_F6,
        key_code(Key::F7) == GLFW_KEY_F7,
        key_code(Key::F8) == GLFW_KEY_F8,
        key_code(Key::F9) == GLFW_KEY_F9,
        key_code(Key::F10) == GLFW_KEY_F10,
        key_code(Key::F11) == GLFW_KEY_F11,
        key_code(Key::F12) == GLFW_KEY_F12,
        key_code(Key::F13) == GLFW_KEY_F13,
        key_code(Key::F14) == GLFW_KEY_F14,
        key_code(Key::F15) == GLFW_KEY_F15,
        key_code(Key::F16) == GLFW_KEY_F16,
        key_code(Key::F17) == GLFW_KEY_F17,
        key_code(Key::F18) == GLFW_KEY_F18,
        key_code(Key::F19) == GLFW_KEY_F19,
        key_code(Key::F20) == GLFW_KEY_F20,
        key_code(Key::F21) == GLFW_KEY_F21,
        key_code(Key::F22) == GLFW_KEY_F22,
        key_code(Key::F23) == GLFW_KEY_F23,
        key_code(Key::F24) == GLFW_KEY_F24,
        key_code(Key::F25) == GLFW_KEY_F25,
        key_code(Key::Keypad0) == GLFW_KEY_KP_0,
        key_code(Key::Keypad1) == GLFW_KEY_KP_1,
        key_code(Key::Keypad2) == GLFW_KEY_KP_2,
        key_code(Key::Keypad3) == GLFW_KEY_KP_3,
        key_code(Key::Keypad4) == GLFW_KEY_KP_4,
        key_code(Key::Keypad5) == GLFW_KEY_KP_5,
        key_code(Key::Keypad6) == GLFW_KEY_KP_6,
        key_code(Key::Keypad7) == GLFW_KEY_KP_7,
        key_code(Key::Keypad8) == GLFW_KEY_KP_8,
        key_code(Key::Keypad9) == GLFW_KEY_KP_9,
        key_code(Key::KeypadDecimal) == GLFW_KEY_KP_DECIMAL,
        key_code(Key::KeypadDivide) == GLFW_KEY_KP_DIVIDE,
        key_code(Key::KeypadMultiply) == GLFW_KEY_KP_MULTIPLY,
        key_code(Key::KeypadSubtract) == GLFW_KEY_KP_SUBTRACT,
        key_code(Key::KeypadAdd) == GLFW_KEY_KP_ADD,
        key_code(Key::KeypadEnter) == GLFW_KEY_KP_ENTER,
        key_code(Key::KeypadEqual) == GLFW_KEY_KP_EQUAL,
        key_code(Key::LeftShift) == GLFW_KEY_LEFT_SHIFT,
        key_code(Key::LeftControl) == GLFW_KEY_LEFT_CONTROL,
        key_code(Key::LeftAlt) == GLFW_KEY_LEFT_ALT,
        key_code(Key::LeftSuper) == GLFW_KEY_LEFT_SUPER,
        key_code(Key::RightShift) == GLFW_KEY_RIGHT_SHIFT,
        key_code(Key::RightControl) == GLFW_KEY_RIGHT_CONTROL,
        key_code(Key::RightAlt) == GLFW_KEY_RIGHT_ALT,
        key_code(Key::RightSuper) == GLFW_KEY_RIGHT_SUPER,
        key_code(Key::Menu) == GLFW_KEY_MENU,
        key_from_code(GLFW_KEY_SPACE) == Some(Key::Space),
        key_from_code(GLFW_KEY_APOSTROPHE) == Some(Key::Apostrophe),
        key_from_code(GLFW_KEY_COMMA) == Some(Key::Comma),
        key_from_code(GLFW_KEY_MINUS) == Some(Key::Minus),
        key_from_code(GLFW_KEY_PERIOD) == Some(Key::Period),
        key_from_code(GLFW_KEY_SLASH) == Some(Key::Slash),
        key_from_code(GLFW_KEY_0) == Some(Key::Zero),
        key_from_code(GLFW_KEY_1) == Some(Key::One),
        key_from_code(GLFW_KEY_2) == Some(Key::Two),
        key_from_code(GLFW_KEY_3) == Some(Key::Three),
        key_from_code(GLFW_KEY_4) == Some(Key::Four),
        key_from_code(GLFW_KEY_5) == Some(Key::Five),
        key_from_code(GLFW_KEY_6) == Some(Key::Six),
        key_from_code(GLFW_KEY_7) == Some(Key::Seven),
        key_from_code(GLFW_KEY_8) == Some(Key::Eight),
        key_from_code(GLFW_KEY_9) == Some(Key::Nine),
        key_from_code(GLFW_KEY_SEMICOLON) == Some(Key::Semicolon),
        key_from_code(GLFW_KEY_EQUAL) == Some(Key::Equal),
        key_from_code(GLFW_KEY_A) == Some(Key::A),
        key_from_code(GLFW_KEY_B) == Some(Key::B),
        key_from_code(GLFW_KEY_C) == Some(Key::C),
        key_from_code(GLFW_KEY_D) == Some(Key::D),
        key_from_code(GLFW_KEY_E) == Some(Key::E),
        key_from_code(GLFW_KEY_F) == Some(Key::F),
        key_from_code(GLFW_KEY_G) == Some(Key::G),
        key_from_code(GLFW_KEY_H) == Some(Key::H),
        key_from_code(GLFW_KEY_I) == Some(Key::I),
        key_from_code(GLFW_KEY_J) == Some(Key::J),
        key_from_code(GLFW_KEY_K) == Some(Key::K),
        key_from_code(GLFW_KEY_L) == Some(Key::L),
        key_from_code(GLFW_KEY_M) == Some(Key::M),
        key_from_code(GLFW_KEY_N) == Some(Key::N),
        key_from_code(GLFW_KEY_O) == Some(Key::O),
        key_from_code(GLFW_KEY_P) == Some(Key::P),
        key_from_code(GLFW_KEY_Q) == Some(Key::Q),
        key_from_code(GLFW_KEY_R) == Some(Key::R),
        key_from_code(GLFW_KEY_S) == Some(Key::S),
        key_from_code(GLFW_KEY_T) == Some(Key::T),
        key_from_code(GLFW_KEY_U) == Some(Key::U),
        key_from_code(GLFW_KEY_V) == Some(Key::V),
        key_from_code(GLFW_KEY_W) == Some(Key::W),
        key_from_code(GLFW_KEY_X) == Some(Key::X),
        key_from_code(GLFW_KEY_Y) == Some(Key::Y),
        key_from_code(GLFW_KEY_Z) == Some(Key::Z),
        key_from_code(GLFW_KEY_LEFT_BRACKET) == Some(Key::LeftBracket),
        key_from_code(GLFW_KEY_BACKSLASH) == Some(Key::Backslash),
        key_from_code(GLFW_KEY_RIGHT_BRACKET) == Some(Key::RightBracket),
        key_from_code(GLFW_KEY_GRAVE_ACCENT) == Some(Key::Grave),
        key_from_code(GLFW_KEY_WORLD_1) == Some(Key::World1),
        key_from_code(GLFW_KEY_WORLD_2) == Some(Key::World2),
        key_from_code(GLFW_KEY_ESCAPE) == Some(Key::Escape),
        key_from_code(GLFW_KEY_ENTER) == Some(Key::Enter),
        key_from_code(GLFW_KEY_TAB) == Some(Key::Tab),
        key_from_code(GLFW_KEY_BACKSPACE) == Some(Key::Backspace),
        key_from_code(GLFW_KEY_INSERT) == Some(Key::Insert),
        key_from_code(GLFW_KEY_DELETE) == Some(Key::Delete),
        key_from_code(GLFW_KEY_RIGHT) == Some(Key::Right),
        key_from_code(GLFW_KEY_LEFT) == Some(Key::Left),
        key_from_code(GLFW_KEY_DOWN) == Some(Key::Down),
        key_from_code(GLFW_KEY_UP) == Some(Key::Up),
        key_from_code(GLFW_KEY_PAGE_UP) == Some(Key::PageUp),
        key_from_code(GLFW_KEY_PAGE_DOWN) == Some(Key::PageDown),
        key_from_code(GLFW_KEY_HOME) == Some(Key::Home),
        key_from_code(GLFW_KEY_END) == Some(Key::End),
        key_from_code(GLFW_KEY_CAPS_LOCK) == Some(Key::CapsLock),
        key_from_code(GLFW_KEY_SCROLL_LOCK) == Some(Key::ScrollLock),
        key_from_code(GLFW_KEY_NUM_LOCK) == Some(Key::NumLock),
        key_from_code(GLFW_KEY_PRINT_SCREEN) == Some(Key::PrintScreen),
        key_from_code(GLFW_KEY_PAUSE) == Some(Key::Pause),
        key_from_code(GLFW_KEY_F1) == Some(Key::F1),
        key_from_code(GLFW_KEY_F2) == Some(Key::F2),
        key_from_code(GLFW_KEY_F3) == Some(Key::F3),
        key_from_code(GLFW_KEY_F4) == Some(Key::F4),
        key_from_code(GLFW_KEY_F5) == Some(Key::F5),
        key_from_code(GLFW_KEY_F6) == Some(Key::F6),
        key_from_code(GLFW_KEY_F7) == Some(Key::F7),
        key_from_code(GLFW_KEY_F8) == Some(Key::F8),
        key_from_code(GLFW_KEY_F9) == Some(Key::F9),
        key_from_code(GLFW_KEY_F10) == Some(Key::F10),
        key_from_code(GLFW_KEY_F11) == Some(Key::F11),
        key_from_code(GLFW_KEY_F12) == Some(Key::F12),
        key_from_code(GLFW_KEY_F13) == Some(Key::F13),
        key_from_code(GLFW_KEY_F14) == Some(Key::F14),
        key_from_code(GLFW_KEY_F15) == Some(Key::F15),
        key_from_code(GLFW_KEY_F16) == Some(Key::F16),
        key_from_code(GLFW_KEY_F17) == Some(Key::F17),
        key_from_code(GLFW_KEY_F18) == Some(Key::F18),
        key_from_code(GLFW_KEY_F19) == Some(Key::F19),
        key_from_code(GLFW_KEY_F20) == Some(Key::F20),
        key_from_code(GLFW_KEY_F21) == Some(Key::F21),
        key_from_code(GLFW_KEY_F22) == Some(Key::F22),
        key_from_code(GLFW_KEY_F23) == Some(Key::F23),
        key_from_code(GLFW_KEY_F24) == Some(Key::F24),
        key_from_code(GLFW_KEY_F25) == Some(Key::F25),
        key_from_code(GLFW_KEY_KP_0) == Some(Key::Keypad0),
        key_from_code(GLFW_KEY_KP_1) == Some(Key::Keypad1),
        key_from_code(GLFW_KEY_KP_2) == Some(Key::Keypad2),
        key_from_code(GLFW_KEY_KP_3) == Some(Key::Keypad3),
        key_from_code(GLFW_KEY_KP_4) == Some(Key::Keypad4),
        key_from_code(GLFW_KEY_KP_5) == Some(Key::Keypad5),
        key_from_code(GLFW_KEY_KP_6) == Some(Key::Keypad6),
        key_from_code(GLFW_KEY_KP_7) == Some(Key::Keypad7),
        key_from_code(GLFW_KEY_KP_8) == Some(Key::Keypad8),
        key_from_code(GLFW_KEY_KP_9) == Some(Key::Keypad9),
        key_from_code(GLFW_KEY_KP_DECIMAL) == Some(Key::KeypadDecimal),
        key_from_code(GLFW_KEY_KP_DIVIDE) == Some(Key::KeypadDivide),
        key_from_code(GLFW_KEY_KP_MULTIPLY) == Some(Key::KeypadMultiply),
        key_from_code(GLFW_KEY_KP_SUBTRACT) == Some(Key::KeypadSubtract),
        key_from_code(GLFW_KEY_KP_ADD) == Some(Key::KeypadAdd),
        key_from_code(GLFW_KEY_KP_ENTER) == Some(Key::KeypadEnter),
        key_from_code(GLFW_KEY_KP_EQUAL) == Some(Key::KeypadEqual),
        key_from_code(GLFW_KEY_LEFT_SHIFT) == Some(Key::LeftShift),
        key_from_code(GLFW_KEY_LEFT_CONTROL) == Some(Key::LeftControl),
        key_from_code(GLFW_KEY_LEFT_ALT) == Some(Key::LeftAlt),
        key_from_code(GLFW_KEY_LEFT_SUPER) == Some(Key::LeftSuper),
        key_from_code(GLFW_KEY_RIGHT_SHIFT) == Some(Key::RightShift),
        key_from_code(GLFW_KEY_RIGHT_CONTROL) == Some(Key::RightControl),
        key_from_code(GLFW_KEY_RIGHT_ALT) == Some(Key::RightAlt),
        key_from_code(GLFW_KEY_RIGHT_SUPER) == Some(Key::RightSuper),
        key_from_code(GLFW_KEY_MENU) == Some(Key::Menu),
{
}

} // verus!
