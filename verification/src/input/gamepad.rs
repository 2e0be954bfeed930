//! Gamepads and joysticks.
use vstd::prelude::*;

use crate::glfw::{GLFW_HAT_CENTERED, GLFW_HAT_DOWN, GLFW_HAT_LEFT, GLFW_HAT_RIGHT, GLFW_HAT_UP};
use crate::input::{ButtonState, button_state_from_code};

use crate::glfw::{
    GLFW_GAMEPAD_AXIS_LEFT_TRIGGER,
    GLFW_GAMEPAD_AXIS_LEFT_X,
    GLFW_GAMEPAD_AXIS_LEFT_Y,
    GLFW_GAMEPAD_AXIS_RIGHT_TRIGGER,
    GLFW_GAMEPAD_AXIS_RIGHT_X,
    GLFW_GAMEPAD_AXIS_RIGHT_Y,
};

use crate::glfw::{
    GLFW_GAMEPAD_BUTTON_A,
    GLFW_GAMEPAD_BUTTON_B,
    GLFW_GAMEPAD_BUTTON_BACK,
    GLFW_GAMEPAD_BUTTON_DPAD_DOWN,
    GLFW_GAMEPAD_BUTTON_DPAD_LEFT,
    GLFW_GAMEPAD_BUTTON_DPAD_RIGHT,
    GLFW_GAMEPAD_BUTTON_DPAD_UP,
    GLFW_GAMEPAD_BUTTON_GUIDE,
    GLFW_GAMEPAD_BUTTON_LEFT_BUMPER,
    GLFW_GAMEPAD_BUTTON_LEFT_THUMB,
    GLFW_GAMEPAD_BUTTON_RIGHT_BUMPER,
    GLFW_GAMEPAD_BUTTON_RIGHT_THUMB,
    GLFW_GAMEPAD_BUTTON_START,
    GLFW_GAMEPAD_BUTTON_X,
    GLFW_GAMEPAD_BUTTON_Y,
};

use crate::glfw::{
    GLFW_HAT_LEFT_DOWN,
    GLFW_HAT_LEFT_UP,
    GLFW_HAT_RIGHT_DOWN,
    GLFW_HAT_RIGHT_UP,
};

use crate::glfw::{
    GLFW_JOYSTICK_1,
    GLFW_JOYSTICK_10,
    GLFW_JOYSTICK_11,
    GLFW_JOYSTICK_12,
    GLFW_JOYSTICK_13,
    GLFW_JOYSTICK_14,
    GLFW_JOYSTICK_15,
    GLFW_JOYSTICK_16,
    GLFW_JOYSTICK_2,
    GLFW_JOYSTICK_3,
    GLFW_JOYSTICK_4,
    GLFW_JOYSTICK_5,
    GLFW_JOYSTICK_6,
    GLFW_JOYSTICK_7,
    GLFW_JOYSTICK_8,
    GLFW_JOYSTICK_9,
};

verus! {

/// An axis of a gamepad.
#[derive(Debug, Clone, Copy, PartialEq, Eq)]
pub enum GamepadAxis {
    LeftX,
    LeftY,
    RightX,
    RightY,
    LeftTrigger,
    RightTrigger,
}

/// The GLFW code of a [GamepadAxis].
pub open spec fn gamepad_axis_code(v: GamepadAxis) -> u32 {
    match v {
        GamepadAxis::LeftX => 0,
        GamepadAxis::LeftY => 1,
        GamepadAxis::RightX => 2,
        GamepadAxis::RightY => 3,
        GamepadAxis::LeftTrigger => 4,
        GamepadAxis::RightTrigger => 5,
    }
}

/// The [GamepadAxis] that a GLFW code stands for, if any.
pub open spec fn gamepad_axis_from_code(code: u32) -> Option<GamepadAxis> {
    match code {
        0 => Some(GamepadAxis::LeftX),
        1 => Some(GamepadAxis::LeftY),
        2 => Some(GamepadAxis::RightX),
        3 => Some(GamepadAxis::RightY),
        4 => Some(GamepadAxis::LeftTrigger),
        5 => Some(GamepadAxis::RightTrigger),
        _ => None,
    }
}

impl GamepadAxis {
    /// Returns the GLFW code of this value.
    pub fn as_glfw(&self) -> (r: u32)
        ensures
            r == gamepad_axis_code(*self),
    {
        match self {
            GamepadAxis::LeftX => 0,
            GamepadAxis::LeftY => 1,
            GamepadAxis::RightX => 2,
            GamepadAxis::RightY => 3,
            GamepadAxis::LeftTrigger => 4,
            GamepadAxis::RightTrigger => 5,
        }
    }

    /// Returns the value that the GLFW code `value` stands for, or `None`
    /// when it stands for none.
    pub fn from_glfw(value: u32) -> (r: Option<Self>)
        ensures
            r == gamepad_axis_from_code(value),
    {
        match value {
            0 => Some(GamepadAxis::LeftX),
            1 => Some(GamepadAxis::LeftY),
            2 => Some(GamepadAxis::RightX),
            3 => Some(GamepadAxis::RightY),
            4 => Some(GamepadAxis::LeftTrigger),
            5 => Some(GamepadAxis::RightTrigger),
            _ => None,
        }
    }
}

/// Every [GamepadAxis] is recognised again from its GLFW code, and a code is
/// recognised only as the value whose code it is.
pub proof fn lemma_gamepad_axis_code_round_trip(v: GamepadAxis, code: u32)
    ensures
        gamepad_axis_from_code(gamepad_axis_code(v)) == Some(v),
        gamepad_axis_from_code(code) matches Some(w) ==> gamepad_axis_code(w) == code,
{
}

/// A button of a gamepad.
#[derive(Debug, Clone, Copy, PartialEq, Eq)]
pub enum GamepadButton {
    A,
    B,
    X,
    Y,
    LeftBumper,
    RightBumper,
    Back,
    Start,
    Guide,
    LeftThumb,
    RightThumb,
    Up,
    Right,
    Down,
    Left,
}

/// The GLFW code of a [GamepadButton].
pub open spec fn gamepad_button_code(v: GamepadButton) -> u32 {
    match v {
        GamepadButton::A => 0,
        GamepadButton::B => 1,
        GamepadButton::X => 2,
        GamepadButton::Y => 3,
        GamepadButton::LeftBumper => 4,
        GamepadButton::RightBumper => 5,
        GamepadButton::Back => 6,
        GamepadButton::Start => 7,
        GamepadButton::Guide => 8,
        GamepadButton::LeftThumb => 9,
        GamepadButton::RightThumb => 10,
        GamepadButton::Up => 11,
        GamepadButton::Right => 12,
        GamepadButton::Down => 13,
        GamepadButton::Left => 14,
    }
}

/// The [GamepadButton] that a GLFW code stands for, if any.
pub open spec fn gamepad_button_from_code(code: u32) -> Option<GamepadButton> {
    match code {
        0 => Some(GamepadButton::A),
        1 => Some(GamepadButton::B),
        2 => Some(GamepadButton::X),
        3 => Some(GamepadButton::Y),
        4 => Some(GamepadButton::LeftBumper),
        5 => Some(GamepadButton::RightBumper),
        6 => Some(GamepadButton::Back),
        7 => Some(GamepadButton::Start),
        8 => Some(GamepadButton::Guide),
        9 => Some(GamepadButton::LeftThumb),
        10 => Some(GamepadButton::RightThumb),
        11 => Some(GamepadButton::Up),
        12 => Some(GamepadButton::Right),
        13 => Some(GamepadButton::Down),
        14 => Some(GamepadButton::Left),
        _ => None,
    }
}

impl GamepadButton {
    /// Returns the GLFW code of this value.
    pub fn as_glfw(&self) -> (r: u32)
        ensures
            r == gamepad_button_code(*self),
    {
        match self {
            GamepadButton::A => 0,
            GamepadButton::B => 1,
            GamepadButton::X => 2,
            GamepadButton::Y => 3,
            GamepadButton::LeftBumper => 4,
            GamepadButton::RightBumper => 5,
            GamepadButton::Back => 6,
            GamepadButton::Start => 7,
            GamepadButton::Guide => 8,
            GamepadButton::LeftThumb => 9,
            GamepadButton::RightThumb => 10,
            GamepadButton::Up => 11,
            GamepadButton::Right => 12,
            GamepadButton::Down => 13,
            GamepadButton::Left => 14,
        }
    }

    /// Returns the value that the GLFW code `value` stands for, or `None`
    /// when it stands for none.
    pub fn from_glfw(value: u32) -> (r: Option<Self>)
        ensures
            r == gamepad_button_from_code(value),
    {
        match value {
            0 => Some(GamepadButton::A),
            1 => Some(GamepadButton::B),
            2 => Some(GamepadButton::X),
            3 => Some(GamepadButton::Y),
            4 => Some(GamepadButton::LeftBumper),
            5 => Some(GamepadButton::RightBumper),
            6 => Some(GamepadButton::Back),
            7 => Some(GamepadButton::Start),
            8 => Some(GamepadButton::Guide),
            9 => Some(GamepadButton::LeftThumb),
            10 => Some(GamepadButton::RightThumb),
            11 => Some(GamepadButton::Up),
            12 => Some(GamepadButton::Right),
            13 => Some(GamepadButton::Down),
            14 => Some(GamepadButton::Left),
            _ => None,
        }
    }
}

/// Every [GamepadButton] is recognised again from its GLFW code, and a code is
/// recognised only as the value whose code it is.
pub proof fn lemma_gamepad_button_code_round_trip(v: GamepadButton, code: u32)
    ensures
        gamepad_button_from_code(gamepad_button_code(v)) == Some(v),
        gamepad_button_from_code(code) matches Some(w) ==> gamepad_button_code(w) == code,
{
}

/// The state of a joystick hat. The diagonal states are the bitwise or of
/// the two directions they combine.
#[derive(Debug, Clone, Copy, PartialEq, Eq)]
pub enum JoystickHatState {
    Centered,
    Up,
    Right,
    Down,
    Left,
    UpRight,
    DownRight,
    DownLeft,
    UpLeft,
}

/// The GLFW code of a [JoystickHatState].
pub open spec fn joystick_hat_state_code(v: JoystickHatState) -> u32 {
    match v {
        JoystickHatState::Centered => 0,
        JoystickHatState::Up => 1,
        JoystickHatState::Right => 2,
        JoystickHatState::Down => 4,
        JoystickHatState::Left => 8,
        JoystickHatState::UpRight => 3,
        JoystickHatState::DownRight => 6,
        JoystickHatState::DownLeft => 12,
        JoystickHatState::UpLeft => 9,
    }
}

/// The [JoystickHatState] that a GLFW code stands for, if any.
pub open spec fn joystick_hat_state_from_code(code: u32) -> Option<JoystickHatState> {
    match code {
        0 => Some(JoystickHatState::Centered),
        1 => Some(JoystickHatState::Up),
        2 => Some(JoystickHatState::Right),
        4 => Some(JoystickHatState::Down),
        8 => Some(JoystickHatState::Left),
        3 => Some(JoystickHatState::UpRight),
        6 => Some(JoystickHatState::DownRight),
        12 => Some(JoystickHatState::DownLeft),
        9 => Some(JoystickHatState::UpLeft),
        _ => None,
    }
}

impl JoystickHatState {
    /// Returns the GLFW code of this value.
    pub fn as_glfw(&self) -> (r: u32)
        ensures
            r == joystick_hat_state_code(*self),
    {
        match self {
            JoystickHatState::Centered => 0,
            JoystickHatState::Up => 1,
            JoystickHatState::Right => 2,
            JoystickHatState::Down => 4,
            JoystickHatState::Left => 8,
            JoystickHatState::UpRight => 3,
            JoystickHatState::DownRight => 6,
            JoystickHatState::DownLeft => 12,
            JoystickHatState::UpLeft => 9,
        }
    }

    /// Returns the value that the GLFW code `value` stands for, or `None`
    /// when it stands for none.
    pub fn from_glfw(value: u32) -> (r: Option<Self>)
        ensures
            r == joystick_hat_state_from_code(value),
    {
        match value {
            0 => Some(JoystickHatState::Centered),
            1 => Some(JoystickHatState::Up),
            2 => Some(JoystickHatState::Right),
            4 => Some(JoystickHatState::Down),
            8 => Some(JoystickHatState::Left),
            3 => Some(JoystickHatState::UpRight),
            6 => Some(JoystickHatState::DownRight),
            12 => Some(JoystickHatState::DownLeft),
            9 => Some(JoystickHatState::UpLeft),
            _ => None,
        }
    }
}

/// Every [JoystickHatState] is recognised again from its GLFW code, and a code is
/// recognised only as the value whose code it is.
pub proof fn lemma_joystick_hat_state_code_round_trip(v: JoystickHatState, code: u32)
    ensures
        joystick_hat_state_from_code(joystick_hat_state_code(v)) == Some(v),
        joystick_hat_state_from_code(code) matches Some(w) ==> joystick_hat_state_code(w) == code,
{
}

/// Each diagonal hat state is the bitwise or of the two directions it
/// combines, and each direction is a single bit.
pub proof fn lemma_hat_diagonals()
    ensures
        joystick_hat_state_code(JoystickHatState::UpRight)
            == joystick_hat_state_code(JoystickHatState::Up) | joystick_hat_state_code(JoystickHatState::Right),
        joystick_hat_state_code(JoystickHatState::DownRight)
            == joystick_hat_state_code(JoystickHatState::Down) | joystick_hat_state_code(JoystickHatState::Right),
        joystick_hat_state_code(JoystickHatState::DownLeft)
            == joystick_hat_state_code(JoystickHatState::Down) | joystick_hat_state_code(JoystickHatState::Left),
        joystick_hat_state_code(JoystickHatState::UpLeft)
            == joystick_hat_state_code(JoystickHatState::Up) | joystick_hat_state_code(JoystickHatState::Left),
        joystick_hat_state_code(JoystickHatState::Up) == GLFW_HAT_UP,
        joystick_hat_state_code(JoystickHatState::Right) == GLFW_HAT_RIGHT,
        joystick_hat_state_code(JoystickHatState::Down) == GLFW_HAT_DOWN,
        joystick_hat_state_code(JoystickHatState::Left) == GLFW_HAT_LEFT,
        joystick_hat_state_code(JoystickHatState::Centered) == GLFW_HAT_CENTERED,
{
    assert(1u32 | 2u32 == 3u32) by (bit_vector);
    assert(4u32 | 2u32 == 6u32) by (bit_vector);
    assert(4u32 | 8u32 == 12u32) by (bit_vector);
    assert(1u32 | 8u32 == 9u32) by (bit_vector);
}

/// One of the joysticks that GLFW tracks.
#[derive(Debug, Clone, Copy, PartialEq, Eq)]
pub enum Joystick {
    One,
    Two,
    Three,
    Four,
    Five,
    Six,
    Seven,
    Eight,
    Nine,
    Ten,
    Eleven,
    Twelve,
    Thirteen,
    Fourteen,
    Fifteen,
    Sixteen,
}

/// The GLFW code of a [Joystick].
pub open spec fn joystick_code(v: Joystick) -> u32 {
    match v {
        Joystick::One => 0,
        Joystick::Two => 1,
        Joystick::Three => 2,
        Joystick::Four => 3,
        Joystick::Five => 4,
        Joystick::Six => 5,
        Joystick::Seven => 6,
        Joystick::Eight => 7,
        Joystick::Nine => 8,
        Joystick::Ten => 9,
        Joystick::Eleven => 10,
        Joystick::Twelve => 11,
        Joystick::Thirteen => 12,
        Joystick::Fourteen => 13,
        Joystick::Fifteen => 14,
        Joystick::Sixteen => 15,
    }
}

/// The [Joystick] that a GLFW code stands for, if any.
pub open spec fn joystick_from_code(code: u32) -> Option<Joystick> {
    match code {
        0 => Some(Joystick::One),
        1 => Some(Joystick::Two),
        2 => Some(Joystick::Three),
        3 => Some(Joystick::Four),
        4 => Some(Joystick::Five),
        5 => Some(Joystick::Six),
        6 => Some(Joystick::Seven),
        7 => Some(Joystick::Eight),
        8 => Some(Joystick::Nine),
        9 => Some(Joystick::Ten),
        10 => Some(Joystick::Eleven),
        11 => Some(Joystick::Twelve),
        12 => Some(Joystick::Thirteen),
        13 => Some(Joystick::Fourteen),
        14 => Some(Joystick::Fifteen),
        15 => Some(Joystick::Sixteen),
        _ => None,
    }
}

impl Joystick {
    /// Returns the GLFW code of this value.
    pub fn as_glfw(&self) -> (r: u32)
        ensures
            r == joystick_code(*self),
    {
        match self {
            Joystick::One => 0,
            Joystick::Two => 1,
            Joystick::Three => 2,
            Joystick::Four => 3,
            Joystick::Five => 4,
            Joystick::Six => 5,
            Joystick::Seven => 6,
            Joystick::Eight => 7,
            Joystick::Nine => 8,
            Joystick::Ten => 9,
            Joystick::Eleven => 10,
            Joystick::Twelve => 11,
            Joystick::Thirteen => 12,
            Joystick::Fourteen => 13,
            Joystick::Fifteen => 14,
            Joystick::Sixteen => 15,
        }
    }

    /// Returns the value that the GLFW code `value` stands for, or `None`
    /// when it stands for none.
    pub fn from_glfw(value: u32) -> (r: Option<Self>)
        ensures
            r == joystick_from_code(value),
    {
        match value {
            0 => Some(Joystick::One),
            1 => Some(Joystick::Two),
            2 => Some(Joystick::Three),
            3 => Some(Joystick::Four),
            4 => Some(Joystick::Five),
            5 => Some(Joystick::Six),
            6 => Some(Joystick::Seven),
            7 => Some(Joystick::Eight),
            8 => Some(Joystick::Nine),
            9 => Some(Joystick::Ten),
            10 => Some(Joystick::Eleven),
            11 => Some(Joystick::Twelve),
            12 => Some(Joystick::Thirteen),
            13 => Some(Joystick::Fourteen),
            14 => Some(Joystick::Fifteen),
            15 => Some(Joystick::Sixteen),
            _ => None,
        }
    }
}

/// Every [Joystick] is recognised again from its GLFW code, and a code is
/// recognised only as the value whose code it is.
pub proof fn lemma_joystick_code_round_trip(v: Joystick, code: u32)
    ensures
        joystick_from_code(joystick_code(v)) == Some(v),
        joystick_from_code(code) matches Some(w) ==> joystick_code(w) == code,
{
}


/// Whether `states` is the decoding of the GLFW codes `codes`, one for one.
pub open spec fn decodes_buttons(codes: Seq<u8>, states: Seq<ButtonState>) -> bool {
    &&& states.len() == codes.len()
    &&& forall|i: int| 0 <= i < codes.len() ==> Some(#[trigger] states[i]) == button_state_from_code(codes[i] as u32)
}

/// Decodes the button states that GLFW reports for a joystick. Returns
/// `None` when it reports no buttons, or when a code names no
/// [ButtonState].
pub fn joystick_buttons(codes: &[u8]) -> (r: Option<Vec<ButtonState>>)
    ensures
        r is None <==> (codes@.len() == 0 || exists|i: int| 0 <= i < codes@.len() && button_state_from_code(#[trigger] codes@[i] as u32) is None),
        r matches Some(v) ==> decodes_buttons(codes@, v@),
{
    if codes.len() == 0 {
        return None;
    }
    let mut states: Vec<ButtonState> = Vec::new();
    let mut idx: usize = 0;
    while idx < codes.len()
        invariant
            idx <= codes@.len(),
            decodes_buttons(codes@.take(idx as int), states@),
        decreases codes@.len() - idx,
    {
        match ButtonState::from_glfw(codes[idx] as u32) {
            Some(s) => {
                states.push(s);
            },
            None => {
                assert(button_state_from_code(codes@[idx as int] as u32) is None);
                return None;
            },
        }
        idx = idx + 1;
        assert forall|i: int| 0 <= i < idx implies Some(#[trigger] states@[i]) == button_state_from_code(codes@.take(idx as int)[i] as u32) by {
            assert(codes@.take(idx as int)[i] == codes@[i]);
            if i < idx - 1 {
                assert(codes@.take(idx - 1)[i] == codes@[i]);
            }
        }
    }
    assert(codes@.take(codes@.len() as int) == codes@);
    assert forall|i: int| 0 <= i < codes@.len() implies button_state_from_code(#[trigger] codes@[i] as u32) is Some by {
        assert(codes@.take(codes@.len() as int)[i] == codes@[i]);
        assert(Some(states@[i]) == button_state_from_code(codes@.take(codes@.len() as int)[i] as u32));
    }
    Some(states)
}

/// Whether `states` is the decoding of the GLFW hat codes `codes`, one for
/// one.
pub open spec fn decodes_hats(codes: Seq<u8>, states: Seq<JoystickHatState>) -> bool {
    &&& states.len() == codes.len()
    &&& forall|i: int| 0 <= i < codes.len() ==> Some(#[trigger] states[i]) == joystick_hat_state_from_code(codes[i] as u32)
}

/// Decodes the hat states that GLFW reports for a joystick. Returns `None`
/// when it reports no hats, or when a code names no [JoystickHatState].
pub fn joystick_hats(codes: &[u8]) -> (r: Option<Vec<JoystickHatState>>)
    ensures
        r is None <==> (codes@.len() == 0 || exists|i: int| 0 <= i < codes@.len() && joystick_hat_state_from_code(#[trigger] codes@[i] as u32) is None),
        r matches Some(v) ==> decodes_hats(codes@, v@),
{
    if codes.len() == 0 {
        return None;
    }
    let mut states: Vec<JoystickHatState> = Vec::new();
    let mut idx: usize = 0;
    while idx < codes.len()
        invariant
            idx <= codes@.len(),
            decodes_hats(codes@.take(idx as int), states@),
        decreases codes@.len() - idx,
    {
        match JoystickHatState::from_glfw(codes[idx] as u32) {
            Some(s) => {
                states.push(s);
            },
            None => {
                assert(joystick_hat_state_from_code(codes@[idx as int] as u32) is None);
                return None;
            },
        }
        idx = idx + 1;
        assert forall|i: int| 0 <= i < idx implies Some(#[trigger] states@[i]) == joystick_hat_state_from_code(codes@.take(idx as int)[i] as u32) by {
            assert(codes@.take(idx as int)[i] == codes@[i]);
            if i < idx - 1 {
                assert(codes@.take(idx - 1)[i] == codes@[i]);
            }
        }
    }
    assert(codes@.take(codes@.len() as int) == codes@);
    assert forall|i: int| 0 <= i < codes@.len() implies joystick_hat_state_from_code(#[trigger] codes@[i] as u32) is Some by {
        assert(codes@.take(codes@.len() as int)[i] == codes@[i]);
        assert(Some(states@[i]) == joystick_hat_state_from_code(codes@.take(codes@.len() as int)[i] as u32));
    }
    Some(states)
}

/// Each gamepad axis is GLFW's gamepad axis of the same name, both ways.
pub proof fn lemma_gamepad_axis_glfw_names()
    ensures
        gamepad_axis_code(GamepadAxis::LeftX) == GLFW_GAMEPAD_AXIS_LEFT_X,
        gamepad_axis_code(GamepadAxis::LeftY) == GLFW_GAMEPAD_AXIS_LEFT_Y,
        gamepad_axis_code(GamepadAxis::RightX) == GLFW_GAMEPAD_AXIS_RIGHT_X,
        gamepad_axis_code(GamepadAxis::RightY) == GLFW_GAMEPAD_AXIS_RIGHT_Y,
        gamepad_axis_code(GamepadAxis::LeftTrigger) == GLFW_GAMEPAD_AXIS_LEFT_TRIGGER,
        gamepad_axis_code(GamepadAxis::RightTrigger) == GLFW_GAMEPAD_AXIS_RIGHT_TRIGGER,
        gamepad_axis_from_code(GLFW_GAMEPAD_AXIS_LEFT_X) == Some(GamepadAxis::LeftX),
        gamepad_axis_from_code(GLFW_GAMEPAD_AXIS_LEFT_Y) == Some(GamepadAxis::LeftY),
        gamepad_axis_from_code(GLFW_GAMEPAD_AXIS_RIGHT_X) == Some(GamepadAxis::RightX),
        gamepad_axis_from_code(GLFW_GAMEPAD_AXIS_RIGHT_Y) == Some(GamepadAxis::RightY),
        gamepad_axis_from_code(GLFW_GAMEPAD_AXIS_LEFT_TRIGGER) == Some(GamepadAxis::LeftTrigger),
        gamepad_axis_from_code(GLFW_GAMEPAD_AXIS_RIGHT_TRIGGER) == Some(GamepadAxis::RightTrigger),
{
}

/// Each gamepad button is GLFW's gamepad button of the same name, both ways;
/// the four directions are those of the D-pad.
pub proof fn lemma_gamepad_button_glfw_names()
    ensures
        gamepad_button_code(GamepadButton::A) == GLFW_GAMEPAD_BUTTON_A,
        gamepad_button_code(GamepadButton::B) == GLFW_GAMEPAD_BUTTON_B,
        gamepad_button_code(GamepadButton::X) == GLFW_GAMEPAD_BUTTON_X,
        gamepad_button_code(GamepadButton::Y) == GLFW_GAMEPAD_BUTTON_Y,
        gamepad_button_code(GamepadButton::LeftBumper) == GLFW_GAMEPAD_BUTTON_LEFT_BUMPER,
        gamepad_button_code(GamepadButton::RightBumper) == GLFW_GAMEPAD_BUTTON_RIGHT_BUMPER,
        gamepad_button_code(GamepadButton::Back) == GLFW_GAMEPAD_BUTTON_BACK,
        gamepad_button_code(GamepadButton::Start) == GLFW_GAMEPAD_BUTTON_START,
        gamepad_button_code(GamepadButton::Guide) == GLFW_GAMEPAD_BUTTON_GUIDE,
        gamepad_button_code(GamepadButton::LeftThumb) == GLFW_GAMEPAD_BUTTON_LEFT_THUMB,
        gamepad_button_code(GamepadButton::RightThumb) == GLFW_GAMEPAD_BUTTON_RIGHT_THUMB,
        gamepad_button_code(GamepadButton::Up) == GLFW_GAMEPAD_BUTTON_DPAD_UP,
        gamepad_button_code(GamepadButton::Right) == GLFW_GAMEPAD_BUTTON_DPAD_RIGHT,
        gamepad_button_code(GamepadButton::Down) == GLFW_GAMEPAD_BUTTON_DPAD_DOWN,
        gamepad_button_code(GamepadButton::Left) == GLFW_GAMEPAD_BUTTON_DPAD_LEFT,
        gamepad_button_from_code(GLFW_GAMEPAD_BUTTON_A) == Some(GamepadButton::A),
        gamepad_button_from_code(GLFW_GAMEPAD_BUTTON_B) == Some(GamepadButton::B),
        gamepad_button_from_code(GLFW_GAMEPAD_BUTTON_X) == Some(GamepadButton::X),
        gamepad_button_from_code(GLFW_GAMEPAD_BUTTON_Y) == Some(GamepadButton::Y),
        gamepad_button_from_code(GLFW_GAMEPAD_BUTTON_LEFT_BUMPER) == Some(GamepadButton::LeftBumper),
        gamepad_button_from_code(GLFW_GAMEPAD_BUTTON_RIGHT_BUMPER) == Some(GamepadButton::RightBumper),
        gamepad_button_from_code(GLFW_GAMEPAD_BUTTON_BACK) == Some(GamepadButton::Back),
        gamepad_button_from_code(GLFW_GAMEPAD_BUTTON_START) == Some(GamepadButton::Start),
        gamepad_button_from_code(GLFW_GAMEPAD_BUTTON_GUIDE) == Some(GamepadButton::Guide),
        gamepad_button_from_code(GLFW_GAMEPAD_BUTTON_LEFT_THUMB) == Some(GamepadButton::LeftThumb),
        gamepad_button_from_code(GLFW_GAMEPAD_BUTTON_RIGHT_THUMB) == Some(GamepadButton::RightThumb),
        gamepad_button_from_code(GLFW_GAMEPAD_BUTTON_DPAD_UP) == Some(GamepadButton::Up),
        gamepad_button_from_code(GLFW_GAMEPAD_BUTTON_DPAD_RIGHT) == Some(GamepadButton::Right),
        gamepad_button_from_code(GLFW_GAMEPAD_BUTTON_DPAD_DOWN) == Some(GamepadButton::Down),
        gamepad_button_from_code(GLFW_GAMEPAD_BUTTON_DPAD_LEFT) == Some(GamepadButton::Left),
{
}

/// Each hat position is GLFW's hat state of the same direction, both ways.
pub proof fn lemma_joystick_hat_state_glfw_names()
    ensures
        joystick_hat_state_code(JoystickHatState::Centered) == GLFW_HAT_CENTERED,
        joystick_hat_state_code(JoystickHatState::Up) == GLFW_HAT_UP,
        joystick_hat_state_code(JoystickHatState::Right) == GLFW_HAT_RIGHT,
        joystick_hat_state_code(JoystickHatState::Down) == GLFW_HAT_DOWN,
        joystick_hat_state_code(JoystickHatState::Left) == GLFW_HAT_LEFT,
        joystick_hat_state_code(JoystickHatState::UpRight) == GLFW_HAT_RIGHT_UP,
        joystick_hat_state_code(JoystickHatState::DownRight) == GLFW_HAT_RIGHT_DOWN,
        joystick_hat_state_code(JoystickHatState::DownLeft) == GLFW_HAT_LEFT_DOWN,
        joystick_hat_state_code(JoystickHatState::UpLeft) == GLFW_HAT_LEFT_UP,
        joystick_hat_state_from_code(GLFW_HAT_CENTERED) == Some(JoystickHatState::Centered),
        joystick_hat_state_from_code(GLFW_HAT_UP) == Some(JoystickHatState::Up),
        joystick_hat_state_from_code(GLFW_HAT_RIGHT) == Some(JoystickHatState::Right),
        joystick_hat_state_from_code(GLFW_HAT_DOWN) == Some(JoystickHatState::Down),
        joystick_hat_state_from_code(GLFW_HAT_LEFT) == Some(JoystickHatState::Left),
        joystick_hat_state_from_code(GLFW_HAT_RIGHT_UP) == Some(JoystickHatState::UpRight),
        joystick_hat_state_from_code(GLFW_HAT_RIGHT_DOWN) == Some(JoystickHatState::DownRight),
        joystick_hat_state_from_code(GLFW_HAT_LEFT_DOWN) == Some(JoystickHatState::DownLeft),
        joystick_hat_state_from_code(GLFW_HAT_LEFT_UP) == Some(JoystickHatState::UpLeft),
{
}

/// The n-th joystick is GLFW's joystick n, both ways: [Joystick::One] is
/// [GLFW_JOYSTICK_1] up to [Joystick::Sixteen], [GLFW_JOYSTICK_16].
pub proof fn lemma_joystick_glfw_names()
    ensures
        joystick_code(Joystick::One) == GLFW_JOYSTICK_1,
        joystick_code(Joystick::Two) == GLFW_JOYSTICK_2,
        joystick_code(Joystick::Three) == GLFW_JOYSTICK_3,
        joystick_code(Joystick::Four) == GLFW_JOYSTICK_4,
        joystick_code(Joystick::Five) == GLFW_JOYSTICK_5,
        joystick_code(Joystick::Six) == GLFW_JOYSTICK_6,
        joystick_code(Joystick::Seven) == GLFW_JOYSTICK_7,
        joystick_code(Joystick::Eight) == GLFW_JOYSTICK_8,
        joystick_code(Joystick::Nine) == GLFW_JOYSTICK_9,
        joystick_code(Joystick::Ten) == GLFW_JOYSTICK_10,
        joystick_code(Joystick::Eleven) == GLFW_JOYSTICK_11,
        joystick_code(Joystick::Twelve) == GLFW_JOYSTICK_12,
        joystick_code(Joystick::Thirteen) == GLFW_JOYSTICK_13,
        joystick_code(Joystick::Fourteen) == GLFW_JOYSTICK_14,
        joystick_code(Joystick::Fifteen) == GLFW_JOYSTICK_15,
        joystick_code(Joystick::Sixteen) == GLFW_JOYSTICK_16,
        joystick_from_code(GLFW_JOYSTICK_1) == Some(Joystick::One),
        joystick_from_code(GLFW_JOYSTICK_2) == Some(Joystick::Two),
        joystick_from_code(GLFW_JOYSTICK_3) == Some(Joystick::Three),
        joystick_from_code(GLFW_JOYSTICK_4) == Some(Joystick::Four),
        joystick_from_code(GLFW_JOYSTICK_5) == Some(Joystick::Five),
        joystick_from_code(GLFW_JOYSTICK_6) == Some(Joystick::Six),
        joystick_from_code(GLFW_JOYSTICK_7) == Some(Joystick::Seven),
        joystick_from_code(GLFW_JOYSTICK_8) == Some(Joystick::Eight),
        joystick_from_code(GLFW_JOYSTICK_9) == Some(Joystick::Nine),
        joystick_from_code(GLFW_JOYSTICK_10) == Some(Joystick::Ten),
        joystick_from_code(GLFW_JOYSTICK_11) == Some(Joystick::Eleven),
        joystick_from_code(GLFW_JOYSTICK_12) == Some(Joystick::Twelve),
        joystick_from_code(GLFW_JOYSTICK_13) == Some(Joystick::Thirteen),
        joystick_from_code(GLFW_JOYSTICK_14) == Some(Joystick::Fourteen),
        joystick_from_code(GLFW_JOYSTICK_15) == Some(Joystick::Fifteen),
        joystick_from_code(GLFW_JOYSTICK_16) == Some(Joystick::Sixteen),
{
}

} // verus!
