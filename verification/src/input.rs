//! Input: button states, keyboard, mouse and gamepads.
use vstd::prelude::*;

pub mod event;
pub mod gamepad;
pub mod keyboard;
pub mod mouse;

use crate::glfw::{
    GLFW_PRESS,
    GLFW_RELEASE,
};

use crate::glfw::{
    GLFW_REPEAT,
};

verus! {

/// The state of a key or button: released or pressed.
#[derive(Default, Debug, Clone, Copy, PartialEq, Eq)]
pub enum ButtonState {
    #[default]
    Release,
    Press,
}

/// The GLFW code of a [ButtonState].
pub open spec fn button_state_code(v: ButtonState) -> u32 {
    match v {
        ButtonState::Release => 0,
        ButtonState::Press => 1,
    }
}

/// The [ButtonState] that a GLFW code stands for, if any.
pub open spec fn button_state_from_code(code: u32) -> Option<ButtonState> {
    match code {
        0 => Some(ButtonState::Release),
        1 => Some(ButtonState::Press),
        _ => None,
    }
}

impl ButtonState {
    /// Returns the GLFW code of this value.
    pub fn as_glfw(&self) -> (r: u32)
        ensures
            r == button_state_code(*self),
    {
        match self {
            ButtonState::Release => 0,
            ButtonState::Press => 1,
        }
    }

    /// Returns the value that the GLFW code `value` stands for, or `None`
    /// when it stands for none.
    pub fn from_glfw(value: u32) -> (r: Option<Self>)
        ensures
            r == button_state_from_code(value),
    {
        match value {
            0 => Some(ButtonState::Release),
            1 => Some(ButtonState::Press),
            _ => None,
        }
    }
}

/// Every [ButtonState] is recognised again from its GLFW code, and a code is
/// recognised only as the value whose code it is.
pub proof fn lemma_button_state_code_round_trip(v: ButtonState, code: u32)
    ensures
        button_state_from_code(button_state_code(v)) == Some(v),
        button_state_from_code(code) matches Some(w) ==> button_state_code(w) == code,
{
}

/// What happened to a key or button: released, pressed or held down until
/// it repeated.
#[derive(Default, Debug, Clone, Copy, PartialEq, Eq)]
pub enum ButtonEvent {
    #[default]
    Release,
    Press,
    Repeat,
}

/// The GLFW code of a [ButtonEvent].
pub open spec fn button_event_code(v: ButtonEvent) -> u32 {
    match v {
        ButtonEvent::Release => 0,
        ButtonEvent::Press => 1,
        ButtonEvent::Repeat => 2,
    }
}

/// The [ButtonEvent] that a GLFW code stands for, if any.
pub open spec fn button_event_from_code(code: u32) -> Option<ButtonEvent> {
    match code {
        0 => Some(ButtonEvent::Release),
        1 => Some(ButtonEvent::Press),
        2 => Some(ButtonEvent::Repeat),
        _ => None,
    }
}

impl ButtonEvent {
    /// Returns the GLFW code of this value.
    pub fn as_glfw(&self) -> (r: u32)
        ensures
            r == button_event_code(*self),
    {
        match self {
            ButtonEvent::Release => 0,
            ButtonEvent::Press => 1,
            ButtonEvent::Repeat => 2,
        }
    }

    /// Returns the value that the GLFW code `value` stands for, or `None`
    /// when it stands for none.
    pub fn from_glfw(value: u32) -> (r: Option<Self>)
        ensures
            r == button_event_from_code(value),
    {
        match value {
            0 => Some(ButtonEvent::Release),
            1 => Some(ButtonEvent::Press),
            2 => Some(ButtonEvent::Repeat),
            _ => None,
        }
    }
}

/// Every [ButtonEvent] is recognised again from its GLFW code, and a code is
/// recognised only as the value whose code it is.
pub proof fn lemma_button_event_code_round_trip(v: ButtonEvent, code: u32)
    ensures
        button_event_from_code(button_event_code(v)) == Some(v),
        button_event_from_code(code) matches Some(w) ==> button_event_code(w) == code,
{
}

/// A released button is [GLFW_RELEASE] and a pressed one [GLFW_PRESS], both ways.
pub proof fn lemma_button_state_glfw_names()
    ensures
        button_state_code(ButtonState::Release) == GLFW_RELEASE,
        button_state_code(ButtonState::Press) == GLFW_PRESS,
        button_state_from_code(GLFW_RELEASE) == Some(ButtonState::Release),
        button_state_from_code(GLFW_PRESS) == Some(ButtonState::Press),
{
}

/// A release is reported by GLFW as [GLFW_RELEASE], a press as [GLFW_PRESS] and
/// a key repeat as [GLFW_REPEAT], both ways.
pub proof fn lemma_button_event_glfw_names()
    ensures
        button_event_code(ButtonEvent::Release) == GLFW_RELEASE,
        button_event_code(ButtonEvent::Press) == GLFW_PRESS,
        button_event_code(ButtonEvent::Repeat) == GLFW_REPEAT,
        button_event_from_code(GLFW_RELEASE) == Some(ButtonEvent::Release),
        button_event_from_code(GLFW_PRESS) == Some(ButtonEvent::Press),
        button_event_from_code(GLFW_REPEAT) == Some(ButtonEvent::Repeat),
{
}

} // verus!
