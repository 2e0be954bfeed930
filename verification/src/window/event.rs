//! Key and mouse button events reported for a window, decoded from the
//! values that GLFW hands its callbacks.
use vstd::prelude::*;

use crate::input::keyboard::{Key, Modifier, key_code, key_from_code, lemma_key_code_round_trip};
use crate::input::mouse::{MouseButton, lemma_mouse_button_code_round_trip, mouse_button_code, mouse_button_from_code};
use crate::input::{
    ButtonEvent, ButtonState, button_event_code, button_event_from_code, button_state_code, button_state_from_code,
    lemma_button_event_code_round_trip, lemma_button_state_code_round_trip,
};

verus! {

/// A key was pressed, repeated or released while the window had focus.
#[derive(Debug, Clone, Copy, PartialEq, Eq)]
pub struct KeyEvent {
    key: Key,
    scancode: i32,
    action: ButtonEvent,
    mods: Modifier,
}

/// The parts of a [KeyEvent]: the key, its platform scancode, the action and
/// the modifier bits held.
pub struct KeyEventView {
    pub key: Key,
    pub scancode: i32,
    pub action: ButtonEvent,
    pub mods: u8,
}

impl View for KeyEvent {
    type V = KeyEventView;

    closed spec fn view(&self) -> KeyEventView {
        KeyEventView { key: self.key, scancode: self.scancode, action: self.action, mods: self.mods@ }
    }
}

/// The key event that GLFW's key callback reports with these values, if the
/// key and the action codes name a key and an action.
pub open spec fn key_event_from_glfw(key: i32, scancode: i32, action: i32, mods: i32) -> Option<KeyEventView> {
    match (key_from_code(key as u32), button_event_from_code(action as u32)) {
        (Some(k), Some(a)) => Some(KeyEventView { key: k, scancode, action: a, mods: mods as u8 }),
        _ => None,
    }
}

impl KeyEvent {
    /// Decodes the values that GLFW's key callback reports. Returns `None`
    /// when the key code names no [Key] (GLFW reports keys it cannot name
    /// with the code `-1`) or the action code names no [ButtonEvent].
    pub fn from_glfw(key: i32, scancode: i32, action: i32, mods: i32) -> (r: Option<Self>)
        ensures
            match (r, key_event_from_glfw(key, scancode, action, mods)) {
                (Some(e), Some(v)) => e@ == v,
                (None, None) => true,
                _ => false,
            },
    {
        match (Key::from_glfw(key as u32), ButtonEvent::from_glfw(action as u32)) {
            (Some(k), Some(a)) => Some(KeyEvent { key: k, scancode, action: a, mods: Modifier::from_glfw(mods) }),
            _ => None,
        }
    }

    /// The key that the event is about.
    pub fn key(&self) -> (r: Key)
        ensures
            r == self@.key,
    {
        self.key
    }

    /// The platform-specific scancode of the key.
    pub fn scancode(&self) -> (r: i32)
        ensures
            r == self@.scancode,
    {
        self.scancode
    }

    /// Whether the key was pressed, repeated or released.
    pub fn action(&self) -> (r: ButtonEvent)
        ensures
            r == self@.action,
    {
        self.action
    }

    /// The modifier keys held when the event happened.
    pub fn mods(&self) -> (r: Modifier)
        ensures
            r@ == self@.mods,
    {
        self.mods
    }
}

/// A mouse button was pressed or released over the window.
#[derive(Debug, Clone, Copy, PartialEq, Eq)]
pub struct MouseButtonEvent {
    button: MouseButton,
    action: ButtonState,
    mods: Modifier,
}

/// The parts of a [MouseButtonEvent]: the button, its new state and the
/// modifier bits held.
pub struct MouseButtonEventView {
    pub button: MouseButton,
    pub action: ButtonState,
    pub mods: u8,
}

impl View for MouseButtonEvent {
    type V = MouseButtonEventView;

    closed spec fn view(&self) -> MouseButtonEventView {
        MouseButtonEventView { button: self.button, action: self.action, mods: self.mods@ }
    }
}

/// The mouse button event that GLFW's mouse button callback reports with
/// these values, if the button and the action codes name a button and a
/// state.
pub open spec fn mouse_button_event_from_glfw(button: i32, action: i32, mods: i32) -> Option<MouseButtonEventView> {
    match (mouse_button_from_code(button as u32), button_state_from_code(action as u32)) {
        (Some(b), Some(a)) => Some(MouseButtonEventView { button: b, action: a, mods: mods as u8 }),
        _ => None,
    }
}

impl MouseButtonEvent {
    /// Decodes the values that GLFW's mouse button callback reports. Returns
    /// `None` when the button code names no [MouseButton] or the action code
    /// names no [ButtonState].
    pub fn from_glfw(button: i32, action: i32, mods: i32) -> (r: Option<Self>)
        ensures
            match (r, mouse_button_event_from_glfw(button, action, mods)) {
                (Some(e), Some(v)) => e@ == v,
                (None, None) => true,
                _ => false,
            },
    {
        match (MouseButton::from_glfw(button as u32), ButtonState::from_glfw(action as u32)) {
            (Some(b), Some(a)) => Some(MouseButtonEvent { button: b, action: a, mods: Modifier::from_glfw(mods) }),
            _ => None,
        }
    }

    /// The mouse button that the event is about.
    pub fn button(&self) -> (r: MouseButton)
        ensures
            r == self@.button,
    {
        self.button
    }

    /// Whether the button was pressed or released.
    pub fn action(&self) -> (r: ButtonState)
        ensures
            r == self@.action,
    {
        self.action
    }

    /// The modifier keys held when the event happened.
    pub fn mods(&self) -> (r: Modifier)
        ensures
            r@ == self@.mods,
    {
        self.mods
    }
}

/// A key event is decoded again from the codes GLFW reports for it: its
/// key's code, its scancode, its action's code and its modifier bits.
pub proof fn lemma_key_event_round_trip(key: Key, scancode: i32, action: ButtonEvent, mods: u8)
    ensures
        key_event_from_glfw(key_code(key) as i32, scancode, button_event_code(action) as i32, mods as i32)
            == Some(KeyEventView { key, scancode, action, mods }),
{
    lemma_key_code_round_trip(key, 0);
    lemma_button_event_code_round_trip(action, 0);
    assert((key_code(key) as i32) as u32 == key_code(key));
    assert((button_event_code(action) as i32) as u32 == button_event_code(action));
    assert((mods as i32) as u8 == mods) by (bit_vector);
}

/// A mouse button event is decoded again from the codes GLFW reports for
/// it: its button's code, its action's code and its modifier bits.
pub proof fn lemma_mouse_button_event_round_trip(button: MouseButton, action: ButtonState, mods: u8)
    ensures
        mouse_button_event_from_glfw(mouse_button_code(button) as i32, button_state_code(action) as i32, mods as i32)
            == Some(MouseButtonEventView { button, action, mods }),
{
    lemma_mouse_button_code_round_trip(button, 0);
    lemma_button_state_code_round_trip(action, 0);
    assert((mouse_button_code(button) as i32) as u32 == mouse_button_code(button));
    assert((button_state_code(action) as i32) as u32 == button_state_code(action));
    assert((mods as i32) as u8 == mods) by (bit_vector);
}

} // verus!
