//! The input state of a window: its input modes, the last state of its keys
//! and mouse buttons, and its cursor.
use vstd::prelude::*;

use crate::err::{XErr, is_unknown_error};
use crate::glfw::{
    GLFW_CURSOR, GLFW_LOCK_KEY_MODS, GLFW_MOUSE_PASSTHROUGH, GLFW_RAW_MOUSE_MOTION, GLFW_STICKY_KEYS,
    GLFW_STICKY_MOUSE_BUTTONS,
};
use crate::input::keyboard::{Key, key_code};
use crate::input::mouse::{Cursor, CursorMode, MouseButton, cursor_mode_code, cursor_mode_from_code, mouse_button_code};
use crate::input::{ButtonState, button_state_from_code};
use crate::system::exec::XWinMessage;
use crate::system::{glfw_bool, to_glfw_bool};
use crate::window::{Window, decode_flag, flag_or_false, flag_reply};

verus! {

/// The input side of a [Window], held by the handle of its GLFW window. Two
/// are equal when they belong to the same window.
#[derive(Debug, PartialEq, Eq)]
pub struct WindowInput {
    handle: usize,
}

impl View for WindowInput {
    type V = usize;

    closed spec fn view(&self) -> usize {
        self.handle
    }
}

/// Whether `r` is the button state that a GLFW reply stands for: the
/// state its code names, [XErr::Unknown] for a code that names no state, or
/// the reply's error.
pub open spec fn button_state_reply(r: Result<ButtonState, XErr>, reply: Result<i32, XErr>) -> bool {
    match reply {
        Ok(v) => match button_state_from_code(v as u32) {
            Some(s) => r == Ok::<ButtonState, XErr>(s),
            None => r matches Err(e) && is_unknown_error(e),
        },
        Err(e) => r == Err::<ButtonState, XErr>(e),
    }
}

/// Whether `r` is the cursor mode that a GLFW reply stands for: the mode
/// its code names, [XErr::Unknown] for a code that names no mode, or the
/// reply's error.
pub open spec fn cursor_mode_reply(r: Result<CursorMode, XErr>, reply: Result<i32, XErr>) -> bool {
    match reply {
        Ok(v) => match cursor_mode_from_code(v as u32) {
            Some(m) => r == Ok::<CursorMode, XErr>(m),
            None => r matches Err(e) && is_unknown_error(e),
        },
        Err(e) => r == Err::<CursorMode, XErr>(e),
    }
}

/// The value that a reply decodes to, or `default` when it decodes to an
/// error.
pub open spec fn decoded_or<T>(r: Result<T, XErr>, default: T) -> T {
    match r {
        Ok(v) => v,
        Err(_) => default,
    }
}

fn decode_button_state(reply: Result<i32, XErr>) -> (r: Result<ButtonState, XErr>)
    ensures
        button_state_reply(r, reply),
{
    match reply {
        Ok(v) => match ButtonState::from_glfw(v as u32) {
            Some(s) => Ok(s),
            None => Err(XErr::unknown()),
        },
        Err(e) => Err(e),
    }
}

impl WindowInput {
    /// The input side of `window`.
    pub(crate) fn new(window: &Window) -> (r: Self)
        ensures
            r@ == window@,
    {
        WindowInput { handle: window.as_glfw() }
    }

    /// Returns the handle of the GLFW window.
    pub fn as_glfw(&self) -> (r: usize)
        ensures
            r == self@,
    {
        self.handle
    }

    /// Returns whether mouse input passes through the window to what lies
    /// behind it.
    ///
    /// # Errors
    /// Possible errors include [XErr::NotInitialized].
    pub fn try_will_mouse_passthrough<F: FnOnce(XWinMessage) -> Result<i32, XErr>>(&self, exec: F) -> (r: Result<bool, XErr>)
        requires
            call_requires(exec, (XWinMessage::GetWindowAttribute(self@, GLFW_MOUSE_PASSTHROUGH as i32),)),
        ensures
            exists|reply| #[trigger] call_ensures(exec, (XWinMessage::GetWindowAttribute(self@, GLFW_MOUSE_PASSTHROUGH as i32),), reply) && flag_reply(r, reply),
    {
        let reply = exec(XWinMessage::GetWindowAttribute(self.handle, GLFW_MOUSE_PASSTHROUGH as i32));
        decode_flag(reply)
    }

    /// See [WindowInput::try_will_mouse_passthrough]; gives `false` when GLFW
    /// reports an error.
    pub fn will_mouse_passthrough<F: FnOnce(XWinMessage) -> Result<i32, XErr>>(&self, exec: F) -> (r: bool)
        requires
            call_requires(exec, (XWinMessage::GetWindowAttribute(self@, GLFW_MOUSE_PASSTHROUGH as i32),)),
        ensures
            exists|reply| #[trigger] call_ensures(exec, (XWinMessage::GetWindowAttribute(self@, GLFW_MOUSE_PASSTHROUGH as i32),), reply) && r == flag_or_false(reply),
    {
        match self.try_will_mouse_passthrough(exec) {
            Ok(v) => v,
            Err(_) => false,
        }
    }

    /// Sets whether mouse input passes through the window to what lies behind
    /// it.
    ///
    /// # Errors
    /// Possible errors include [XErr::NotInitialized], [XErr::InvalidEnum] and
    /// [XErr::PlatformError].
    pub fn try_set_mouse_passthrough<F: FnOnce(XWinMessage) -> Result<(), XErr>>(&mut self, value: bool, exec: F) -> (r: Result<(), XErr>)
        requires
            call_requires(exec, (XWinMessage::SetWindowAttribute(old(self)@, GLFW_MOUSE_PASSTHROUGH as i32, glfw_bool(value)),)),
        ensures
            call_ensures(exec, (XWinMessage::SetWindowAttribute(old(self)@, GLFW_MOUSE_PASSTHROUGH as i32, glfw_bool(value)),), r),
            final(self)@ == old(self)@,
    {
        exec(XWinMessage::SetWindowAttribute(self.handle, GLFW_MOUSE_PASSTHROUGH as i32, to_glfw_bool(value)))
    }

    /// See [WindowInput::try_set_mouse_passthrough].
    pub fn set_mouse_passthrough<F: FnOnce(XWinMessage) -> Result<(), XErr>>(&mut self, value: bool, exec: F)
        requires
            call_requires(exec, (XWinMessage::SetWindowAttribute(old(self)@, GLFW_MOUSE_PASSTHROUGH as i32, glfw_bool(value)),)),
        ensures
            exists|reply: Result<(), XErr>| #[trigger] call_ensures(exec, (XWinMessage::SetWindowAttribute(old(self)@, GLFW_MOUSE_PASSTHROUGH as i32, glfw_bool(value)),), reply),
            final(self)@ == old(self)@,
    {
        let _ = self.try_set_mouse_passthrough(value, exec);
    }

    /// Returns the cursor mode of the window.
    ///
    /// # Errors
    /// [XErr::Unknown] if GLFW gives a code that names no cursor mode. Other
    /// possible errors include [XErr::NotInitialized].
    pub fn try_cursor_mode<F: FnOnce(XWinMessage) -> Result<i32, XErr>>(&self, exec: F) -> (r: Result<CursorMode, XErr>)
        requires
            call_requires(exec, (XWinMessage::GetInputMode(self@, GLFW_CURSOR as i32),)),
        ensures
            exists|reply| #[trigger] call_ensures(exec, (XWinMessage::GetInputMode(self@, GLFW_CURSOR as i32),), reply) && cursor_mode_reply(r, reply),
    {
        let reply = exec(XWinMessage::GetInputMode(self.handle, GLFW_CURSOR as i32));
        match reply {
            Ok(v) => match CursorMode::from_glfw(v as u32) {
                Some(m) => Ok(m),
                None => Err(XErr::unknown()),
            },
            Err(e) => Err(e),
        }
    }

    /// See [WindowInput::try_cursor_mode]; gives [CursorMode::Normal] when
    /// the mode cannot be read.
    pub fn cursor_mode<F: FnOnce(XWinMessage) -> Result<i32, XErr>>(&self, exec: F) -> (r: CursorMode)
        requires
            call_requires(exec, (XWinMessage::GetInputMode(self@, GLFW_CURSOR as i32),)),
        ensures
            exists|reply, decoded|
                #[trigger] call_ensures(exec, (XWinMessage::GetInputMode(self@, GLFW_CURSOR as i32),), reply) && #[trigger] cursor_mode_reply(decoded, reply)
                && r == decoded_or(decoded, CursorMode::Normal),
    {
        match self.try_cursor_mode(exec) {
            Ok(v) => v,
            Err(_) => CursorMode::Normal,
        }
    }

    /// Sets the cursor mode of the window.
    ///
    /// # Errors
    /// Possible errors include [XErr::NotInitialized], [XErr::InvalidEnum] and
    /// [XErr::PlatformError].
    pub fn try_set_cursor_mode<F: FnOnce(XWinMessage) -> Result<(), XErr>>(&mut self, mode: CursorMode, exec: F) -> (r: Result<(), XErr>)
        requires
            call_requires(exec, (XWinMessage::SetInputMode(old(self)@, GLFW_CURSOR as i32, cursor_mode_code(mode) as i32),)),
        ensures
            call_ensures(exec, (XWinMessage::SetInputMode(old(self)@, GLFW_CURSOR as i32, cursor_mode_code(mode) as i32),), r),
            final(self)@ == old(self)@,
    {
        exec(XWinMessage::SetInputMode(self.handle, GLFW_CURSOR as i32, mode.as_glfw() as i32))
    }

    /// See [WindowInput::try_set_cursor_mode].
    pub fn set_cursor_mode<F: FnOnce(XWinMessage) -> Result<(), XErr>>(&mut self, mode: CursorMode, exec: F)
        requires
            call_requires(exec, (XWinMessage::SetInputMode(old(self)@, GLFW_CURSOR as i32, cursor_mode_code(mode) as i32),)),
        ensures
            exists|reply: Result<(), XErr>| #[trigger] call_ensures(exec, (XWinMessage::SetInputMode(old(self)@, GLFW_CURSOR as i32, cursor_mode_code(mode) as i32),), reply),
            final(self)@ == old(self)@,
    {
        let _ = self.try_set_cursor_mode(mode, exec);
    }

    /// Returns whether sticky keys are enabled: a key press is then kept as
    /// pressed until its state is polled.
    ///
    /// # Errors
    /// Possible errors include [XErr::NotInitialized] and [XErr::InvalidEnum].
    pub fn try_sticky_keys<F: FnOnce(XWinMessage) -> Result<i32, XErr>>(&self, exec: F) -> (r: Result<bool, XErr>)
        requires
            call_requires(exec, (XWinMessage::GetInputMode(self@, GLFW_STICKY_KEYS as i32),)),
        ensures
            exists|reply| #[trigger] call_ensures(exec, (XWinMessage::GetInputMode(self@, GLFW_STICKY_KEYS as i32),), reply) && flag_reply(r, reply),
    {
        let reply = exec(XWinMessage::GetInputMode(self.handle, GLFW_STICKY_KEYS as i32));
        decode_flag(reply)
    }

    /// See [WindowInput::try_sticky_keys]; gives `false` when GLFW reports an
    /// error.
    pub fn sticky_keys<F: FnOnce(XWinMessage) -> Result<i32, XErr>>(&self, exec: F) -> (r: bool)
        requires
            call_requires(exec, (XWinMessage::GetInputMode(self@, GLFW_STICKY_KEYS as i32),)),
        ensures
            exists|reply| #[trigger] call_ensures(exec, (XWinMessage::GetInputMode(self@, GLFW_STICKY_KEYS as i32),), reply) && r == flag_or_false(reply),
    {
        match self.try_sticky_keys(exec) {
            Ok(v) => v,
            Err(_) => false,
        }
    }

    /// Sets whether sticky keys are enabled.
    ///
    /// # Errors
    /// Possible errors include [XErr::NotInitialized], [XErr::InvalidEnum] and
    /// [XErr::PlatformError].
    pub fn try_set_sticky_keys<F: FnOnce(XWinMessage) -> Result<(), XErr>>(&mut self, value: bool, exec: F) -> (r: Result<(), XErr>)
        requires
            call_requires(exec, (XWinMessage::SetInputMode(old(self)@, GLFW_STICKY_KEYS as i32, glfw_bool(value)),)),
        ensures
            call_ensures(exec, (XWinMessage::SetInputMode(old(self)@, GLFW_STICKY_KEYS as i32, glfw_bool(value)),), r),
            final(self)@ == old(self)@,
    {
        exec(XWinMessage::SetInputMode(self.handle, GLFW_STICKY_KEYS as i32, to_glfw_bool(value)))
    }

    /// See [WindowInput::try_set_sticky_keys].
    pub fn set_sticky_keys<F: FnOnce(XWinMessage) -> Result<(), XErr>>(&mut self, value: bool, exec: F)
        requires
            call_requires(exec, (XWinMessage::SetInputMode(old(self)@, GLFW_STICKY_KEYS as i32, glfw_bool(value)),)),
        ensures
            exists|reply: Result<(), XErr>| #[trigger] call_ensures(exec, (XWinMessage::SetInputMode(old(self)@, GLFW_STICKY_KEYS as i32, glfw_bool(value)),), reply),
            final(self)@ == old(self)@,
    {
        let _ = self.try_set_sticky_keys(value, exec);
    }

    /// Returns whether sticky mouse buttons are enabled.
    ///
    /// # Errors
    /// Possible errors include [XErr::NotInitialized] and [XErr::InvalidEnum].
    pub fn try_sticky_mouse<F: FnOnce(XWinMessage) -> Result<i32, XErr>>(&self, exec: F) -> (r: Result<bool, XErr>)
        requires
            call_requires(exec, (XWinMessage::GetInputMode(self@, GLFW_STICKY_MOUSE_BUTTONS as i32),)),
        ensures
            exists|reply| #[trigger] call_ensures(exec, (XWinMessage::GetInputMode(self@, GLFW_STICKY_MOUSE_BUTTONS as i32),), reply) && flag_reply(r, reply),
    {
        let reply = exec(XWinMessage::GetInputMode(self.handle, GLFW_STICKY_MOUSE_BUTTONS as i32));
        decode_flag(reply)
    }

    /// See [WindowInput::try_sticky_mouse]; gives `false` when GLFW reports an
    /// error.
    pub fn sticky_mouse<F: FnOnce(XWinMessage) -> Result<i32, XErr>>(&self, exec: F) -> (r: bool)
        requires
            call_requires(exec, (XWinMessage::GetInputMode(self@, GLFW_STICKY_MOUSE_BUTTONS as i32),)),
        ensures
            exists|reply| #[trigger] call_ensures(exec, (XWinMessage::GetInputMode(self@, GLFW_STICKY_MOUSE_BUTTONS as i32),), reply) && r == flag_or_false(reply),
    {
        match self.try_sticky_mouse(exec) {
            Ok(v) => v,
            Err(_) => false,
        }
    }

    /// Sets whether sticky mouse buttons are enabled.
    ///
    /// # Errors
    /// Possible errors include [XErr::NotInitialized], [XErr::InvalidEnum] and
    /// [XErr::PlatformError].
    pub fn try_set_sticky_mouse<F: FnOnce(XWinMessage) -> Result<(), XErr>>(&mut self, value: bool, exec: F) -> (r: Result<(), XErr>)
        requires
            call_requires(exec, (XWinMessage::SetInputMode(old(self)@, GLFW_STICKY_MOUSE_BUTTONS as i32, glfw_bool(value)),)),
        ensures
            call_ensures(exec, (XWinMessage::SetInputMode(old(self)@, GLFW_STICKY_MOUSE_BUTTONS as i32, glfw_bool(value)),), r),
            final(self)@ == old(self)@,
    {
        exec(XWinMessage::SetInputMode(self.handle, GLFW_STICKY_MOUSE_BUTTONS as i32, to_glfw_bool(value)))
    }

    /// See [WindowInput::try_set_sticky_mouse].
    pub fn set_sticky_mouse<F: FnOnce(XWinMessage) -> Result<(), XErr>>(&mut self, value: bool, exec: F)
        requires
            call_requires(exec, (XWinMessage::SetInputMode(old(self)@, GLFW_STICKY_MOUSE_BUTTONS as i32, glfw_bool(value)),)),
        ensures
            exists|reply: Result<(), XErr>| #[trigger] call_ensures(exec, (XWinMessage::SetInputMode(old(self)@, GLFW_STICKY_MOUSE_BUTTONS as i32, glfw_bool(value)),), reply),
            final(self)@ == old(self)@,
    {
        let _ = self.try_set_sticky_mouse(value, exec);
    }

    /// Returns whether key events carry the state of Caps Lock and Num Lock.
    ///
    /// # Errors
    /// Possible errors include [XErr::NotInitialized] and [XErr::InvalidEnum].
    pub fn try_lock_key_mods<F: FnOnce(XWinMessage) -> Result<i32, XErr>>(&self, exec: F) -> (r: Result<bool, XErr>)
        requires
            call_requires(exec, (XWinMessage::GetInputMode(self@, GLFW_LOCK_KEY_MODS as i32),)),
        ensures
            exists|reply| #[trigger] call_ensures(exec, (XWinMessage::GetInputMode(self@, GLFW_LOCK_KEY_MODS as i32),), reply) && flag_reply(r, reply),
    {
        let reply = exec(XWinMessage::GetInputMode(self.handle, GLFW_LOCK_KEY_MODS as i32));
        decode_flag(reply)
    }

    /// See [WindowInput::try_lock_key_mods]; gives `false` when GLFW reports an
    /// error.
    pub fn lock_key_mods<F: FnOnce(XWinMessage) -> Result<i32, XErr>>(&self, exec: F) -> (r: bool)
        requires
            call_requires(exec, (XWinMessage::GetInputMode(self@, GLFW_LOCK_KEY_MODS as i32),)),
        ensures
            exists|reply| #[trigger] call_ensures(exec, (XWinMessage::GetInputMode(self@, GLFW_LOCK_KEY_MODS as i32),), reply) && r == flag_or_false(reply),
    {
        match self.try_lock_key_mods(exec) {
            Ok(v) => v,
            Err(_) => false,
        }
    }

    /// Sets whether key events carry the state of Caps Lock and Num Lock.
    ///
    /// # Errors
    /// Possible errors include [XErr::NotInitialized], [XErr::InvalidEnum] and
    /// [XErr::PlatformError].
    pub fn try_set_lock_key_mods<F: FnOnce(XWinMessage) -> Result<(), XErr>>(&mut self, value: bool, exec: F) -> (r: Result<(), XErr>)
        requires
            call_requires(exec, (XWinMessage::SetInputMode(old(self)@, GLFW_LOCK_KEY_MODS as i32, glfw_bool(value)),)),
        ensures
            call_ensures(exec, (XWinMessage::SetInputMode(old(self)@, GLFW_LOCK_KEY_MODS as i32, glfw_bool(value)),), r),
            final(self)@ == old(self)@,
    {
        exec(XWinMessage::SetInputMode(self.handle, GLFW_LOCK_KEY_MODS as i32, to_glfw_bool(value)))
    }

    /// See [WindowInput::try_set_lock_key_mods].
    pub fn set_lock_key_mods<F: FnOnce(XWinMessage) -> Result<(), XErr>>(&mut self, value: bool, exec: F)
        requires
            call_requires(exec, (XWinMessage::SetInputMode(old(self)@, GLFW_LOCK_KEY_MODS as i32, glfw_bool(value)),)),
        ensures
            exists|reply: Result<(), XErr>| #[trigger] call_ensures(exec, (XWinMessage::SetInputMode(old(self)@, GLFW_LOCK_KEY_MODS as i32, glfw_bool(value)),), reply),
            final(self)@ == old(self)@,
    {
        let _ = self.try_set_lock_key_mods(value, exec);
    }

    /// Returns whether raw (unscaled and unaccelerated) mouse motion is enabled.
    ///
    /// # Errors
    /// Possible errors include [XErr::NotInitialized] and [XErr::InvalidEnum].
    pub fn try_raw_mouse_motion<F: FnOnce(XWinMessage) -> Result<i32, XErr>>(&self, exec: F) -> (r: Result<bool, XErr>)
        requires
            call_requires(exec, (XWinMessage::GetInputMode(self@, GLFW_RAW_MOUSE_MOTION as i32),)),
        ensures
            exists|reply| #[trigger] call_ensures(exec, (XWinMessage::GetInputMode(self@, GLFW_RAW_MOUSE_MOTION as i32),), reply) && flag_reply(r, reply),
    {
        let reply = exec(XWinMessage::GetInputMode(self.handle, GLFW_RAW_MOUSE_MOTION as i32));
        decode_flag(reply)
    }

    /// See [WindowInput::try_raw_mouse_motion]; gives `false` when GLFW reports an
    /// error.
    pub fn raw_mouse_motion<F: FnOnce(XWinMessage) -> Result<i32, XErr>>(&self, exec: F) -> (r: bool)
        requires
            call_requires(exec, (XWinMessage::GetInputMode(self@, GLFW_RAW_MOUSE_MOTION as i32),)),
        ensures
            exists|reply| #[trigger] call_ensures(exec, (XWinMessage::GetInputMode(self@, GLFW_RAW_MOUSE_MOTION as i32),), reply) && r == flag_or_false(reply),
    {
        match self.try_raw_mouse_motion(exec) {
            Ok(v) => v,
            Err(_) => false,
        }
    }

    /// Sets whether raw (unscaled and unaccelerated) mouse motion is enabled,
    /// where the platform supports it.
    ///
    /// # Errors
    /// Possible errors include [XErr::NotInitialized], [XErr::InvalidEnum] and
    /// [XErr::PlatformError].
    pub fn try_set_raw_mouse_motion<F: FnOnce(XWinMessage) -> Result<(), XErr>>(&mut self, value: bool, exec: F) -> (r: Result<(), XErr>)
        requires
            call_requires(exec, (XWinMessage::SetInputMode(old(self)@, GLFW_RAW_MOUSE_MOTION as i32, glfw_bool(value)),)),
        ensures
            call_ensures(exec, (XWinMessage::SetInputMode(old(self)@, GLFW_RAW_MOUSE_MOTION as i32, glfw_bool(value)),), r),
            final(self)@ == old(self)@,
    {
        exec(XWinMessage::SetInputMode(self.handle, GLFW_RAW_MOUSE_MOTION as i32, to_glfw_bool(value)))
    }

    /// See [WindowInput::try_set_raw_mouse_motion].
    pub fn set_raw_mouse_motion<F: FnOnce(XWinMessage) -> Result<(), XErr>>(&mut self, value: bool, exec: F)
        requires
            call_requires(exec, (XWinMessage::SetInputMode(old(self)@, GLFW_RAW_MOUSE_MOTION as i32, glfw_bool(value)),)),
        ensures
            exists|reply: Result<(), XErr>| #[trigger] call_ensures(exec, (XWinMessage::SetInputMode(old(self)@, GLFW_RAW_MOUSE_MOTION as i32, glfw_bool(value)),), reply),
            final(self)@ == old(self)@,
    {
        let _ = self.try_set_raw_mouse_motion(value, exec);
    }

    /// Returns the last state reported for the key to the window.
    ///
    /// # Errors
    /// [XErr::Unknown] if GLFW gives a code that names no state. Other
    /// possible errors include [XErr::NotInitialized] and
    /// [XErr::InvalidEnum].
    pub fn try_key_state<F: FnOnce(XWinMessage) -> Result<i32, XErr>>(&self, key: Key, exec: F) -> (r: Result<ButtonState, XErr>)
        requires
            call_requires(exec, (XWinMessage::GetKey(self@, key_code(key) as i32),)),
        ensures
            exists|reply| #[trigger] call_ensures(exec, (XWinMessage::GetKey(self@, key_code(key) as i32),), reply) && button_state_reply(r, reply),
    {
        let reply = exec(XWinMessage::GetKey(self.handle, key.as_glfw() as i32));
        decode_button_state(reply)
    }

    /// See [WindowInput::try_key_state]; gives [ButtonState::Release] when the
    /// state cannot be read.
    pub fn key_state<F: FnOnce(XWinMessage) -> Result<i32, XErr>>(&self, key: Key, exec: F) -> (r: ButtonState)
        requires
            call_requires(exec, (XWinMessage::GetKey(self@, key_code(key) as i32),)),
        ensures
            exists|reply, decoded|
                #[trigger] call_ensures(exec, (XWinMessage::GetKey(self@, key_code(key) as i32),), reply) && #[trigger] button_state_reply(decoded, reply)
                && r == decoded_or(decoded, ButtonState::Release),
    {
        match self.try_key_state(key, exec) {
            Ok(v) => v,
            Err(_) => ButtonState::Release,
        }
    }

    /// Returns the last state reported for the mouse button to the window.
    ///
    /// # Errors
    /// [XErr::Unknown] if GLFW gives a code that names no state. Other
    /// possible errors include [XErr::NotInitialized] and
    /// [XErr::InvalidEnum].
    pub fn try_mouse_state<F: FnOnce(XWinMessage) -> Result<i32, XErr>>(&self, button: MouseButton, exec: F) -> (r: Result<ButtonState, XErr>)
        requires
            call_requires(exec, (XWinMessage::GetMouseButton(self@, mouse_button_code(button) as i32),)),
        ensures
            exists|reply| #[trigger] call_ensures(exec, (XWinMessage::GetMouseButton(self@, mouse_button_code(button) as i32),), reply) && button_state_reply(r, reply),
    {
        let reply = exec(XWinMessage::GetMouseButton(self.handle, button.as_glfw() as i32));
        decode_button_state(reply)
    }

    /// See [WindowInput::try_mouse_state]; gives [ButtonState::Release] when the
    /// state cannot be read.
    pub fn mouse_state<F: FnOnce(XWinMessage) -> Result<i32, XErr>>(&self, button: MouseButton, exec: F) -> (r: ButtonState)
        requires
            call_requires(exec, (XWinMessage::GetMouseButton(self@, mouse_button_code(button) as i32),)),
        ensures
            exists|reply, decoded|
                #[trigger] call_ensures(exec, (XWinMessage::GetMouseButton(self@, mouse_button_code(button) as i32),), reply) && #[trigger] button_state_reply(decoded, reply)
                && r == decoded_or(decoded, ButtonState::Release),
    {
        match self.try_mouse_state(button, exec) {
            Ok(v) => v,
            Err(_) => ButtonState::Release,
        }
    }

    /// Sets the cursor image used when the cursor is over the content area of
    /// the window.
    ///
    /// # Errors
    /// Possible errors include [XErr::NotInitialized] and [XErr::PlatformError].
    pub fn try_set_cursor<F: FnOnce(XWinMessage) -> Result<(), XErr>>(&mut self, cursor: Cursor, exec: F) -> (r: Result<(), XErr>)
        requires
            call_requires(exec, (XWinMessage::SetCursor(old(self)@, cursor@),)),
        ensures
            call_ensures(exec, (XWinMessage::SetCursor(old(self)@, cursor@),), r),
            final(self)@ == old(self)@,
    {
        exec(XWinMessage::SetCursor(self.handle, cursor.as_glfw()))
    }

    /// See [WindowInput::try_set_cursor].
    pub fn set_cursor<F: FnOnce(XWinMessage) -> Result<(), XErr>>(&mut self, cursor: Cursor, exec: F)
        requires
            call_requires(exec, (XWinMessage::SetCursor(old(self)@, cursor@),)),
        ensures
            exists|reply: Result<(), XErr>| #[trigger] call_ensures(exec, (XWinMessage::SetCursor(old(self)@, cursor@),), reply),
            final(self)@ == old(self)@,
    {
        let _ = self.try_set_cursor(cursor, exec);
    }
}

} // verus!
