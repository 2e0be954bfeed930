//! The messages that carry operations to GLFW's main thread.
//!
//! Each variant names one GLFW call (or a short fixed sequence of them) and
//! its arguments. Windows, monitors and cursors travel as the integer handles
//! of their GLFW objects. The main thread answers each message with the
//! call's result or the error GLFW reported.
use vstd::prelude::*;

use crate::system::ScreenCoordinates;
use crate::system::image::Image;
use crate::input::mouse::CursorShape;
use crate::monitor::GammaRamp;
use crate::window::builder::{WindowBuilder, contains_nul};
use crate::err::{XErr, is_error_for_code};
use crate::glfw::GLFW_NO_ERROR;
use vstd::string::StringExecFns;

verus! {

/// A request for GLFW's main thread.
#[derive(Debug, Clone, PartialEq, Eq)]
pub enum XWinMessage {
    /// Stop the main loop and terminate GLFW.
    Terminate,
    // Monitor
    GetMonitors,
    GetPrimaryMonitor,
    GetMonitorPos(usize),
    GetMonitorWorkArea(usize),
    GetMonitorPhysicalSize(usize),
    GetMonitorName(usize),
    SetMonitorUserdata(usize, usize),
    GetMonitorUserdata(usize),
    GetMonitorVideoModes(usize),
    GetMonitorVideoMode(usize),
    GammaRamp(usize),
    SetGammaRamp(usize, GammaRamp),
    // Window
    CreateWindow {
        width: i32,
        height: i32,
        title: String,
        monitor: Option<usize>,
        builder: Option<WindowBuilder>,
    },
    DestroyWindow(usize),
    GetWindowShouldClose(usize),
    SetWindowShouldClose(usize, i32),
    GetWindowTitle(usize),
    SetWindowTitle(usize, String),
    SetWindowIcon(usize, Vec<Image>),
    GetWindowPos(usize),
    SetWindowPos(usize, ScreenCoordinates),
    GetWindowSize(usize),
    SetWindowSizeLimits { window: usize, min: ScreenCoordinates, max: ScreenCoordinates },
    SetWindowAspectRatio { window: usize, numerator: i32, denominator: i32 },
    SetWindowSize(usize, ScreenCoordinates),
    GetFrameBufferSize(usize),
    GetWindowFrameSize(usize),
    IconifyWindow(usize),
    RestoreWindow(usize),
    MaximizeWindow(usize),
    ShowWindow(usize),
    HideWindow(usize),
    FocusWindow(usize),
    RequestWindowAttention(usize),
    GetWindowMonitor(usize),
    SetWindowFullscreen { window: usize, monitor: usize, size: ScreenCoordinates, refresh_rate: i32 },
    SetWindowWindowed { window: usize, position: ScreenCoordinates, size: ScreenCoordinates },
    GetWindowAttribute(usize, i32),
    SetWindowAttribute(usize, i32, i32),
    // Input
    CreateCursor(CursorShape),
    DestroyCursor(usize),
    GetInputMode(usize, i32),
    SetInputMode(usize, i32, i32),
    RawMouseSupported,
    GetKeyName(i32, i32),
    GetKey(usize, i32),
    GetMouseButton(usize, i32),
    SetCursor(usize, usize),
    SetClipboardString(String),
    GetClipboardString,
    GetTimerFrequency,
    GetTimerValue,
    // Gamepad
    JoystickPresent(i32),
    JoystickButtons(i32),
    JoystickHats(i32),
    JoystickName(i32),
    JoystickGuid(i32),
    JoystickIsGamepad(i32),
    UpdateGamepadMappings(String),
    GetGamepadName(i32),
}

/// Checks for an error after a GLFW call on the main thread, given the code
/// and description that `glfwGetError` returned: `None` when there was no
/// error, else the error, which is then the call's reply.
pub fn check_err(code: u32, msg: String) -> (r: Option<XErr>)
    ensures
        code == GLFW_NO_ERROR ==> r is None,
        code != GLFW_NO_ERROR ==> (r matches Some(e) && is_error_for_code(e, code, msg)),
{
    if code == GLFW_NO_ERROR {
        None
    } else {
        Some(XErr::from_code(code, msg))
    }
}

/// Whether `e` is the error for a window title with a null character.
pub open spec fn is_nul_window_title_error(e: XErr) -> bool {
    e matches XErr::InvalidValue(m) && m@ == "Window title may not contain null bytes"@
}

/// Sets a window's title on the main thread: a title with a null
/// character, which GLFW cannot take, is refused; any other is handed to
/// `set` (`glfwSetWindowTitle`), whose reported error is the reply.
pub fn set_window_title<F: FnOnce(&str) -> Result<(), XErr>>(title: &str, set: F) -> (r: Result<(), XErr>)
    requires
        call_requires(set, (title,)),
    ensures
        title@.contains('\0') ==> (r matches Err(e) && is_nul_window_title_error(e)),
        !title@.contains('\0') ==> call_ensures(set, (title,), r),
{
    if contains_nul(title) {
        Err(XErr::InvalidValue(String::from_str("Window title may not contain null bytes")))
    } else {
        set(title)
    }
}

/// Whether `e` is the error for a clipboard string with a null character.
pub open spec fn is_nul_clipboard_error(e: XErr) -> bool {
    e matches XErr::InvalidValue(m) && m@ == "Clipboard string may not contain null bytes"@
}

/// Sets the clipboard on the main thread: a string with a null character,
/// which GLFW cannot take, is refused with [XErr::InvalidValue]; any other is
/// handed to `set` (`glfwSetClipboardString`), whose reported error is the
/// reply. Either way the caller gets a reply.
pub fn set_clipboard_string<F: FnOnce(&str) -> Result<(), XErr>>(value: &str, set: F) -> (r: Result<(), XErr>)
    requires
        call_requires(set, (value,)),
    ensures
        value@.contains('\0') ==> (r matches Err(e) && is_nul_clipboard_error(e)),
        !value@.contains('\0') ==> call_ensures(set, (value,), r),
{
    if contains_nul(value) {
        Err(XErr::InvalidValue(String::from_str("Clipboard string may not contain null bytes")))
    } else {
        set(value)
    }
}

/// Updates the gamepad mappings on the main thread: mappings with a null
/// character, which GLFW cannot take, are ignored and the reply is `Ok`;
/// any others are handed to `update` (`glfwUpdateGamepadMappings`), whose
/// reported error is the reply.
pub fn update_gamepad_mappings<F: FnOnce(&str) -> Result<(), XErr>>(mappings: &str, update: F) -> (r: Result<(), XErr>)
    requires
        call_requires(update, (mappings,)),
    ensures
        mappings@.contains('\0') ==> r is Ok,
        !mappings@.contains('\0') ==> call_ensures(update, (mappings,), r),
{
    if contains_nul(mappings) {
        Ok(())
    } else {
        update(mappings)
    }
}

} // verus!
