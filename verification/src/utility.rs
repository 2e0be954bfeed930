//! The clipboard and the raw timer.
use vstd::prelude::*;

use crate::err::XErr;
use crate::system::exec::XWinMessage;
use crate::window::{reply_or, text_or_empty};

verus! {

/// Returns the contents of the system clipboard, if it holds or can be
/// converted to a UTF-8 string; an empty clipboard gives an empty string.
///
/// # Errors
/// Possible errors include [XErr::NotInitialized], [XErr::FormatUnavailable]
/// and [XErr::PlatformError].
pub fn try_clipboard_string<F: FnOnce(XWinMessage) -> Result<String, XErr>>(exec: F) -> (r: Result<String, XErr>)
    requires
        call_requires(exec, (XWinMessage::GetClipboardString,)),
    ensures
        call_ensures(exec, (XWinMessage::GetClipboardString,), r),
{
    exec(XWinMessage::GetClipboardString)
}

/// See [try_clipboard_string]; gives an empty string when GLFW reports an
/// error.
pub fn clipboard_string<F: FnOnce(XWinMessage) -> Result<String, XErr>>(exec: F) -> (r: String)
    requires
        call_requires(exec, (XWinMessage::GetClipboardString,)),
    ensures
        exists|reply| #[trigger] call_ensures(exec, (XWinMessage::GetClipboardString,), reply) && r@ == text_or_empty(reply),
{
    match try_clipboard_string(exec) {
        Ok(v) => v,
        Err(_) => String::new(),
    }
}

/// Sets the system clipboard to `value`.
///
/// # Errors
/// [XErr::InvalidValue] if `value` holds a null character, which the main
/// thread refuses. Other possible errors include [XErr::NotInitialized] and
/// [XErr::PlatformError].
pub fn try_set_clipboard_string<F: FnOnce(XWinMessage) -> Result<(), XErr>>(value: String, exec: F) -> (r: Result<(), XErr>)
    requires
        call_requires(exec, (XWinMessage::SetClipboardString(value),)),
    ensures
        call_ensures(exec, (XWinMessage::SetClipboardString(value),), r),
{
    exec(XWinMessage::SetClipboardString(value))
}

/// See [try_set_clipboard_string].
pub fn set_clipboard_string<F: FnOnce(XWinMessage) -> Result<(), XErr>>(value: String, exec: F)
    requires
        call_requires(exec, (XWinMessage::SetClipboardString(value),)),
    ensures
        exists|reply: Result<(), XErr>| #[trigger] call_ensures(exec, (XWinMessage::SetClipboardString(value),), reply),
{
    let _ = try_set_clipboard_string(value, exec);
}

/// Returns the frequency, in Hz, of the raw timer.
///
/// # Errors
/// Possible errors include [XErr::NotInitialized].
pub fn try_timer_frequency<F: FnOnce(XWinMessage) -> Result<u64, XErr>>(exec: F) -> (r: Result<u64, XErr>)
    requires
        call_requires(exec, (XWinMessage::GetTimerFrequency,)),
    ensures
        call_ensures(exec, (XWinMessage::GetTimerFrequency,), r),
{
    exec(XWinMessage::GetTimerFrequency)
}

/// See [try_timer_frequency]; gives `0` when GLFW reports an error.
pub fn timer_frequency<F: FnOnce(XWinMessage) -> Result<u64, XErr>>(exec: F) -> (r: u64)
    requires
        call_requires(exec, (XWinMessage::GetTimerFrequency,)),
    ensures
        exists|reply| #[trigger] call_ensures(exec, (XWinMessage::GetTimerFrequency,), reply) && r == reply_or(reply, 0u64),
{
    match try_timer_frequency(exec) {
        Ok(v) => v,
        Err(_) => 0,
    }
}

/// Returns the current value of the raw timer, in units of
/// 1 / [timer_frequency] seconds.
///
/// # Errors
/// Possible errors include [XErr::NotInitialized].
pub fn try_timer_value<F: FnOnce(XWinMessage) -> Result<u64, XErr>>(exec: F) -> (r: Result<u64, XErr>)
    requires
        call_requires(exec, (XWinMessage::GetTimerValue,)),
    ensures
        call_ensures(exec, (XWinMessage::GetTimerValue,), r),
{
    exec(XWinMessage::GetTimerValue)
}

/// See [try_timer_value]; gives `0` when GLFW reports an error.
pub fn timer_value<F: FnOnce(XWinMessage) -> Result<u64, XErr>>(exec: F) -> (r: u64)
    requires
        call_requires(exec, (XWinMessage::GetTimerValue,)),
    ensures
        exists|reply| #[trigger] call_ensures(exec, (XWinMessage::GetTimerValue,), reply) && r == reply_or(reply, 0u64),
{
    match try_timer_value(exec) {
        Ok(v) => v,
        Err(_) => 0,
    }
}

} // verus!
