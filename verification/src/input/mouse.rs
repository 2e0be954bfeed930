//! Mouse buttons, cursor shapes, cursor modes and cursors.
use vstd::prelude::*;

use crate::system::Pixels;
use crate::system::exec::XWinMessage;
use crate::system::image::Image;
use crate::err::XErr;
use crate::glfw::{
    GLFW_ARROW_CURSOR, GLFW_CROSSHAIR_CURSOR, GLFW_IBEAM_CURSOR, GLFW_NOT_ALLOWED_CURSOR,
    GLFW_POINTING_HAND_CURSOR, GLFW_RESIZE_ALL_CURSOR, GLFW_RESIZE_EW_CURSOR, GLFW_RESIZE_NESW_CURSOR,
    GLFW_RESIZE_NS_CURSOR, GLFW_RESIZE_NWSE_CURSOR,
};

use crate::glfw::{
    GLFW_MOUSE_BUTTON_4,
    GLFW_MOUSE_BUTTON_5,
    GLFW_MOUSE_BUTTON_6,
    GLFW_MOUSE_BUTTON_7,
    GLFW_MOUSE_BUTTON_8,
    GLFW_MOUSE_BUTTON_LEFT,
    GLFW_MOUSE_BUTTON_MIDDLE,
    GLFW_MOUSE_BUTTON_RIGHT,
};

use crate::glfw::{
    GLFW_CURSOR_CAPTURED,
    GLFW_CURSOR_DISABLED,
    GLFW_CURSOR_HIDDEN,
    GLFW_CURSOR_NORMAL,
};

verus! {

/// A mouse button.
#[derive(Debug, Clone, Copy, PartialEq, Eq)]
pub enum MouseButton {
    Left,
    Right,
    Middle,
    Four,
    Five,
    Six,
    Seven,
    Eight,
}

/// The GLFW code of a [MouseButton].
pub open spec fn mouse_button_code(v: MouseButton) -> u32 {
    match v {
        MouseButton::Left => 0,
        MouseButton::Right => 1,
        MouseButton::Middle => 2,
        MouseButton::Four => 3,
        MouseButton::Five => 4,
        MouseButton::Six => 5,
        MouseButton::Seven => 6,
        MouseButton::Eight => 7,
    }
}

/// The [MouseButton] that a GLFW code stands for, if any.
pub open spec fn mouse_button_from_code(code: u32) -> Option<MouseButton> {
    match code {
        0 => Some(MouseButton::Left),
        1 => Some(MouseButton::Right),
        2 => Some(MouseButton::Middle),
        3 => Some(MouseButton::Four),
        4 => Some(MouseButton::Five),
        5 => Some(MouseButton::Six),
        6 => Some(MouseButton::Seven),
        7 => Some(MouseButton::Eight),
        _ => None,
    }
}

impl MouseButton {
    /// Returns the GLFW code of this value.
    pub fn as_glfw(&self) -> (r: u32)
        ensures
            r == mouse_button_code(*self),
    {
        match self {
            MouseButton::Left => 0,
            MouseButton::Right => 1,
            MouseButton::Middle => 2,
            MouseButton::Four => 3,
            MouseButton::Five => 4,
            MouseButton::Six => 5,
            MouseButton::Seven => 6,
            MouseButton::Eight => 7,
        }
    }

    /// Returns the value that the GLFW code `value` stands for, or `None`
    /// when it stands for none.
    pub fn from_glfw(value: u32) -> (r: Option<Self>)
        ensures
            r == mouse_button_from_code(value),
    {
        match value {
            0 => Some(MouseButton::Left),
            1 => Some(MouseButton::Right),
            2 => Some(MouseButton::Middle),
            3 => Some(MouseButton::Four),
            4 => Some(MouseButton::Five),
            5 => Some(MouseButton::Six),
            6 => Some(MouseButton::Seven),
            7 => Some(MouseButton::Eight),
            _ => None,
        }
    }
}

/// Every [MouseButton] is recognised again from its GLFW code, and a code is
/// recognised only as the value whose code it is.
pub proof fn lemma_mouse_button_code_round_trip(v: MouseButton, code: u32)
    ensures
        mouse_button_from_code(mouse_button_code(v)) == Some(v),
        mouse_button_from_code(code) matches Some(w) ==> mouse_button_code(w) == code,
{
}

/// How the cursor behaves over a window: normal, hidden while over the
/// window, hidden and locked to the window, or confined to the window.
#[derive(Default, Debug, Clone, Copy, PartialEq, Eq)]
pub enum CursorMode {
    #[default]
    Normal,
    Hidden,
    Disabled,
    Captured,
}

/// The GLFW code of a [CursorMode].
pub open spec fn cursor_mode_code(v: CursorMode) -> u32 {
    match v {
        CursorMode::Normal => 0x00034001,
        CursorMode::Hidden => 0x00034002,
        CursorMode::Disabled => 0x00034003,
        CursorMode::Captured => 0x00034004,
    }
}

/// The [CursorMode] that a GLFW code stands for, if any.
pub open spec fn cursor_mode_from_code(code: u32) -> Option<CursorMode> {
    match code {
        0x00034001 => Some(CursorMode::Normal),
        0x00034002 => Some(CursorMode::Hidden),
        0x00034003 => Some(CursorMode::Disabled),
        0x00034004 => Some(CursorMode::Captured),
        _ => None,
    }
}

impl CursorMode {
    /// Returns the GLFW code of this value.
    pub fn as_glfw(&self) -> (r: u32)
        ensures
            r == cursor_mode_code(*self),
    {
        match self {
            CursorMode::Normal => 0x00034001,
            CursorMode::Hidden => 0x00034002,
            CursorMode::Disabled => 0x00034003,
            CursorMode::Captured => 0x00034004,
        }
    }

    /// Returns the value that the GLFW code `value` stands for, or `None`
    /// when it stands for none.
    pub fn from_glfw(value: u32) -> (r: Option<Self>)
        ensures
            r == cursor_mode_from_code(value),
    {
        match value {
            0x00034001 => Some(CursorMode::Normal),
            0x00034002 => Some(CursorMode::Hidden),
            0x00034003 => Some(CursorMode::Disabled),
            0x00034004 => Some(CursorMode::Captured),
            _ => None,
        }
    }
}

/// Every [CursorMode] is recognised again from its GLFW code, and a code is
/// recognised only as the value whose code it is.
pub proof fn lemma_cursor_mode_code_round_trip(v: CursorMode, code: u32)
    ensures
        cursor_mode_from_code(cursor_mode_code(v)) == Some(v),
        cursor_mode_from_code(code) matches Some(w) ==> cursor_mode_code(w) == code,
{
}

/// The shape of a cursor: one of the standard shapes, or a custom image.
#[derive(Debug, Clone, PartialEq, Eq)]
pub enum CursorShape {
    /// Standard arrow cursor
    Arrow,
    /// Text input I-beam cursor
    IBeam,
    /// Crosshair cursor
    Crosshair,
    /// Pointing hand cursor
    PointingHand,
    /// Horizontal resize/move arrow cursor
    ResizeHorizontal,
    /// Vertical resize/move arrow cursor
    ResizeVertical,
    /// Top-left to bottom-right resize/move arrow cursor
    ResizeTopLeft,
    /// Top-right to bottom-left resize/move arrow cursor
    ResizeTopRight,
    /// Omni-directional resize/move cursor
    ResizeAll,
    /// Operation-not-allowed cursor
    NotAllowed,
    /// Custom cursor image, with its hotspot in pixels relative to the
    /// upper-left corner of the image.
    Custom(Image, Pixels),
}

/// The GLFW code of a standard cursor shape; a custom shape has none.
pub open spec fn standard_cursor_code(shape: CursorShape) -> Option<u32> {
    match shape {
        CursorShape::Arrow => Some(GLFW_ARROW_CURSOR),
        CursorShape::IBeam => Some(GLFW_IBEAM_CURSOR),
        CursorShape::Crosshair => Some(GLFW_CROSSHAIR_CURSOR),
        CursorShape::PointingHand => Some(GLFW_POINTING_HAND_CURSOR),
        CursorShape::ResizeHorizontal => Some(GLFW_RESIZE_EW_CURSOR),
        CursorShape::ResizeVertical => Some(GLFW_RESIZE_NS_CURSOR),
        CursorShape::ResizeTopLeft => Some(GLFW_RESIZE_NWSE_CURSOR),
        CursorShape::ResizeTopRight => Some(GLFW_RESIZE_NESW_CURSOR),
        CursorShape::ResizeAll => Some(GLFW_RESIZE_ALL_CURSOR),
        CursorShape::NotAllowed => Some(GLFW_NOT_ALLOWED_CURSOR),
        CursorShape::Custom(_, _) => None,
    }
}

impl CursorShape {
    /// Returns the GLFW code of a standard cursor shape, with which the main
    /// thread creates a standard cursor; a custom shape has none and is made
    /// from its image instead.
    pub fn standard_code(&self) -> (r: Option<u32>)
        ensures
            r == standard_cursor_code(*self),
    {
        match self {
            CursorShape::Arrow => Some(GLFW_ARROW_CURSOR),
            CursorShape::IBeam => Some(GLFW_IBEAM_CURSOR),
            CursorShape::Crosshair => Some(GLFW_CROSSHAIR_CURSOR),
            CursorShape::PointingHand => Some(GLFW_POINTING_HAND_CURSOR),
            CursorShape::ResizeHorizontal => Some(GLFW_RESIZE_EW_CURSOR),
            CursorShape::ResizeVertical => Some(GLFW_RESIZE_NS_CURSOR),
            CursorShape::ResizeTopLeft => Some(GLFW_RESIZE_NWSE_CURSOR),
            CursorShape::ResizeTopRight => Some(GLFW_RESIZE_NESW_CURSOR),
            CursorShape::ResizeAll => Some(GLFW_RESIZE_ALL_CURSOR),
            CursorShape::NotAllowed => Some(GLFW_NOT_ALLOWED_CURSOR),
            CursorShape::Custom(_, _) => None,
        }
    }
}

/// A cursor created by GLFW, held by the handle of its GLFW object.
#[derive(Debug, PartialEq, Eq)]
pub struct Cursor {
    handle: usize,
}

impl View for Cursor {
    type V = usize;

    closed spec fn view(&self) -> usize {
        self.handle
    }
}

/// Whether `r` is the cursor result that the main thread's `reply` gives:
/// the cursor with the returned handle, or the same error.
pub open spec fn cursor_reply(r: Result<Cursor, XErr>, reply: Result<usize, XErr>) -> bool {
    match (r, reply) {
        (Ok(c), Ok(h)) => c@ == h,
        (Err(a), Err(b)) => a == b,
        _ => false,
    }
}

impl Cursor {
    /// Creates a new cursor of the given shape. See [CursorShape].
    ///
    /// # Errors
    /// Possible errors include [XErr::NotInitialized], [XErr::InvalidValue],
    /// [XErr::CursorUnavailable], and [XErr::PlatformError].
    pub fn try_new<F: FnOnce(XWinMessage) -> Result<usize, XErr>>(shape: CursorShape, exec: F) -> (r: Result<Self, XErr>)
        requires
            call_requires(exec, (XWinMessage::CreateCursor(shape),)),
        ensures
            exists|reply| #[trigger] call_ensures(exec, (XWinMessage::CreateCursor(shape),), reply) && cursor_reply(r, reply),
    {
        let reply = exec(XWinMessage::CreateCursor(shape));
        match reply {
            Ok(h) => Ok(Cursor::from_glfw(h)),
            Err(e) => Err(e),
        }
    }

    /// Construct a [Cursor] from the handle of a GLFW cursor.
    pub fn from_glfw(handle: usize) -> (r: Self)
        ensures
            r@ == handle,
    {
        Cursor { handle }
    }

    /// Returns the handle of the GLFW cursor.
    pub fn as_glfw(&self) -> (r: usize)
        ensures
            r == self@,
    {
        self.handle
    }

    /// Destroys the cursor. If the cursor is current for any window, that
    /// window reverts to the default cursor.
    pub fn destroy<F: FnOnce(XWinMessage) -> Result<(), XErr>>(self, exec: F) -> (r: Result<(), XErr>)
        requires
            call_requires(exec, (XWinMessage::DestroyCursor(self@),)),
        ensures
            call_ensures(exec, (XWinMessage::DestroyCursor(self@),), r),
    {
        exec(XWinMessage::DestroyCursor(self.handle))
    }
}

/// Each mouse button is GLFW's button of the same number, both ways: the left
/// button is [GLFW_MOUSE_BUTTON_LEFT], the right one [GLFW_MOUSE_BUTTON_RIGHT]
/// and the middle one [GLFW_MOUSE_BUTTON_MIDDLE].
pub proof fn lemma_mouse_button_glfw_names()
    ensures
        mouse_button_code(MouseButton::Left) == GLFW_MOUSE_BUTTON_LEFT,
        mouse_button_code(MouseButton::Right) == GLFW_MOUSE_BUTTON_RIGHT,
        mouse_button_code(MouseButton::Middle) == GLFW_MOUSE_BUTTON_MIDDLE,
        mouse_button_code(MouseButton::Four) == GLFW_MOUSE_BUTTON_4,
        mouse_button_code(MouseButton::Five) == GLFW_MOUSE_BUTTON_5,
        mouse_button_code(MouseButton::Six) == GLFW_MOUSE_BUTTON_6,
        mouse_button_code(MouseButton::Seven) == GLFW_MOUSE_BUTTON_7,
        mouse_button_code(MouseButton::Eight) == GLFW_MOUSE_BUTTON_8,
        mouse_button_from_code(GLFW_MOUSE_BUTTON_LEFT) == Some(MouseButton::Left),
        mouse_button_from_code(GLFW_MOUSE_BUTTON_RIGHT) == Some(MouseButton::Right),
        mouse_button_from_code(GLFW_MOUSE_BUTTON_MIDDLE) == Some(MouseButton::Middle),
        mouse_button_from_code(GLFW_MOUSE_BUTTON_4) == Some(MouseButton::Four),
        mouse_button_from_code(GLFW_MOUSE_BUTTON_5) == Some(MouseButton::Five),
        mouse_button_from_code(GLFW_MOUSE_BUTTON_6) == Some(MouseButton::Six),
        mouse_button_from_code(GLFW_MOUSE_BUTTON_7) == Some(MouseButton::Seven),
        mouse_button_from_code(GLFW_MOUSE_BUTTON_8) == Some(MouseButton::Eight),
{
}

/// Each cursor mode is the GLFW cursor mode of the same name, both ways.
pub proof fn lemma_cursor_mode_glfw_names()
    ensures
        cursor_mode_code(CursorMode::Normal) == GLFW_CURSOR_NORMAL,
        cursor_mode_code(CursorMode::Hidden) == GLFW_CURSOR_HIDDEN,
        cursor_mode_code(CursorMode::Disabled) == GLFW_CURSOR_DISABLED,
        cursor_mode_code(CursorMode::Captured) == GLFW_CURSOR_CAPTURED,
        cursor_mode_from_code(GLFW_CURSOR_NORMAL) == Some(CursorMode::Normal),
        cursor_mode_from_code(GLFW_CURSOR_HIDDEN) == Some(CursorMode::Hidden),
        cursor_mode_from_code(GLFW_CURSOR_DISABLED) == Some(CursorMode::Disabled),
        cursor_mode_from_code(GLFW_CURSOR_CAPTURED) == Some(CursorMode::Captured),
{
}

/// Each standard cursor shape is GLFW's standard cursor of the same shape: the
/// horizontal resize arrow is [GLFW_RESIZE_EW_CURSOR], the vertical one
/// [GLFW_RESIZE_NS_CURSOR], and so on; a custom image is no standard cursor.
pub proof fn lemma_standard_cursor_glfw_names()
    ensures
        standard_cursor_code(CursorShape::Arrow) == Some(GLFW_ARROW_CURSOR),
        standard_cursor_code(CursorShape::IBeam) == Some(GLFW_IBEAM_CURSOR),
        standard_cursor_code(CursorShape::Crosshair) == Some(GLFW_CROSSHAIR_CURSOR),
        standard_cursor_code(CursorShape::PointingHand) == Some(GLFW_POINTING_HAND_CURSOR),
        standard_cursor_code(CursorShape::ResizeHorizontal) == Some(GLFW_RESIZE_EW_CURSOR),
        standard_cursor_code(CursorShape::ResizeVertical) == Some(GLFW_RESIZE_NS_CURSOR),
        standard_cursor_code(CursorShape::ResizeTopLeft) == Some(GLFW_RESIZE_NWSE_CURSOR),
        standard_cursor_code(CursorShape::ResizeTopRight) == Some(GLFW_RESIZE_NESW_CURSOR),
        standard_cursor_code(CursorShape::ResizeAll) == Some(GLFW_RESIZE_ALL_CURSOR),
        standard_cursor_code(CursorShape::NotAllowed) == Some(GLFW_NOT_ALLOWED_CURSOR),
        forall|img: Image, hotspot: Pixels| #[trigger] standard_cursor_code(CursorShape::Custom(img, hotspot)) is None,
{
}

} // verus!
