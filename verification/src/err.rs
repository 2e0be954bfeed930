//! # Error handling
//!
//! When GLFW reports an error, XWin takes the last error code and its
//! human-readable description from GLFW and returns them as an [XErr]. The
//! variant tells the general category of the error; the [String] carries the
//! description.
//!
//! Reported errors are never fatal: as long as XWin was initialized, it stays
//! in a safe state until it is terminated, however many errors occur.
use vstd::prelude::*;
use vstd::string::StringExecFns;

use crate::glfw::{
    GLFW_API_UNAVAILABLE, GLFW_CURSOR_UNAVAILABLE, GLFW_FEATURE_UNAVAILABLE,
    GLFW_FEATURE_UNIMPLEMENTED, GLFW_FORMAT_UNAVAILABLE, GLFW_INVALID_ENUM, GLFW_INVALID_VALUE,
    GLFW_NOT_INITIALIZED, GLFW_NO_CURRENT_CONTEXT, GLFW_NO_ERROR, GLFW_NO_WINDOW_CONTEXT,
    GLFW_OUT_OF_MEMORY, GLFW_PLATFORM_ERROR, GLFW_PLATFORM_UNAVAILABLE, GLFW_VERSION_UNAVAILABLE,
};

verus! {

/// Error codes used throughout the XWin API.
#[derive(Debug, Clone, PartialEq, Eq)]
pub enum XErr {
    /// No error has occurred.
    NoError(String),
    /// XWin has not been initialized.
    NotInitialized(String),
    /// No context is current for this thread.
    NoCurrentContext(String),
    /// One of the arguments to the function was an invalid enum value.
    InvalidEnum(String),
    /// One of the arguments to the function was an invalid value.
    InvalidValue(String),
    /// A memory allocation failed.
    OutOfMemory(String),
    /// GLFW could not find support for the requested API on the system.
    ApiUnavailable(String),
    /// The requested OpenGL or OpenGL ES version is not available.
    VersionUnavailable(String),
    /// A platform-specific error that matches no more specific category.
    PlatformError(String),
    /// The requested format is not supported or available.
    FormatUnavailable(String),
    /// The specified window does not have an OpenGL or OpenGL ES context.
    NoWindowContext(String),
    /// The specified cursor shape is not available.
    CursorUnavailable(String),
    /// The requested feature is not provided by the platform.
    FeatureUnavailable(String),
    /// The requested feature is not implemented for the platform.
    FeatureUnimplemented(String),
    /// Platform unavailable or no matching platform was found.
    PlatformUnavailable(String),
    /// An error code that XWin does not know, or a value that GLFW reported
    /// and that names nothing XWin knows.
    Unknown(String),
    /// XWin was initialized a second time.
    Reinitialized(String),
}

/// The error that GLFW's error `code` with description `msg` stands for,
/// for a code that GLFW defines (see [is_error_for_code] for any code).
pub open spec fn error_from_code(code: u32, msg: String) -> XErr {
    if code == GLFW_NO_ERROR {
        XErr::NoError(msg)
    } else if code == GLFW_NOT_INITIALIZED {
        XErr::NotInitialized(msg)
    } else if code == GLFW_NO_CURRENT_CONTEXT {
        XErr::NoCurrentContext(msg)
    } else if code == GLFW_INVALID_ENUM {
        XErr::InvalidEnum(msg)
    } else if code == GLFW_INVALID_VALUE {
        XErr::InvalidValue(msg)
    } else if code == GLFW_OUT_OF_MEMORY {
        XErr::OutOfMemory(msg)
    } else if code == GLFW_API_UNAVAILABLE {
        XErr::ApiUnavailable(msg)
    } else if code == GLFW_VERSION_UNAVAILABLE {
        XErr::VersionUnavailable(msg)
    } else if code == GLFW_PLATFORM_ERROR {
        XErr::PlatformError(msg)
    } else if code == GLFW_FORMAT_UNAVAILABLE {
        XErr::FormatUnavailable(msg)
    } else if code == GLFW_NO_WINDOW_CONTEXT {
        XErr::NoWindowContext(msg)
    } else if code == GLFW_CURSOR_UNAVAILABLE {
        XErr::CursorUnavailable(msg)
    } else if code == GLFW_FEATURE_UNAVAILABLE {
        XErr::FeatureUnavailable(msg)
    } else if code == GLFW_FEATURE_UNIMPLEMENTED {
        XErr::FeatureUnimplemented(msg)
    } else if code == GLFW_PLATFORM_UNAVAILABLE {
        XErr::PlatformUnavailable(msg)
    } else {
        XErr::Unknown(msg)
    }
}

/// Whether `e` is the error for a code that XWin does not know: [XErr::Unknown]
/// with the description "Unknown error".
pub open spec fn is_unknown_error(e: XErr) -> bool {
    e matches XErr::Unknown(m) && m@ == "Unknown error"@
}

/// Whether `e` is the error that GLFW's error `code` with description `msg`
/// stands for: the matching error with that description for a code that
/// GLFW defines, [XErr::Unknown] with "Unknown error" for any other.
pub open spec fn is_error_for_code(e: XErr, code: u32, msg: String) -> bool {
    if is_glfw_error_code(code) {
        e == error_from_code(code, msg)
    } else {
        is_unknown_error(e)
    }
}

/// The GLFW error code of an error; errors that are not GLFW errors have
/// code 0.
pub open spec fn error_code(e: XErr) -> u32 {
    match e {
        XErr::NoError(_) => GLFW_NO_ERROR,
        XErr::NotInitialized(_) => GLFW_NOT_INITIALIZED,
        XErr::NoCurrentContext(_) => GLFW_NO_CURRENT_CONTEXT,
        XErr::InvalidEnum(_) => GLFW_INVALID_ENUM,
        XErr::InvalidValue(_) => GLFW_INVALID_VALUE,
        XErr::OutOfMemory(_) => GLFW_OUT_OF_MEMORY,
        XErr::ApiUnavailable(_) => GLFW_API_UNAVAILABLE,
        XErr::VersionUnavailable(_) => GLFW_VERSION_UNAVAILABLE,
        XErr::PlatformError(_) => GLFW_PLATFORM_ERROR,
        XErr::FormatUnavailable(_) => GLFW_FORMAT_UNAVAILABLE,
        XErr::NoWindowContext(_) => GLFW_NO_WINDOW_CONTEXT,
        XErr::CursorUnavailable(_) => GLFW_CURSOR_UNAVAILABLE,
        XErr::FeatureUnavailable(_) => GLFW_FEATURE_UNAVAILABLE,
        XErr::FeatureUnimplemented(_) => GLFW_FEATURE_UNIMPLEMENTED,
        XErr::PlatformUnavailable(_) => GLFW_PLATFORM_UNAVAILABLE,
        XErr::Unknown(_) => 0,
        XErr::Reinitialized(_) => 0,
    }
}

/// The description that an error carries.
pub open spec fn error_message(e: XErr) -> String {
    match e {
        XErr::NoError(s) => s,
        XErr::NotInitialized(s) => s,
        XErr::NoCurrentContext(s) => s,
        XErr::InvalidEnum(s) => s,
        XErr::InvalidValue(s) => s,
        XErr::OutOfMemory(s) => s,
        XErr::ApiUnavailable(s) => s,
        XErr::VersionUnavailable(s) => s,
        XErr::PlatformError(s) => s,
        XErr::FormatUnavailable(s) => s,
        XErr::NoWindowContext(s) => s,
        XErr::CursorUnavailable(s) => s,
        XErr::FeatureUnavailable(s) => s,
        XErr::FeatureUnimplemented(s) => s,
        XErr::PlatformUnavailable(s) => s,
        XErr::Unknown(s) => s,
        XErr::Reinitialized(s) => s,
    }
}

/// Whether the error stands for one of GLFW's own error codes.
pub open spec fn is_glfw_error(e: XErr) -> bool {
    !(e is Unknown) && !(e is Reinitialized)
}

/// Whether `code` is one of the error codes that GLFW defines.
pub open spec fn is_glfw_error_code(code: u32) -> bool {
    code == GLFW_NO_ERROR || (GLFW_NOT_INITIALIZED <= code && code <= GLFW_PLATFORM_UNAVAILABLE)
}

/// Whether `r` is what GLFW's error state gives back as a result: `value`
/// when no error is pending, else the pending error.
pub open spec fn is_result_for<T>(r: Result<T, XErr>, code: u32, msg: String, value: T) -> bool {
    if code == GLFW_NO_ERROR {
        r == Ok::<T, XErr>(value)
    } else {
        r matches Err(e) && is_error_for_code(e, code, msg)
    }
}

impl XErr {
    /// Builds the error that GLFW's error `code` stands for, with the
    /// description `msg`. Codes that GLFW does not define give
    /// [XErr::Unknown] with the description "Unknown error".
    pub fn from_code(code: u32, msg: String) -> (e: XErr)
        ensures
            is_error_for_code(e, code, msg),
    {
        if code == GLFW_NO_ERROR {
            XErr::NoError(msg)
        } else if code == GLFW_NOT_INITIALIZED {
            XErr::NotInitialized(msg)
        } else if code == GLFW_NO_CURRENT_CONTEXT {
            XErr::NoCurrentContext(msg)
        } else if code == GLFW_INVALID_ENUM {
            XErr::InvalidEnum(msg)
        } else if code == GLFW_INVALID_VALUE {
            XErr::InvalidValue(msg)
        } else if code == GLFW_OUT_OF_MEMORY {
            XErr::OutOfMemory(msg)
        } else if code == GLFW_API_UNAVAILABLE {
            XErr::ApiUnavailable(msg)
        } else if code == GLFW_VERSION_UNAVAILABLE {
            XErr::VersionUnavailable(msg)
        } else if code == GLFW_PLATFORM_ERROR {
            XErr::PlatformError(msg)
        } else if code == GLFW_FORMAT_UNAVAILABLE {
            XErr::FormatUnavailable(msg)
        } else if code == GLFW_NO_WINDOW_CONTEXT {
            XErr::NoWindowContext(msg)
        } else if code == GLFW_CURSOR_UNAVAILABLE {
            XErr::CursorUnavailable(msg)
        } else if code == GLFW_FEATURE_UNAVAILABLE {
            XErr::FeatureUnavailable(msg)
        } else if code == GLFW_FEATURE_UNIMPLEMENTED {
            XErr::FeatureUnimplemented(msg)
        } else if code == GLFW_PLATFORM_UNAVAILABLE {
            XErr::PlatformUnavailable(msg)
        } else {
            XErr::unknown()
        }
    }

    /// The error for a code or value that XWin does not know.
    pub fn unknown() -> (e: XErr)
        ensures
            is_unknown_error(e),
    {
        XErr::Unknown(String::from_str("Unknown error"))
    }

    /// Builds the error for the code and description that GLFW reports
    /// (`glfwGetError`); see [XErr::from_code].
    pub fn from_glfw(code: i32, msg: String) -> (e: XErr)
        ensures
            is_error_for_code(e, code as u32, msg),
    {
        XErr::from_code(code as u32, msg)
    }

    /// Returns the GLFW error code of this error together with its
    /// description. Errors that are not GLFW errors ([XErr::Unknown] and
    /// [XErr::Reinitialized]) return code 0 and their own description.
    pub fn to_glfw(self) -> (r: (u32, String))
        ensures
            r.0 == error_code(self),
            r.1 == error_message(self),
    {
        match self {
            XErr::NoError(s) => (GLFW_NO_ERROR, s),
            XErr::NotInitialized(s) => (GLFW_NOT_INITIALIZED, s),
            XErr::NoCurrentContext(s) => (GLFW_NO_CURRENT_CONTEXT, s),
            XErr::InvalidEnum(s) => (GLFW_INVALID_ENUM, s),
            XErr::InvalidValue(s) => (GLFW_INVALID_VALUE, s),
            XErr::OutOfMemory(s) => (GLFW_OUT_OF_MEMORY, s),
            XErr::ApiUnavailable(s) => (GLFW_API_UNAVAILABLE, s),
            XErr::VersionUnavailable(s) => (GLFW_VERSION_UNAVAILABLE, s),
            XErr::PlatformError(s) => (GLFW_PLATFORM_ERROR, s),
            XErr::FormatUnavailable(s) => (GLFW_FORMAT_UNAVAILABLE, s),
            XErr::NoWindowContext(s) => (GLFW_NO_WINDOW_CONTEXT, s),
            XErr::CursorUnavailable(s) => (GLFW_CURSOR_UNAVAILABLE, s),
            XErr::FeatureUnavailable(s) => (GLFW_FEATURE_UNAVAILABLE, s),
            XErr::FeatureUnimplemented(s) => (GLFW_FEATURE_UNIMPLEMENTED, s),
            XErr::PlatformUnavailable(s) => (GLFW_PLATFORM_UNAVAILABLE, s),
            XErr::Unknown(s) => (0, s),
            XErr::Reinitialized(s) => (0, s),
        }
    }

    /// Turns GLFW's error state after a call into the call's result: `value`
    /// when GLFW reports no error (`code` is [GLFW_NO_ERROR]), otherwise the
    /// reported error with its description `msg`.
    pub fn result<T>(code: u32, msg: String, value: T) -> (r: Result<T, XErr>)
        ensures
            is_result_for(r, code, msg, value),
            r is Ok <==> code == GLFW_NO_ERROR,
    {
        if code == GLFW_NO_ERROR {
            Ok(value)
        } else {
            Err(XErr::from_code(code, msg))
        }
    }
}

/// An error code that GLFW defines and its description survive the trip
/// through [XErr::from_code] and back through [XErr::to_glfw].
pub proof fn lemma_code_round_trip(code: u32, msg: String)
    requires
        is_glfw_error_code(code),
    ensures
        error_code(error_from_code(code, msg)) == code,
        error_message(error_from_code(code, msg)) == msg,
        is_glfw_error(error_from_code(code, msg)),
{
}

/// Every GLFW error comes back unchanged from [XErr::to_glfw] followed by
/// [XErr::from_code].
pub proof fn lemma_error_round_trip(e: XErr)
    requires
        is_glfw_error(e),
    ensures
        is_glfw_error_code(error_code(e)),
        error_from_code(error_code(e), error_message(e)) == e,
{
}

/// Codes that GLFW does not define, and only those, give [XErr::Unknown].
pub proof fn lemma_unknown_code(code: u32, msg: String, e: XErr)
    requires
        is_error_for_code(e, code, msg),
    ensures
        (e is Unknown) <==> !is_glfw_error_code(code),
{
}

/// Each GLFW error is GLFW's error code of the same name, both ways, whatever
/// its description: [XErr::NotInitialized] is [GLFW_NOT_INITIALIZED],
/// [XErr::PlatformError] is [GLFW_PLATFORM_ERROR], and so on.
pub proof fn lemma_error_glfw_names(msg: String)
    ensures
        error_code(XErr::NoError(msg)) == GLFW_NO_ERROR,
        error_code(XErr::NotInitialized(msg)) == GLFW_NOT_INITIALIZED,
        error_code(XErr::NoCurrentContext(msg)) == GLFW_NO_CURRENT_CONTEXT,
        error_code(XErr::InvalidEnum(msg)) == GLFW_INVALID_ENUM,
        error_code(XErr::InvalidValue(msg)) == GLFW_INVALID_VALUE,
        error_code(XErr::OutOfMemory(msg)) == GLFW_OUT_OF_MEMORY,
        error_code(XErr::ApiUnavailable(msg)) == GLFW_API_UNAVAILABLE,
        error_code(XErr::VersionUnavailable(msg)) == GLFW_VERSION_UNAVAILABLE,
        error_code(XErr::PlatformError(msg)) == GLFW_PLATFORM_ERROR,
        error_code(XErr::FormatUnavailable(msg)) == GLFW_FORMAT_UNAVAILABLE,
        error_code(XErr::NoWindowContext(msg)) == GLFW_NO_WINDOW_CONTEXT,
        error_code(XErr::CursorUnavailable(msg)) == GLFW_CURSOR_UNAVAILABLE,
        error_code(XErr::FeatureUnavailable(msg)) == GLFW_FEATURE_UNAVAILABLE,
        error_code(XErr::FeatureUnimplemented(msg)) == GLFW_FEATURE_UNIMPLEMENTED,
        error_code(XErr::PlatformUnavailable(msg)) == GLFW_PLATFORM_UNAVAILABLE,
        error_from_code(GLFW_NO_ERROR, msg) == XErr::NoError(msg),
        error_from_code(GLFW_NOT_INITIALIZED, msg) == XErr::NotInitialized(msg),
        error_from_code(GLFW_NO_CURRENT_CONTEXT, msg) == XErr::NoCurrentContext(msg),
        error_from_code(GLFW_INVALID_ENUM, msg) == XErr::InvalidEnum(msg),
        error_from_code(GLFW_INVALID_VALUE, msg) == XErr::InvalidValue(msg),
        error_from_code(GLFW_OUT_OF_MEMORY, msg) == XErr::OutOfMemory(msg),
        error_from_code(GLFW_API_UNAVAILABLE, msg) == XErr::ApiUnavailable(msg),
        error_from_code(GLFW_VERSION_UNAVAILABLE, msg) == XErr::VersionUnavailable(msg),
        error_from_code(GLFW_PLATFORM_ERROR, msg) == XErr::PlatformError(msg),
        error_from_code(GLFW_FORMAT_UNAVAILABLE, msg) == XErr::FormatUnavailable(msg),
        error_from_code(GLFW_NO_WINDOW_CONTEXT, msg) == XErr::NoWindowContext(msg),
        error_from_code(GLFW_CURSOR_UNAVAILABLE, msg) == XErr::CursorUnavailable(msg),
        error_from_code(GLFW_FEATURE_UNAVAILABLE, msg) == XErr::FeatureUnavailable(msg),
        error_from_code(GLFW_FEATURE_UNIMPLEMENTED, msg) == XErr::FeatureUnimplemented(msg),
        error_from_code(GLFW_PLATFORM_UNAVAILABLE, msg) == XErr::PlatformUnavailable(msg),
{
}

} // verus!
