use xwin::err::XErr;
use xwin::glfw::{
    GLFW_API_UNAVAILABLE,
    GLFW_CURSOR_UNAVAILABLE,
    GLFW_FEATURE_UNAVAILABLE,
    GLFW_FEATURE_UNIMPLEMENTED,
    GLFW_FORMAT_UNAVAILABLE,
    GLFW_INVALID_ENUM,
    GLFW_INVALID_VALUE,
    GLFW_NOT_INITIALIZED,
    GLFW_NO_CURRENT_CONTEXT,
    GLFW_NO_ERROR,
    GLFW_NO_WINDOW_CONTEXT,
    GLFW_OUT_OF_MEMORY,
    GLFW_PLATFORM_ERROR,
    GLFW_PLATFORM_UNAVAILABLE,
    GLFW_VERSION_UNAVAILABLE,
};

#[test]
fn err_no_error() {
    assert_eq!(
        XErr::from_code(GLFW_NO_ERROR, String::default()),
        XErr::NoError(String::default())
    );
}

#[test]
fn err_not_initialized() {
    assert_eq!(
        XErr::from_code(GLFW_NOT_INITIALIZED, String::default()),
        XErr::NotInitialized(String::default())
    );
}

#[test]
fn err_no_current_context() {
    assert_eq!(
        XErr::from_code(GLFW_NO_CURRENT_CONTEXT, String::default()),
        XErr::NoCurrentContext(String::default())
    );
}

#[test]
fn err_invalid_enum() {
    assert_eq!(
        XErr::from_code(GLFW_INVALID_ENUM, String::default()),
        XErr::InvalidEnum(String::default())
    );
}

#[test]
fn err_invalid_value() {
    assert_eq!(
        XErr::from_code(GLFW_INVALID_VALUE, String::default()),
        XErr::InvalidValue(String::default())
    );
}

#[test]
fn err_out_of_memory() {
    assert_eq!(
        XErr::from_code(GLFW_OUT_OF_MEMORY, String::default()),
        XErr::OutOfMemory(String::default())
    );
}

#[test]
fn err_api_unavailable() {
    assert_eq!(
        XErr::from_code(GLFW_API_UNAVAILABLE, String::default()),
        XErr::ApiUnavailable(String::default())
    );
}

#[test]
fn err_version_unavailable() {
    assert_eq!(
        XErr::from_code(GLFW_VERSION_UNAVAILABLE, String::default()),
        XErr::VersionUnavailable(String::default())
    );
}

#[test]
fn err_platform_error() {
    assert_eq!(
        XErr::from_code(GLFW_PLATFORM_ERROR, String::default()),
        XErr::PlatformError(String::default())
    );
}

#[test]
fn err_format_unavailable() {
    assert_eq!(
        XErr::from_code(GLFW_FORMAT_UNAVAILABLE, String::default()),
        XErr::FormatUnavailable(String::default())
    );
}

#[test]
fn err_no_window_context() {
    assert_eq!(
        XErr::from_code(GLFW_NO_WINDOW_CONTEXT, String::default()),
        XErr::NoWindowContext(String::default())
    );
}

#[test]
fn err_cursor_unavailable() {
    assert_eq!(
        XErr::from_code(GLFW_CURSOR_UNAVAILABLE, String::default()),
        XErr::CursorUnavailable(String::default())
    );
}

#[test]
fn err_feature_unavailable() {
    assert_eq!(
        XErr::from_code(GLFW_FEATURE_UNAVAILABLE, String::default()),
        XErr::FeatureUnavailable(String::default())
    );
}

#[test]
fn err_feature_unimplemented() {
    assert_eq!(
        XErr::from_code(GLFW_FEATURE_UNIMPLEMENTED, String::default()),
        XErr::FeatureUnimplemented(String::default())
    );
}

#[test]
fn err_platform_unavailable() {
    assert_eq!(
        XErr::from_code(GLFW_PLATFORM_UNAVAILABLE, String::default()),
        XErr::PlatformUnavailable(String::default())
    );
}
