use std::cell::RefCell;

use xwin::err::XErr;
use xwin::glfw::{GLFW_HAT_RIGHT, GLFW_HAT_UP, GLFW_INVALID_VALUE, GLFW_NO_ERROR, GLFW_PLATFORM_ERROR};
use xwin::input::gamepad::JoystickHatState;
use xwin::monitor::Monitor;
use xwin::system::exec::{check_err, set_clipboard_string, set_window_title, update_gamepad_mappings};
use xwin::system::{Platform, XWin, is_glfw_true, to_glfw_bool};
use xwin::window::builder::{ClientApi, ContextCreationApi, ContextReleaseBehavior, GlProfile, Robustness};

#[test]
fn check_err_reports_only_errors() {
    assert_eq!(check_err(GLFW_NO_ERROR, String::from("fine")), None);
    assert_eq!(
        check_err(GLFW_PLATFORM_ERROR, String::from("broken")),
        Some(XErr::PlatformError(String::from("broken")))
    );
    assert_eq!(check_err(0x7777, String::from("?")), Some(XErr::Unknown(String::from("Unknown error"))));
}

#[test]
fn xerr_from_glfw_and_back() {
    let e = XErr::from_glfw(GLFW_INVALID_VALUE as i32, String::from("bad"));
    assert_eq!(e, XErr::InvalidValue(String::from("bad")));
    assert_eq!(e.to_glfw(), (GLFW_INVALID_VALUE, String::from("bad")));
    assert_eq!(XErr::Reinitialized(String::from("again")).to_glfw(), (0, String::from("again")));
    assert_eq!(XErr::from_code(0x7777, String::from("?")), XErr::Unknown(String::from("Unknown error")));
    assert_eq!(XErr::Unknown(String::from("kept")).to_glfw(), (0, String::from("kept")));
    assert_eq!(XErr::result(GLFW_NO_ERROR, String::new(), 5), Ok(5));
    assert_eq!(
        XErr::result(GLFW_INVALID_VALUE, String::from("x"), 5),
        Err(XErr::InvalidValue(String::from("x")))
    );
}

#[test]
fn main_thread_window_title() {
    let seen = RefCell::new(None);
    let r = set_window_title("ok", |t: &str| {
        *seen.borrow_mut() = Some(t.to_string());
        Ok(())
    });
    assert_eq!(r, Ok(()));
    assert_eq!(seen.into_inner(), Some(String::from("ok")));
    let r = set_window_title("no\0pe", |_t: &str| -> Result<(), XErr> { panic!("not set") });
    assert_eq!(r, Err(XErr::InvalidValue(String::from("Window title may not contain null bytes"))));
}

#[test]
fn main_thread_clipboard_and_mappings() {
    assert_eq!(set_clipboard_string("text", |_v: &str| Ok(())), Ok(()));
    assert_eq!(
        set_clipboard_string("te\0xt", |_v: &str| -> Result<(), XErr> { panic!("not set") }),
        Err(XErr::InvalidValue(String::from("Clipboard string may not contain null bytes")))
    );
    assert_eq!(update_gamepad_mappings("a\0b", |_m: &str| -> Result<(), XErr> { panic!("not updated") }), Ok(()));
    let e = XErr::InvalidValue(String::from("mapping"));
    assert_eq!(update_gamepad_mappings("map", |_m: &str| Err(XErr::InvalidValue(String::from("mapping")))), Err(e));
}

#[test]
fn glfw_bool_round_trip() {
    assert!(is_glfw_true(to_glfw_bool(true)));
    assert!(!is_glfw_true(to_glfw_bool(false)));
    assert!(!is_glfw_true(2));
}

#[test]
fn platform_code_round_trip() {
    for p in [Platform::Windows, Platform::Cocoa, Platform::Wayland, Platform::X11, Platform::Null] {
        assert_eq!(XWin::platform(p.as_glfw(), || XErr::Unknown(String::new())), Ok(p));
    }
}

#[test]
fn builder_enum_codes_round_trip() {
    for v in [ClientApi::OpenGl, ClientApi::OpenGlEs, ClientApi::NoApi] {
        assert_eq!(ClientApi::from_glfw(v.as_glfw()), Some(v));
    }
    for v in [ContextCreationApi::Native, ContextCreationApi::Egl, ContextCreationApi::Osmesa] {
        assert_eq!(ContextCreationApi::from_glfw(v.as_glfw()), Some(v));
    }
    for v in [GlProfile::Core, GlProfile::Compat, GlProfile::Any] {
        assert_eq!(GlProfile::from_glfw(v.as_glfw()), Some(v));
    }
    for v in [Robustness::NoResetNotification, Robustness::LoseContextOnReset, Robustness::NoRobustness] {
        assert_eq!(Robustness::from_glfw(v.as_glfw()), Some(v));
    }
    for v in [ContextReleaseBehavior::Any, ContextReleaseBehavior::Flush, ContextReleaseBehavior::NoFlush] {
        assert_eq!(ContextReleaseBehavior::from_glfw(v.as_glfw()), Some(v));
    }
    assert_eq!(ClientApi::from_glfw(12345), None);
}

#[test]
fn hat_diagonals_combine_directions() {
    assert_eq!(JoystickHatState::UpRight.as_glfw(), GLFW_HAT_UP | GLFW_HAT_RIGHT);
    assert_eq!(JoystickHatState::from_glfw(GLFW_HAT_UP | GLFW_HAT_RIGHT), Some(JoystickHatState::UpRight));
}

#[test]
fn monitor_set_callback_slot() {
    let m = Monitor::from_glfw(1);
    let mut slot: Option<u8> = None;
    assert_eq!(m.set_callback(Some(&mut slot), 4u8), Ok(()));
    assert_eq!(slot, Some(4));
    assert_eq!(
        m.set_callback::<u8>(None, 5),
        Err(XErr::NotInitialized(String::from("XWin has not been initialized")))
    );
}
