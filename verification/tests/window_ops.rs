use std::cell::RefCell;

use xwin::err::XErr;
use xwin::glfw::{
    GLFW_CURSOR, GLFW_CURSOR_DISABLED, GLFW_DECORATED, GLFW_DONT_CARE, GLFW_FOCUSED, GLFW_MOUSE_PASSTHROUGH,
    GLFW_RAW_MOUSE_MOTION, GLFW_STICKY_KEYS,
};
use xwin::input::ButtonState;
use xwin::input::keyboard::Key;
use xwin::input::mouse::{Cursor, CursorMode, MouseButton};
use xwin::monitor::Monitor;
use xwin::system::exec::XWinMessage;
use xwin::system::image::Image;
use xwin::system::{Pixels, ScreenCoordinates};
use xwin::window::builder::WindowBuilder;
use xwin::window::Window;

fn expect<T>(expected: XWinMessage, reply: Result<T, XErr>) -> impl FnOnce(XWinMessage) -> Result<T, XErr> {
    move |m: XWinMessage| {
        assert_eq!(m, expected);
        reply
    }
}

fn err() -> XErr {
    XErr::PlatformError(String::from("failed"))
}

#[test]
fn window_try_create_sends_title_and_monitor() {
    let w = Window::try_create(
        800,
        600,
        "hello",
        Some(Monitor::from_glfw(3)),
        expect(
            XWinMessage::CreateWindow {
                width: 800,
                height: 600,
                title: String::from("hello"),
                monitor: Some(3),
                builder: None,
            },
            Ok(42),
        ),
    )
    .unwrap();
    assert_eq!(w.as_glfw(), 42);
}

#[test]
fn window_try_create_passes_error_on() {
    let r = Window::try_create(1, 1, "x", None, |_m: XWinMessage| Err(XErr::ApiUnavailable(String::from("api"))));
    assert_eq!(r.unwrap_err(), XErr::ApiUnavailable(String::from("api")));
}

#[test]
fn builder_create_sends_its_hints() {
    let mut b = WindowBuilder::new();
    b.resizable(false);
    let expected = XWinMessage::CreateWindow {
        width: 2,
        height: 3,
        title: String::from("t"),
        monitor: None,
        builder: Some(b.clone()),
    };
    let w = b.create(2, 3, "t", None, expect(expected, Ok(9))).unwrap();
    assert_eq!(w, Window::from_glfw(9));
}

#[test]
fn window_flags_decode_glfw_true_only() {
    let w = Window::from_glfw(1);
    let msg = XWinMessage::GetWindowAttribute(1, GLFW_FOCUSED as i32);
    assert_eq!(w.try_is_focused(expect(msg.clone(), Ok(1))), Ok(true));
    assert_eq!(w.try_is_focused(expect(msg.clone(), Ok(0))), Ok(false));
    assert_eq!(w.try_is_focused(expect(msg.clone(), Ok(2))), Ok(false));
    assert_eq!(w.try_is_focused(expect(msg.clone(), Err(err()))), Err(err()));
    assert!(!w.is_focused(expect(msg, Err(err()))));
}

#[test]
fn window_attribute_setters_send_glfw_bools() {
    let mut w = Window::from_glfw(4);
    let r = w.try_set_decorated(true, expect(XWinMessage::SetWindowAttribute(4, GLFW_DECORATED as i32, 1), Ok(())));
    assert_eq!(r, Ok(()));
    w.set_mouse_passthrough(false, expect(XWinMessage::SetWindowAttribute(4, GLFW_MOUSE_PASSTHROUGH as i32, 0), Ok(())));
}

#[test]
fn window_should_close_round_trip() {
    let mut w = Window::from_glfw(6);
    assert_eq!(w.try_set_should_close(true, expect(XWinMessage::SetWindowShouldClose(6, 1), Ok(()))), Ok(()));
    assert!(w.should_close(expect(XWinMessage::GetWindowShouldClose(6), Ok(1))));
    assert!(!w.should_close(expect(XWinMessage::GetWindowShouldClose(6), Err(err()))));
}

#[test]
fn window_title_and_defaults() {
    let mut w = Window::from_glfw(2);
    assert_eq!(w.title(expect(XWinMessage::GetWindowTitle(2), Ok(String::from("abc")))), "abc");
    assert_eq!(w.title(expect(XWinMessage::GetWindowTitle(2), Err(err()))), "");
    let r = w.try_set_title("new", expect(XWinMessage::SetWindowTitle(2, String::from("new")), Ok(())));
    assert_eq!(r, Ok(()));
}

#[test]
fn window_geometry_defaults_on_error() {
    let w = Window::from_glfw(8);
    let pos = ScreenCoordinates { x: 5, y: -7 };
    assert_eq!(w.position(expect(XWinMessage::GetWindowPos(8), Ok(pos))), pos);
    assert_eq!(w.position(expect(XWinMessage::GetWindowPos(8), Err(err()))), ScreenCoordinates { x: 0, y: 0 });
    assert_eq!(w.size(expect(XWinMessage::GetWindowSize(8), Err(err()))), ScreenCoordinates { x: 0, y: 0 });
    assert_eq!(w.framebuffer_size(expect(XWinMessage::GetFrameBufferSize(8), Ok(Pixels { x: 1, y: 2 }))), Pixels { x: 1, y: 2 });
    assert_eq!(w.frame_size(expect(XWinMessage::GetWindowFrameSize(8), Err(err()))), (0, 0, 0, 0));
    assert_eq!(w.frame_size(expect(XWinMessage::GetWindowFrameSize(8), Ok((1, 2, 3, 4)))), (1, 2, 3, 4));
}

#[test]
fn window_aspect_ratio_none_is_dont_care() {
    let mut w = Window::from_glfw(3);
    let none = XWinMessage::SetWindowAspectRatio { window: 3, numerator: GLFW_DONT_CARE, denominator: GLFW_DONT_CARE };
    assert_eq!(w.try_set_aspect_ratio(None, expect(none, Ok(()))), Ok(()));
    let some = XWinMessage::SetWindowAspectRatio { window: 3, numerator: 16, denominator: 9 };
    assert_eq!(w.try_set_aspect_ratio(Some((16, 9)), expect(some, Ok(()))), Ok(()));
}

#[test]
fn window_fullscreen_and_windowed() {
    let mut w = Window::from_glfw(3);
    let size = ScreenCoordinates { x: 1920, y: 1080 };
    let msg = XWinMessage::SetWindowFullscreen { window: 3, monitor: 11, size, refresh_rate: GLFW_DONT_CARE };
    assert_eq!(w.try_set_fullscreen(Monitor::from_glfw(11), size, None, expect(msg, Ok(()))), Ok(()));
    let msg = XWinMessage::SetWindowFullscreen { window: 3, monitor: 11, size, refresh_rate: 60 };
    assert_eq!(w.try_set_fullscreen(Monitor::from_glfw(11), size, Some(60), expect(msg, Ok(()))), Ok(()));
    let pos = ScreenCoordinates { x: 10, y: 20 };
    let msg = XWinMessage::SetWindowWindowed { window: 3, position: pos, size };
    assert_eq!(w.try_set_windowed(pos, size, expect(msg, Err(err()))), Err(err()));
}

#[test]
fn window_monitor_reply() {
    let w = Window::from_glfw(3);
    assert_eq!(w.try_monitor(expect(XWinMessage::GetWindowMonitor(3), Ok(Some(12)))), Ok(Some(Monitor::from_glfw(12))));
    assert_eq!(w.monitor(expect(XWinMessage::GetWindowMonitor(3), Ok(None))), None);
    assert_eq!(w.monitor(expect(XWinMessage::GetWindowMonitor(3), Err(err()))), None);
}

#[test]
fn window_simple_commands() {
    let mut w = Window::from_glfw(5);
    assert_eq!(w.try_iconify(expect(XWinMessage::IconifyWindow(5), Ok(()))), Ok(()));
    assert_eq!(w.try_restore(expect(XWinMessage::RestoreWindow(5), Ok(()))), Ok(()));
    assert_eq!(w.try_maximize(expect(XWinMessage::MaximizeWindow(5), Ok(()))), Ok(()));
    assert_eq!(w.try_show(expect(XWinMessage::ShowWindow(5), Ok(()))), Ok(()));
    w.hide_window(expect(XWinMessage::HideWindow(5), Ok(())));
    assert_eq!(w.try_focus(expect(XWinMessage::FocusWindow(5), Err(err()))), Err(err()));
    w.request_attention(expect(XWinMessage::RequestWindowAttention(5), Ok(())));
    let icons = vec![Image::new()];
    assert_eq!(w.try_set_icon(icons.clone(), expect(XWinMessage::SetWindowIcon(5, icons), Ok(()))), Ok(()));
    let lo = ScreenCoordinates { x: 1, y: 1 };
    let hi = ScreenCoordinates { x: 9, y: 9 };
    w.set_size_limits(lo, hi, expect(XWinMessage::SetWindowSizeLimits { window: 5, min: lo, max: hi }, Ok(())));
    w.set_position(lo, expect(XWinMessage::SetWindowPos(5, lo), Ok(())));
    w.set_size(hi, expect(XWinMessage::SetWindowSize(5, hi), Ok(())));
    assert_eq!(w.destroy(expect(XWinMessage::DestroyWindow(5), Ok(()))), Ok(()));
}

#[test]
fn window_input_modes() {
    let mut w = Window::from_glfw(7);
    let mut input = w.input();
    let get_cursor = XWinMessage::GetInputMode(7, GLFW_CURSOR as i32);
    assert_eq!(input.try_cursor_mode(expect(get_cursor.clone(), Ok(GLFW_CURSOR_DISABLED as i32))), Ok(CursorMode::Disabled));
    assert_eq!(input.try_cursor_mode(expect(get_cursor.clone(), Ok(12345))), Err(XErr::Unknown(String::from("Unknown error"))));
    assert_eq!(input.cursor_mode(expect(get_cursor, Err(err()))), CursorMode::Normal);
    let set = XWinMessage::SetInputMode(7, GLFW_CURSOR as i32, GLFW_CURSOR_DISABLED as i32);
    assert_eq!(input.try_set_cursor_mode(CursorMode::Disabled, expect(set, Ok(()))), Ok(()));
    assert!(input.sticky_keys(expect(XWinMessage::GetInputMode(7, GLFW_STICKY_KEYS as i32), Ok(1))));
    input.set_raw_mouse_motion(true, expect(XWinMessage::SetInputMode(7, GLFW_RAW_MOUSE_MOTION as i32, 1), Ok(())));
    assert!(!input.will_mouse_passthrough(expect(XWinMessage::GetWindowAttribute(7, GLFW_MOUSE_PASSTHROUGH as i32), Ok(0))));
}

#[test]
fn window_input_button_states() {
    let mut w = Window::from_glfw(7);
    let input = w.input();
    let key = XWinMessage::GetKey(7, Key::A.as_glfw() as i32);
    assert_eq!(input.try_key_state(Key::A, expect(key.clone(), Ok(1))), Ok(ButtonState::Press));
    assert_eq!(input.try_key_state(Key::A, expect(key.clone(), Ok(9))), Err(XErr::Unknown(String::from("Unknown error"))));
    assert_eq!(input.key_state(Key::A, expect(key, Err(err()))), ButtonState::Release);
    let button = XWinMessage::GetMouseButton(7, MouseButton::Left.as_glfw() as i32);
    assert_eq!(input.mouse_state(MouseButton::Left, expect(button, Ok(0))), ButtonState::Release);
}

#[test]
fn window_input_set_cursor() {
    let mut w = Window::from_glfw(7);
    let mut input = w.input();
    assert_eq!(input.try_set_cursor(Cursor::from_glfw(99), expect(XWinMessage::SetCursor(7, 99), Ok(()))), Ok(()));
}
