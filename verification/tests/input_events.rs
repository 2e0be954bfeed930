use xwin::err::XErr;
use xwin::glfw::{GLFW_ARROW_CURSOR, GLFW_CONNECTED, GLFW_DISCONNECTED, GLFW_MOD_ALT, GLFW_MOD_SHIFT};
use xwin::input::event::JoystickConfigEvent;
use xwin::input::gamepad::{Joystick, JoystickHatState, joystick_buttons, joystick_hats};
use xwin::input::keyboard::{Key, Modifier};
use xwin::input::mouse::{Cursor, CursorShape, MouseButton};
use xwin::input::{ButtonEvent, ButtonState};
use xwin::system::Pixels;
use xwin::system::exec::XWinMessage;
use xwin::system::image::Image;
use xwin::window::event::{KeyEvent, MouseButtonEvent};

#[test]
fn key_event_decodes_glfw_values() {
    let e = KeyEvent::from_glfw(256, 9, 2, (GLFW_MOD_SHIFT | GLFW_MOD_ALT) as i32).unwrap();
    assert_eq!(e.key(), Key::Escape);
    assert_eq!(e.scancode(), 9);
    assert_eq!(e.action(), ButtonEvent::Repeat);
    assert!(e.mods().is_shift());
    assert!(e.mods().is_alt());
    assert!(!e.mods().is_control());
}

#[test]
fn key_event_rejects_unknown_codes() {
    assert_eq!(KeyEvent::from_glfw(-1, 0, 1, 0), None);
    assert_eq!(KeyEvent::from_glfw(256, 0, 3, 0), None);
}

#[test]
fn key_event_round_trip_on_concrete_values() {
    let e = KeyEvent::from_glfw(Key::A.as_glfw() as i32, 30, ButtonEvent::Press.as_glfw() as i32, 0).unwrap();
    assert_eq!((e.key(), e.action(), e.mods().as_glfw()), (Key::A, ButtonEvent::Press, 0));
}

#[test]
fn mouse_button_event_decodes_glfw_values() {
    let e = MouseButtonEvent::from_glfw(1, 1, GLFW_MOD_SHIFT as i32).unwrap();
    assert_eq!(e.button(), MouseButton::Right);
    assert_eq!(e.action(), ButtonState::Press);
    assert!(e.mods().is_shift());
    assert_eq!(MouseButtonEvent::from_glfw(8, 1, 0), None);
    assert_eq!(MouseButtonEvent::from_glfw(0, 2, 0), None);
}

#[test]
fn modifier_set_operations_on_concrete_values() {
    let both = Modifier::shift().bitor(Modifier::control());
    assert!(both.is_shift() && both.is_control());
    assert_eq!(both.bitand(Modifier::shift()), Modifier::shift());
    assert_eq!(both.bitxor(Modifier::shift()), Modifier::control());
    let mut m = Modifier::from_glfw(0);
    m.bitor_assign(Modifier::num_lock());
    assert!(m.is_num_lock());
    assert_eq!(Modifier::from_glfw(m.as_glfw()), m);
}

#[test]
fn joystick_buttons_and_hats_decode() {
    assert_eq!(joystick_buttons(&[]), None);
    assert_eq!(joystick_buttons(&[1, 0]), Some(vec![ButtonState::Press, ButtonState::Release]));
    assert_eq!(joystick_buttons(&[1, 7]), None);
    assert_eq!(joystick_hats(&[]), None);
    assert_eq!(joystick_hats(&[0, 3, 12]), Some(vec![JoystickHatState::Centered, JoystickHatState::UpRight, JoystickHatState::DownLeft]));
    assert_eq!(joystick_hats(&[5]), None);
}

#[test]
fn joystick_config_event_codes() {
    let j = Joystick::from_glfw(4).unwrap();
    assert_eq!(JoystickConfigEvent::from_glfw(4, GLFW_CONNECTED), Some(JoystickConfigEvent::Connected(j)));
    assert_eq!(JoystickConfigEvent::from_glfw(4, GLFW_DISCONNECTED), Some(JoystickConfigEvent::Disconnected(j)));
    assert_eq!(JoystickConfigEvent::from_glfw(16, GLFW_CONNECTED), None);
    assert_eq!(JoystickConfigEvent::Connected(j).as_glfw(), GLFW_CONNECTED);
}

#[test]
fn cursor_shapes_and_creation() {
    assert_eq!(CursorShape::Arrow.standard_code(), Some(GLFW_ARROW_CURSOR));
    let custom = CursorShape::Custom(Image::new(), Pixels { x: 1, y: 1 });
    assert_eq!(custom.standard_code(), None);
    let c = Cursor::try_new(CursorShape::IBeam, |m: XWinMessage| {
        assert_eq!(m, XWinMessage::CreateCursor(CursorShape::IBeam));
        Ok(21)
    })
    .unwrap();
    assert_eq!(c.as_glfw(), 21);
    let e = XErr::CursorUnavailable(String::from("shape"));
    let r = Cursor::try_new(CursorShape::NotAllowed, |_m: XWinMessage| Err(XErr::CursorUnavailable(String::from("shape"))));
    assert_eq!(r.unwrap_err(), e);
    assert_eq!(c.destroy(|m: XWinMessage| {
        assert_eq!(m, XWinMessage::DestroyCursor(21));
        Ok(())
    }), Ok(()));
}

#[test]
fn image_parts_round_trip() {
    let mut img = Image::new();
    assert_eq!((img.width(), img.height(), img.pixels().len()), (0, 0, 0));
    img.set_pixels(1, 2, vec![0; 8]);
    assert_eq!((img.width(), img.height()), (1, 2));
    let (w, h, px) = img.as_glfw();
    assert_eq!((w, h, px.len()), (1, 2, 8));
    let (w, h, px) = img.to_glfw();
    let back = Image::from_glfw(w, h, px);
    assert_eq!(back.pixels(), &[0u8; 8][..]);
}
