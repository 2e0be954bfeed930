use std::cell::RefCell;

use xwin::err::XErr;
use xwin::glfw::{GLFW_CONNECTED, GLFW_DISCONNECTED, GLFW_PLATFORM, GLFW_PLATFORM_NULL, GLFW_PLATFORM_X11, GLFW_TRUE};
use xwin::input::event::{JoystickConfigEvent, joystick_handler};
use xwin::input::gamepad::Joystick;
use xwin::system::channels::{EventChannels, clear_joystick_channel, clear_monitor_channel, set_joystick_channel, set_monitor_channel};
use xwin::system::exec::XWinMessage;
use xwin::system::{LoopStep, Platform, Received, XWin, run_step};

#[test]
fn run_step_decisions() {
    assert!(matches!(run_step(Received::Message(XWinMessage::Terminate)), LoopStep::Stop));
    assert!(matches!(run_step(Received::Disconnected), LoopStep::Stop));
    assert!(matches!(run_step(Received::Empty), LoopStep::Wait));
    match run_step(Received::Message(XWinMessage::GetMonitors)) {
        LoopStep::Handle(m) => assert_eq!(m, XWinMessage::GetMonitors),
        _ => panic!("expected a message to handle"),
    }
}

#[test]
fn init_refuses_second_initialization() {
    let r = XWin::init(
        (),
        |g: ()| (g, false),
        |_g: ()| -> ((), i32) { panic!("GLFW is not initialized twice") },
        |_g: ()| XErr::Unknown(String::new()),
        |g: ()| g,
        |g: ()| -> ((), Result<(), String>) { (g, Ok(())) },
        |g: ()| g,
        |g: ()| g,
        |_h: (), _g: ()| {},
    );
    assert_eq!(r, Err(XErr::Reinitialized(String::from("XWin has already been initialized"))));
}

#[test]
fn init_reports_glfw_error() {
    let r = XWin::init(
        (),
        |g: ()| (g, true),
        |g: ()| (g, 0),
        |_g: ()| XErr::PlatformUnavailable(String::from("none")),
        |_g: ()| -> () { panic!("no callback without GLFW") },
        |_g: ()| -> ((), Result<(), String>) { panic!("no thread without GLFW") },
        |g: ()| g,
        |g: ()| g,
        |_h: (), _g: ()| {},
    );
    assert_eq!(r, Err(XErr::PlatformUnavailable(String::from("none"))));
}

#[test]
fn init_reports_thread_failure() {
    let terminated = RefCell::new(false);
    let r = XWin::init(
        (),
        |g: ()| (g, true),
        |g: ()| (g, GLFW_TRUE as i32),
        |_g: ()| XErr::Unknown(String::new()),
        |g: ()| g,
        |g: ()| -> ((), Result<(), String>) { (g, Err(String::from("no threads"))) },
        |_g: ()| -> () { panic!("no loop without the thread") },
        |g: ()| {
            *terminated.borrow_mut() = true;
            g
        },
        |_h: (), _g: ()| {},
    );
    assert_eq!(r, Err(XErr::PlatformError(String::from("no threads"))));
    assert!(terminated.into_inner());
}

#[test]
fn init_runs_loop_then_terminates_and_joins() {
    let steps = RefCell::new(Vec::new());
    let step = |n: u32, name: &'static str| {
        steps.borrow_mut().push((n, name));
        n + 1
    };
    let r = XWin::init(
        0u32,
        |n: u32| (step(n, "register"), true),
        |n: u32| (step(n, "init"), GLFW_TRUE as i32),
        |_n: u32| XErr::Unknown(String::new()),
        |n: u32| step(n, "subscribe"),
        |n: u32| -> (u32, Result<u32, String>) { (step(n, "spawn"), Ok(5)) },
        |n: u32| step(n, "run"),
        |n: u32| step(n, "terminate"),
        |h: u32, n: u32| {
            assert_eq!(h, 5);
            step(n, "join");
        },
    );
    assert_eq!(r, Ok(()));
    assert_eq!(
        steps.into_inner(),
        vec![(0, "register"), (1, "init"), (2, "subscribe"), (3, "spawn"), (4, "run"), (5, "terminate"), (6, "join")]
    );
}

#[test]
fn terminate_posts_terminate() {
    let seen = RefCell::new(None);
    XWin::terminate(|m: XWinMessage| {
        *seen.borrow_mut() = Some(m);
        Ok(())
    });
    assert_eq!(seen.into_inner(), Some(XWinMessage::Terminate));
}

#[test]
fn platform_selection_codes() {
    let hint = RefCell::new(None);
    XWin::set_platform(Platform::Null, |h, v| *hint.borrow_mut() = Some((h, v)));
    assert_eq!(hint.into_inner(), Some((GLFW_PLATFORM as i32, GLFW_PLATFORM_NULL as i32)));
    assert_eq!(XWin::platform(GLFW_PLATFORM_X11, || XErr::Unknown(String::new())), Ok(Platform::X11));
    assert_eq!(XWin::platform(0, || XErr::NotInitialized(String::from("n"))), Err(XErr::NotInitialized(String::from("n"))));
    assert_eq!(XWin::platform(0x7777, || XErr::NotInitialized(String::new())), Err(XErr::Unknown(String::from("Unknown error"))));
    assert!(XWin::platform_supported(Platform::X11, |code| if code == GLFW_PLATFORM_X11 as i32 { 1 } else { 0 }));
    assert!(!XWin::platform_supported(Platform::Windows, |_code| 2));
    assert_eq!(XWin::glfw_version(|| (3, 4, 0)), (3, 4, 0));
}

#[test]
fn channels_set_and_clear() {
    let mut xwin: Option<EventChannels<u8, u16>> = Some(EventChannels::new());
    assert_eq!(set_joystick_channel(&mut xwin, 1), Ok(()));
    assert_eq!(set_monitor_channel(&mut xwin, 2), Ok(()));
    assert_eq!(xwin.as_ref().unwrap().joystick(), Some(&1));
    assert_eq!(clear_joystick_channel(&mut xwin), Ok(()));
    assert_eq!(xwin.as_ref().unwrap().joystick(), None);
    assert_eq!(xwin.as_ref().unwrap().monitor(), Some(&2));
    assert_eq!(clear_monitor_channel(&mut xwin), Ok(()));
    assert_eq!(xwin.as_ref().unwrap().monitor(), None);
    let mut none: Option<EventChannels<u8, u16>> = None;
    assert_eq!(
        clear_joystick_channel(&mut none),
        Err(XErr::NotInitialized(String::from("XWin has not been initialized")))
    );
}

#[test]
fn joystick_handler_delivers_to_channel() {
    let mut xwin: Option<EventChannels<u8, u16>> = Some(EventChannels::new());
    let got = RefCell::new(None);
    assert!(!joystick_handler(&xwin, 0, GLFW_CONNECTED, |_tx: &u8, _e| true));
    set_joystick_channel(&mut xwin, 3).unwrap();
    assert!(joystick_handler(&xwin, 2, GLFW_DISCONNECTED, |tx: &u8, e| {
        *got.borrow_mut() = Some((*tx, e));
        true
    }));
    assert_eq!(got.into_inner(), Some((3, JoystickConfigEvent::Disconnected(Joystick::from_glfw(2).unwrap()))));
    assert!(!joystick_handler(&xwin, 99, GLFW_CONNECTED, |_tx: &u8, _e| true));
}
