use std::cell::RefCell;

use xwin::err::XErr;
use xwin::glfw::{GLFW_CONNECTED, GLFW_DISCONNECTED};
use xwin::monitor::callback::{MonitorCallbacks, MonitorEvent, add_monitor_callback, remove_monitor_callback, run_monitor_callbacks};
use xwin::monitor::events::{self, monitor_event, monitor_handler, subscribe_monitors, unsubscribe_monitors};
use xwin::monitor::{GammaRamp, Monitor, VideoMode, WorkArea};
use xwin::system::ScreenCoordinates;
use xwin::system::channels::EventChannels;
use xwin::system::exec::XWinMessage;

fn expect<T>(expected: XWinMessage, reply: Result<T, XErr>) -> impl FnOnce(XWinMessage) -> Result<T, XErr> {
    move |m: XWinMessage| {
        assert_eq!(m, expected);
        reply
    }
}

#[test]
fn monitor_all_keeps_order_of_handles() {
    let ms = Monitor::all(expect(XWinMessage::GetMonitors, Ok(vec![4, 2, 9]))).unwrap();
    let hs: Vec<usize> = ms.iter().map(|m| m.as_glfw()).collect();
    assert_eq!(hs, vec![4, 2, 9]);
    let e = XErr::NotInitialized(String::from("no"));
    assert_eq!(Monitor::all(expect(XWinMessage::GetMonitors, Err(e.clone()))).unwrap_err(), e);
}

#[test]
fn monitor_primary_and_queries() {
    let m = Monitor::primary(expect(XWinMessage::GetPrimaryMonitor, Ok(5))).unwrap();
    assert_eq!(m.as_glfw(), 5);
    let pos = ScreenCoordinates { x: 1, y: 2 };
    assert_eq!(m.position(expect(XWinMessage::GetMonitorPos(5), Ok(pos))), Ok(pos));
    let area = WorkArea { pos, size: ScreenCoordinates { x: 3, y: 4 } };
    assert_eq!(m.work_area(expect(XWinMessage::GetMonitorWorkArea(5), Ok(area))), Ok(area));
    assert_eq!(m.name(expect(XWinMessage::GetMonitorName(5), Ok(String::from("DP-1")))), Ok(String::from("DP-1")));
    assert_eq!(m.set_userdata(17, expect(XWinMessage::SetMonitorUserdata(5, 17), Ok(()))), Ok(()));
    assert_eq!(m.userdata(expect(XWinMessage::GetMonitorUserdata(5), Ok(17))), Ok(17));
    let mode = VideoMode::from_glfw(1920, 1080, 8, 8, 8, 60);
    assert_eq!(mode.width(), 1920);
    assert_eq!(mode.refresh_rate(), 60);
    assert_eq!(m.video_mode(expect(XWinMessage::GetMonitorVideoMode(5), Ok(mode))), Ok(mode));
}

#[test]
fn gamma_ramp_new_and_setters() {
    let mut ramp = GammaRamp::new(3, 7);
    assert_eq!(ramp.size(), 3);
    ramp.set_green(1, 100);
    assert_eq!(ramp.green(1), 100);
    assert_eq!(ramp.red(1), 7);
    assert_eq!(ramp.blue(1), 7);
    assert_eq!(ramp.green(0), 7);
}

#[test]
fn gamma_ramp_from_fn_and_glfw() {
    let ramp = GammaRamp::from_fn(4, |i| (i * 10) as u16);
    assert_eq!(ramp.red(3), 30);
    assert_eq!(ramp.blue(0), 0);
    let copy = GammaRamp::from_glfw(2, &[1, 2], &[3, 4], &[5, 6]);
    assert_eq!(copy.size(), 2);
    assert_eq!((copy.red(1), copy.green(0), copy.blue(1)), (2, 3, 6));
    let empty = GammaRamp::default();
    assert_eq!(empty.size(), 0);
}

#[test]
fn gamma_ramp_with_glfw_lends_arrays() {
    let mut ramp = GammaRamp::from_glfw(2, &[1, 2], &[3, 4], &[5, 6]);
    let sum = ramp.with_glfw(|size, r, g, b| size as u32 + r[1] as u32 + g[1] as u32 + b[1] as u32);
    assert_eq!(sum, 2 + 2 + 4 + 6);
}

#[test]
fn monitor_gamma_ramp_messages() {
    let m = Monitor::from_glfw(8);
    let ramp = GammaRamp::new(1, 2);
    assert_eq!(m.set_gamma_ramp(ramp.clone(), expect(XWinMessage::SetGammaRamp(8, ramp.clone()), Ok(()))), Ok(()));
    assert_eq!(m.get_gamma_ramp(expect(XWinMessage::GammaRamp(8), Ok(ramp.clone()))), Ok(ramp));
}

type Callback = fn(&Monitor, MonitorEvent) -> char;

fn run_and_collect(cbs: &MonitorCallbacks<Callback>, handle: usize, code: u32) -> Vec<(char, usize, MonitorEvent)> {
    run_monitor_callbacks(cbs, handle, code, Vec::new(), |mut seen: Vec<(char, usize, MonitorEvent)>, f: &Callback, m: &Monitor, e: MonitorEvent| {
        seen.push((f(m, e), m.as_glfw(), e));
        seen
    })
}

#[test]
fn monitor_callbacks_add_run_remove() {
    let mut cbs: MonitorCallbacks<Callback> = MonitorCallbacks::new();
    fn first(_m: &Monitor, _e: MonitorEvent) -> char {
        'a'
    }
    fn second(_m: &Monitor, _e: MonitorEvent) -> char {
        'b'
    }
    let a = add_monitor_callback(&mut cbs, first as Callback);
    let b = add_monitor_callback(&mut cbs, second as Callback);
    assert_ne!(a, b);
    assert_eq!(
        run_and_collect(&cbs, 1, GLFW_CONNECTED),
        vec![('a', 1, MonitorEvent::Connected), ('b', 1, MonitorEvent::Connected)]
    );
    assert_eq!(run_and_collect(&cbs, 1, 0x12345), Vec::new());
    remove_monitor_callback(&mut cbs, a);
    assert_eq!(run_and_collect(&cbs, 2, GLFW_DISCONNECTED), vec![('b', 2, MonitorEvent::Disconnected)]);
    remove_monitor_callback(&mut cbs, a);
    assert_eq!(cbs.entries().len(), 1);
    assert_eq!(cbs.entries()[0].0, b);
}

#[test]
fn monitor_callback_event_codes() {
    assert_eq!(MonitorEvent::from_glfw(GLFW_CONNECTED), Some(MonitorEvent::Connected));
    assert_eq!(MonitorEvent::from_glfw(GLFW_DISCONNECTED), Some(MonitorEvent::Disconnected));
    assert_eq!(MonitorEvent::from_glfw(7), None);
    assert_eq!(MonitorEvent::Disconnected.as_glfw(), GLFW_DISCONNECTED);
}

#[test]
fn monitor_event_names_disconnected_monitor() {
    assert_eq!(
        monitor_event(3, GLFW_CONNECTED, |_h| -> String { panic!("not named") }),
        Some(events::MonitorEvent::Connected(Monitor::from_glfw(3)))
    );
    assert_eq!(
        monitor_event(3, GLFW_DISCONNECTED, |h| format!("monitor {h}")),
        Some(events::MonitorEvent::Disconnected(String::from("monitor 3")))
    );
    assert_eq!(
        monitor_event(3, 99, |_h| -> String { panic!("not named") }),
        None
    );
}

#[test]
fn monitor_handler_removes_failed_channel() {
    let mut xwin: Option<EventChannels<u8, u8>> = Some(EventChannels::new());
    assert_eq!(subscribe_monitors(&mut xwin, 1), Ok(()));
    let got = RefCell::new(Vec::new());
    let ok = monitor_handler(&mut xwin, 4, GLFW_CONNECTED, |_h| String::new(), |tx: &u8, e| {
        got.borrow_mut().push((*tx, e));
        true
    });
    assert!(ok);
    assert_eq!(got.into_inner(), vec![(1, events::MonitorEvent::Connected(Monitor::from_glfw(4)))]);
    assert!(xwin.as_ref().unwrap().monitor().is_some());
    let ok = monitor_handler(&mut xwin, 4, GLFW_DISCONNECTED, |_h| String::from("gone"), |_tx: &u8, _e| false);
    assert!(!ok);
    assert!(xwin.as_ref().unwrap().monitor().is_none());
    assert_eq!(unsubscribe_monitors(&mut xwin), Ok(()));
}

#[test]
fn monitor_handler_ignores_unknown_code() {
    let mut xwin: Option<EventChannels<u8, u8>> = Some(EventChannels::new());
    assert_eq!(subscribe_monitors(&mut xwin, 1), Ok(()));
    let got = RefCell::new(Vec::new());
    let ok = monitor_handler(&mut xwin, 4, 99, |_h| -> String { panic!("not named") }, |tx: &u8, e| {
        got.borrow_mut().push((*tx, e));
        false
    });
    assert!(!ok);
    assert!(got.into_inner().is_empty());
    assert!(xwin.as_ref().unwrap().monitor().is_some());
}

#[test]
fn monitor_subscribe_needs_initialization() {
    let mut xwin: Option<EventChannels<u8, u8>> = None;
    assert_eq!(
        subscribe_monitors(&mut xwin, 1),
        Err(XErr::NotInitialized(String::from("XWin has not been initialized")))
    );
    let sent = monitor_handler(&mut xwin, 1, GLFW_CONNECTED, |_h| String::new(), |_tx: &u8, _e| true);
    assert!(!sent);
}
