use std::cell::RefCell;

use xwin::err::XErr;
use xwin::glfw::{
    GLFW_ANY_POSITION, GLFW_CLIENT_API, GLFW_CONTEXT_VERSION_MAJOR, GLFW_CONTEXT_VERSION_MINOR, GLFW_DONT_CARE,
    GLFW_NO_API, GLFW_OPENGL_CORE_PROFILE, GLFW_OPENGL_PROFILE, GLFW_POSITION_X, GLFW_POSITION_Y, GLFW_RESIZABLE,
    GLFW_SAMPLES, GLFW_VISIBLE, GLFW_WAYLAND_APP_ID, GLFW_X11_CLASS_NAME, GLFW_X11_INSTANCE_NAME,
    GLFW_RED_BITS, GLFW_GREEN_BITS, GLFW_BLUE_BITS,
};
use xwin::window::builder::{ClientApi, GlProfile, WindowBuilder, WindowHint, contains_nul};
use xwin::window::create_window;

fn record(builder: &WindowBuilder, fail_at: Option<usize>) -> (Result<(), XErr>, Vec<WindowHint>) {
    let calls = RefCell::new(Vec::new());
    let set = |n: usize, h: WindowHint| {
        let mut c = calls.borrow_mut();
        c.push(h);
        if Some(c.len()) == fail_at {
            (n + 1, Err(XErr::InvalidEnum(String::from("bad hint"))))
        } else {
            (n + 1, Ok(()))
        }
    };
    let (made, r) = builder.apply(0, &set);
    let calls = calls.into_inner();
    assert_eq!(made, calls.len());
    (r, calls)
}

#[test]
fn builder_new_applies_defaults_and_any_position() {
    let b = WindowBuilder::new();
    let (r, calls) = record(&b, None);
    assert_eq!(r, Ok(()));
    assert_eq!(
        calls,
        vec![
            WindowHint::Defaults,
            WindowHint::Integer(GLFW_POSITION_X, GLFW_ANY_POSITION as i32),
            WindowHint::Integer(GLFW_POSITION_Y, GLFW_ANY_POSITION as i32),
        ]
    );
}

#[test]
fn builder_hints_are_applied_in_order() {
    let mut b = WindowBuilder::new();
    b.resizable(false).visible(true).samples(None).client_api(ClientApi::NoApi);
    b.wayland_app_id("app");
    b.position(Some(10), None);
    let (r, calls) = record(&b, None);
    assert_eq!(r, Ok(()));
    assert_eq!(
        calls,
        vec![
            WindowHint::Defaults,
            WindowHint::Integer(GLFW_POSITION_X, 10),
            WindowHint::Integer(GLFW_POSITION_Y, GLFW_ANY_POSITION as i32),
            WindowHint::Integer(GLFW_RESIZABLE, 0),
            WindowHint::Integer(GLFW_VISIBLE, 1),
            WindowHint::Integer(GLFW_SAMPLES, GLFW_DONT_CARE),
            WindowHint::Integer(GLFW_CLIENT_API, 0),
            WindowHint::Text(GLFW_WAYLAND_APP_ID, String::from("app")),
        ]
    );
}

#[test]
fn builder_later_hint_wins_on_concrete_values() {
    let mut b = WindowBuilder::new();
    b.resizable(true).resizable(false);
    let (_, calls) = record(&b, None);
    let last = calls
        .iter()
        .filter_map(|c| match c {
            WindowHint::Integer(h, v) if *h == GLFW_RESIZABLE => Some(*v),
            _ => None,
        })
        .last();
    assert_eq!(last, Some(0));
}

#[test]
fn builder_compound_setters() {
    let mut b = WindowBuilder::new();
    b.rgb_bits(Some(8), None, Some(5)).context_version(3, 3).opengl_profile(GlProfile::Core);
    b.x11_class_name("cls", "inst");
    let (_, calls) = record(&b, None);
    assert_eq!(
        &calls[3..],
        &[
            WindowHint::Integer(GLFW_RED_BITS, 8),
            WindowHint::Integer(GLFW_GREEN_BITS, GLFW_DONT_CARE),
            WindowHint::Integer(GLFW_BLUE_BITS, 5),
            WindowHint::Integer(GLFW_CONTEXT_VERSION_MAJOR, 3),
            WindowHint::Integer(GLFW_CONTEXT_VERSION_MINOR, 3),
            WindowHint::Integer(GLFW_OPENGL_PROFILE, GLFW_OPENGL_CORE_PROFILE as i32),
            WindowHint::Text(GLFW_X11_CLASS_NAME, String::from("cls")),
            WindowHint::Text(GLFW_X11_INSTANCE_NAME, String::from("inst")),
        ]
    );
}

#[test]
fn builder_first_error_stops_application() {
    let mut b = WindowBuilder::new();
    b.resizable(false).visible(false);
    let (r, calls) = record(&b, Some(4));
    assert_eq!(r, Err(XErr::InvalidEnum(String::from("bad hint"))));
    assert_eq!(calls.len(), 4);
}

#[test]
fn builder_null_byte_in_string_hint() {
    let mut b = WindowBuilder::new();
    b.wayland_app_id("a\0b").resizable(true);
    let (r, calls) = record(&b, None);
    assert_eq!(r, Err(XErr::InvalidValue(String::from("String hint contains a null byte"))));
    // The integer hints were set; the string hint made no call.
    assert_eq!(calls.len(), 4);
    assert!(calls.iter().all(|c| !matches!(c, WindowHint::Text(..))));
}

#[test]
fn builder_clone_keeps_hints() {
    let mut b = WindowBuilder::new();
    b.stereo(true).cocoa_frame_name("frame");
    let c = b.clone();
    assert_eq!(b, c);
    assert_eq!(record(&b, None).1, record(&c, None).1);
}

#[test]
fn builder_contains_nul() {
    assert!(contains_nul("x\0"));
    assert!(!contains_nul("plain"));
    assert!(!contains_nul(""));
}

#[test]
fn create_window_prepares_hints_then_creates() {
    let mut b = WindowBuilder::new();
    b.visible(false);
    let calls = RefCell::new(Vec::new());
    let set = |n: usize, h: WindowHint| {
        calls.borrow_mut().push(h);
        (n + 1, Ok(()))
    };
    let created = RefCell::new(None);
    let create = |n: usize, w: i32, h: i32, t: String, m: Option<usize>| {
        *created.borrow_mut() = Some((n, w, h, t, m));
        Ok(77usize)
    };
    let r = create_window(640, 480, "title", Some(5), Some(&b), 0, set, create);
    assert_eq!(r, (None, Ok(77)));
    assert_eq!(created.into_inner(), Some((5, 640, 480, String::from("title"), Some(5))));
    let calls = calls.into_inner();
    assert_eq!(calls.len(), 5);
    assert_eq!(calls[0], WindowHint::Defaults);
    assert_eq!(calls[1], WindowHint::Defaults);
    assert!(calls.iter().all(|c| !matches!(c, WindowHint::Integer(h, _) if *h == GLFW_CLIENT_API)));
}

fn creation_calls(builder: &WindowBuilder) -> Vec<WindowHint> {
    let calls = RefCell::new(Vec::new());
    let set = |n: usize, h: WindowHint| {
        calls.borrow_mut().push(h);
        (n + 1, Ok(()))
    };
    let create = |_n: usize, _w: i32, _h: i32, _t: String, _m: Option<usize>| Ok(1usize);
    assert_eq!(create_window(1, 1, "t", None, Some(builder), 0, set, create), (None, Ok(1)));
    calls.into_inner()
}

#[test]
fn create_window_keeps_requested_client_api() {
    let mut b = WindowBuilder::new();
    b.client_api(ClientApi::OpenGl);
    let calls = creation_calls(&b);
    assert_eq!(calls.last(), Some(&WindowHint::Integer(GLFW_CLIENT_API, ClientApi::OpenGl.as_glfw() as i32)));
    let mut b = WindowBuilder::new();
    b.client_api(ClientApi::NoApi);
    let calls = creation_calls(&b);
    assert_eq!(calls.last(), Some(&WindowHint::Integer(GLFW_CLIENT_API, GLFW_NO_API as i32)));
    assert_eq!(calls.len(), 6);
    let mut b = WindowBuilder::new();
    b.client_api(ClientApi::NoApi).client_api(ClientApi::OpenGlEs);
    assert_eq!(b.requested_hint(GLFW_CLIENT_API), Some(ClientApi::OpenGlEs.as_glfw() as i32));
    let calls = creation_calls(&b);
    assert_eq!(calls.last(), Some(&WindowHint::Integer(GLFW_CLIENT_API, ClientApi::OpenGlEs.as_glfw() as i32)));
}

#[test]
fn create_window_rejects_null_in_title() {
    let set = |n: usize, _h: WindowHint| (n + 1, Ok(()));
    let create = |_n: usize, _w: i32, _h: i32, _t: String, _m: Option<usize>| -> Result<usize, XErr> {
        panic!("no window may be created")
    };
    let r = create_window(1, 1, "bad\0title", None, None, 0, set, create);
    assert_eq!(r, (Some(1), Err(XErr::InvalidValue(String::from("Title contains a null byte")))));
}

#[test]
fn create_window_reports_creation_error() {
    let set = |n: usize, _h: WindowHint| (n + 1, Ok(()));
    let create = |_n: usize, _w: i32, _h: i32, _t: String, _m: Option<usize>| -> Result<usize, XErr> {
        Err(XErr::FormatUnavailable(String::from("no format")))
    };
    let r = create_window(1, 1, "t", None, None, 0, set, create);
    assert_eq!(r, (None, Err(XErr::FormatUnavailable(String::from("no format")))));
}

#[test]
fn create_window_reset_failure_stops_everything() {
    let count = RefCell::new(0);
    let set = |n: usize, _h: WindowHint| {
        *count.borrow_mut() += 1;
        (n + 1, Err(XErr::NotInitialized(String::from("no"))))
    };
    let create = |_n: usize, _w: i32, _h: i32, _t: String, _m: Option<usize>| -> Result<usize, XErr> {
        panic!("not reached")
    };
    let r = create_window(1, 1, "t", None, None, 0, set, create);
    assert_eq!(r, (Some(1), Err(XErr::NotInitialized(String::from("no")))));
    assert_eq!(count.into_inner(), 1);
}
