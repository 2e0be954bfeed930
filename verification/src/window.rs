//! Windows: their creation, their controls and their attributes.
//!
//! A [Window] is held by the handle of its GLFW window. Each operation sends
//! one message to GLFW's main thread through the closure it is handed, and
//! its contract names that message and says what the operation makes of the
//! reply. The `try_` operations return the reply as a `Result`; the others
//! fall back to a default value when GLFW reports an error.
use vstd::prelude::*;
use vstd::string::StringExecFns;

pub mod builder;
pub mod ctx;
pub mod event;
pub mod input;

use crate::err::XErr;
use crate::glfw::{
    GLFW_POSITION_X, GLFW_POSITION_Y, GLFW_AUTO_ICONIFY, GLFW_CLIENT_API, GLFW_DECORATED, GLFW_DONT_CARE, GLFW_FLOATING,
    GLFW_FOCUSED, GLFW_FOCUS_ON_SHOW, GLFW_HOVERED, GLFW_ICONIFIED, GLFW_MAXIMIZED,
    GLFW_MOUSE_PASSTHROUGH, GLFW_NO_API, GLFW_RESIZABLE, GLFW_TRANSPARENT_FRAMEBUFFER, GLFW_VISIBLE,
};
use crate::monitor::Monitor;
use crate::system::exec::XWinMessage;
use crate::system::image::Image;
use crate::system::{Pixels, ScreenCoordinates, from_glfw_bool, glfw_bool, to_glfw_bool};
use crate::window::builder::{
    HintStep, WindowBuilder, WindowBuilderView, WindowHint, chain_ok, contains_nul, hint_calls, hint_or_dont_care,
    hints_applied, int_hints_after, last_hint, lemma_chain_concat, lemma_chain_push, lemma_chain_then_failure,
    lemma_failure_extends, lemma_last_int_hint_holds, lemma_reset_forgets, lemma_texts_keep_int_hints, or_dont_care,
    step_failed, step_ok,
};
use crate::window::input::WindowInput;

verus! {

/// The value of a reply, or `default` when the call failed.
pub open spec fn reply_or<T>(reply: Result<T, XErr>, default: T) -> T {
    match reply {
        Ok(v) => v,
        Err(_) => default,
    }
}

/// Whether `r` is the flag that the GLFW boolean in `reply` stands for, or
/// the same error.
pub open spec fn flag_reply(r: Result<bool, XErr>, reply: Result<i32, XErr>) -> bool {
    match (r, reply) {
        (Ok(b), Ok(v)) => b == from_glfw_bool(v),
        (Err(a), Err(b)) => a == b,
        _ => false,
    }
}

/// The flag that a GLFW boolean reply stands for, `false` when the call
/// failed.
pub open spec fn flag_or_false(reply: Result<i32, XErr>) -> bool {
    match reply {
        Ok(v) => from_glfw_bool(v),
        Err(_) => false,
    }
}

/// What is read back of a flag that GLFW holds as written: the GLFW
/// boolean that a setter sends for `value` decodes to `value` again.
pub proof fn lemma_flag_read_back(value: bool, r: Result<bool, XErr>)
    requires
        flag_reply(r, Ok(glfw_bool(value))),
    ensures
        r == Ok::<bool, XErr>(value),
{
}

/// The text of a string reply, empty when the call failed.
pub open spec fn text_or_empty(reply: Result<String, XErr>) -> Seq<char> {
    match reply {
        Ok(s) => s@,
        Err(_) => Seq::empty(),
    }
}

/// Decodes a GLFW boolean reply.
pub fn decode_flag(reply: Result<i32, XErr>) -> (r: Result<bool, XErr>)
    ensures
        flag_reply(r, reply),
{
    match reply {
        Ok(v) => Ok(v == 1),
        Err(e) => Err(e),
    }
}

/// The handle of an optional monitor.
pub open spec fn monitor_handle(monitor: Option<Monitor>) -> Option<usize> {
    match monitor {
        Some(m) => Some(m@),
        None => None,
    }
}

fn handle_of(monitor: Option<Monitor>) -> (r: Option<usize>)
    ensures
        r == monitor_handle(monitor),
{
    match monitor {
        Some(m) => Some(m.as_glfw()),
        None => None,
    }
}

/// The numerator and denominator sent for an optional aspect ratio:
/// [GLFW_DONT_CARE] for both when there is none.
pub open spec fn aspect_or_dont_care(ratio: Option<(i32, i32)>) -> (i32, i32) {
    match ratio {
        Some(r) => r,
        None => (GLFW_DONT_CARE, GLFW_DONT_CARE),
    }
}

/// Whether `msg` asks the main thread to create a window of the given size
/// and title, full screen on `monitor` if there is one, with the hints of
/// `builder` if there is one.
pub open spec fn create_window_msg(
    msg: XWinMessage,
    width: i32,
    height: i32,
    title: Seq<char>,
    monitor: Option<usize>,
    builder: Option<WindowBuilderView>,
) -> bool {
    match msg {
        XWinMessage::CreateWindow { width: w, height: h, title: t, monitor: m, builder: b } => {
            &&& w == width
            &&& h == height
            &&& t@ == title
            &&& m == monitor
            &&& match (b, builder) {
                (None, None) => true,
                (Some(x), Some(y)) => x@ == y,
                _ => false,
            }
        },
        _ => false,
    }
}

/// Whether `msg` asks the main thread to set the title of the window
/// `handle` to `title`.
pub open spec fn set_title_msg(msg: XWinMessage, handle: usize, title: Seq<char>) -> bool {
    msg matches XWinMessage::SetWindowTitle(h, t) && h == handle && t@ == title
}

/// Whether `r` is the window with the handle of `reply`, or the same error.
pub open spec fn window_reply(r: Result<Window, XErr>, reply: Result<usize, XErr>) -> bool {
    match (r, reply) {
        (Ok(w), Ok(h)) => w@ == h,
        (Err(a), Err(b)) => a == b,
        _ => false,
    }
}

/// Whether `r` is the monitor (or none) that `reply` names, or the same
/// error.
pub open spec fn window_monitor_reply(r: Result<Option<Monitor>, XErr>, reply: Result<Option<usize>, XErr>) -> bool {
    match (r, reply) {
        (Ok(m), Ok(h)) => monitor_handle(m) == h,
        (Err(a), Err(b)) => a == b,
        _ => false,
    }
}

/// Whether the builder asks for no client API: its last client API hint is
/// [GLFW_NO_API].
pub open spec fn asks_no_api(builder: Option<WindowBuilderView>) -> bool {
    builder matches Some(b) && last_hint(b.hints, GLFW_CLIENT_API) == Some(GLFW_NO_API as i32)
}

/// The hint calls made on the main thread before a window is created: a
/// reset to the defaults, the builder's hints if there is a builder, then,
/// when the builder asks for no client API, that hint once more. A client
/// API the builder asks for is never overridden; without one GLFW's default
/// (OpenGL) holds.
pub open spec fn creation_steps(builder: Option<WindowBuilderView>) -> Seq<HintStep> {
    seq![HintStep::Reset] + match builder {
        Some(b) => hint_calls(b),
        None => Seq::empty(),
    } + if asks_no_api(builder) {
        seq![HintStep::Integer(GLFW_CLIENT_API, GLFW_NO_API as i32)]
    } else {
        Seq::empty()
    }
}

/// The client API that a builder asks for is the one the window is created
/// with: once the creation hints are applied, the client API hint holds the
/// builder's last value for it.
pub proof fn lemma_requested_client_api_kept(b: WindowBuilderView, value: i32)
    requires
        last_hint(b.hints, GLFW_CLIENT_API) == Some(value),
    ensures
        int_hints_after(creation_steps(Some(b))).contains_key(GLFW_CLIENT_API),
        int_hints_after(creation_steps(Some(b)))[GLFW_CLIENT_API] == value,
{
    let head = seq![HintStep::Reset, HintStep::Integer(GLFW_POSITION_X, b.position.x), HintStep::Integer(GLFW_POSITION_Y, b.position.y)];
    let ints = b.hints.map_values(|h: (u32, i32)| HintStep::Integer(h.0, h.1));
    lemma_last_int_hint_holds(head, b.hints, GLFW_CLIENT_API, value);
    lemma_texts_keep_int_hints(head + ints, b.strings);
    lemma_reset_forgets(seq![HintStep::Reset], hint_calls(b));
    let applied = seq![HintStep::Reset] + hint_calls(b);
    if asks_no_api(Some(b)) {
        let steps = applied.push(HintStep::Integer(GLFW_CLIENT_API, GLFW_NO_API as i32));
        assert(creation_steps(Some(b)) =~= steps);
        assert(steps.drop_last() =~= applied);
    } else {
        assert(creation_steps(Some(b)) =~= applied);
    }
}

/// The error that a title with a null character gives.
pub open spec fn is_nul_title_error(e: XErr) -> bool {
    e matches XErr::InvalidValue(m) && m@ == "Title contains a null byte"@
}

/// Whether `r` is the outcome of creating a window on the main thread from
/// the token `start`: the hint calls of [creation_steps] are made through
/// `set` in order, the token passed from call to call, the title is checked
/// for a null character, then `create` is called with the last token, the
/// size, the title and the monitor. The first failure ends it. `r.0` holds
/// the token left when `create` was not called, and is `None` when it was.
pub open spec fn window_created<
    T,
    S: Fn(T, WindowHint) -> (T, Result<(), XErr>),
    C: FnOnce(T, i32, i32, String, Option<usize>) -> Result<usize, XErr>,
>(
    set: S,
    create: C,
    start: T,
    width: i32,
    height: i32,
    title: Seq<char>,
    monitor: Option<usize>,
    builder: Option<WindowBuilderView>,
    r: (Option<T>, Result<usize, XErr>),
) -> bool {
    let steps = creation_steps(builder);
    match r.0 {
        Some(end) => match r.1 {
            Ok(_) => false,
            Err(e) => {
                ||| hints_applied(set, start, steps, end, Err::<(), XErr>(e))
                ||| chain_ok(set, start, steps, end) && title.contains('\0') && is_nul_title_error(e)
            },
        },
        None => exists|end: T, t: String|
            #![trigger call_ensures(create, (end, width, height, t, monitor), r.1)]
            chain_ok(set, start, steps, end) && !title.contains('\0') && t@ == title
            && call_ensures(create, (end, width, height, t, monitor), r.1),
    }
}

/// A window created from a builder that asks for a client API is created
/// with that client API: the hint calls made before `create` are exactly
/// those of [creation_steps], in order, and after them the client API hint
/// holds the value the builder asked for.
pub proof fn lemma_created_with_requested_client_api<
    T,
    S: Fn(T, WindowHint) -> (T, Result<(), XErr>),
    C: FnOnce(T, i32, i32, String, Option<usize>) -> Result<usize, XErr>,
>(
    set: S,
    create: C,
    start: T,
    width: i32,
    height: i32,
    title: Seq<char>,
    monitor: Option<usize>,
    b: WindowBuilderView,
    r: (Option<T>, Result<usize, XErr>),
    value: i32,
)
    requires
        window_created(set, create, start, width, height, title, monitor, Some(b), r),
        r.0 is None,
        last_hint(b.hints, GLFW_CLIENT_API) == Some(value),
    ensures
        exists|end: T| #[trigger] chain_ok(set, start, creation_steps(Some(b)), end),
        int_hints_after(creation_steps(Some(b))).contains_key(GLFW_CLIENT_API),
        int_hints_after(creation_steps(Some(b)))[GLFW_CLIENT_API] == value,
{
    lemma_requested_client_api_kept(b, value);
}

/// Creates a window on GLFW's main thread: resets the window hints, applies
/// those of `builder` if there is one, sets the no-client-API hint once more
/// if the builder asked for it, checks the title, then calls `create`, which
/// makes the window. Each hint call goes through `set`, which reports the
/// error GLFW gave for it; `token` is handed from each call to the next, and
/// the last one to `create`. When `create` is not called the token left is
/// returned with the error.
///
/// # Errors
/// [XErr::InvalidValue] if the title or a string hint holds a null
/// character; otherwise the first error that a call reports.
pub fn create_window<
    T,
    S: Fn(T, WindowHint) -> (T, Result<(), XErr>),
    C: FnOnce(T, i32, i32, String, Option<usize>) -> Result<usize, XErr>,
>(
    width: i32,
    height: i32,
    title: &str,
    monitor: Option<usize>,
    builder: Option<&WindowBuilder>,
    token: T,
    set: S,
    create: C,
) -> (r: (Option<T>, Result<usize, XErr>))
    requires
        forall|t: T, c: WindowHint| call_requires(set, (t, c)),
        forall|t: T, s: String| s@ == title@ ==> call_requires(create, (t, width, height, s, monitor)),
    ensures
        window_created(
            set,
            create,
            token,
            width,
            height,
            title@,
            monitor,
            match builder {
                Some(b) => Some(b@),
                None => None,
            },
            r,
        ),
{
    let ghost view = match builder {
        Some(b) => Some(b@),
        None => None::<WindowBuilderView>,
    };
    let ghost steps = creation_steps(view);
    let ghost inner = match view {
        Some(b) => hint_calls(b),
        None => Seq::<HintStep>::empty(),
    };
    let ghost head = seq![HintStep::Reset] + inner;
    let ghost no_api_step = HintStep::Integer(GLFW_CLIENT_API, GLFW_NO_API as i32);
    let ghost tail = if asks_no_api(view) {
        seq![no_api_step]
    } else {
        Seq::<HintStep>::empty()
    };
    assert(steps =~= head + tail);
    let ghost start = token;
    assert(chain_ok(set, start, steps.take(0), start));
    let (t, res) = set(token, WindowHint::Defaults);
    if let Err(e) = res {
        assert(step_failed(set, start, steps[0], t, e));
        return (Some(t), Err(e));
    }
    proof {
        assert(step_ok(set, start, HintStep::Reset, t));
        lemma_chain_push(set, start, Seq::empty(), start, HintStep::Reset, t);
        assert(Seq::<HintStep>::empty().push(HintStep::Reset) =~= seq![HintStep::Reset]);
    }
    let ghost t0 = t;
    let t = match builder {
        Some(b) => {
            let (t, applied) = b.apply(t, &set);
            if let Err(e) = applied {
                proof {
                    lemma_chain_then_failure(set, start, seq![HintStep::Reset], t0, inner, t, e);
                    lemma_failure_extends(set, start, head, tail, t, e);
                }
                return (Some(t), Err(e));
            }
            proof {
                lemma_chain_concat(set, start, seq![HintStep::Reset], t0, inner, t);
            }
            t
        },
        None => {
            assert(head =~= seq![HintStep::Reset]);
            t
        },
    };
    let wants_no_api = match builder {
        Some(b) => match b.requested_hint(GLFW_CLIENT_API) {
            Some(v) => v == GLFW_NO_API as i32,
            None => false,
        },
        None => false,
    };
    let ghost th = t;
    let t = if wants_no_api {
        assert(asks_no_api(view));
        let (t, res) = set(t, WindowHint::Integer(GLFW_CLIENT_API, GLFW_NO_API as i32));
        if let Err(e) = res {
            proof {
                assert(steps.take(head.len() as int) =~= head);
                assert(steps[head.len() as int] == no_api_step);
                assert(step_failed(set, th, steps[head.len() as int], t, e));
                assert(chain_ok(set, start, steps.take(head.len() as int), th));
            }
            return (Some(t), Err(e));
        }
        proof {
            assert(step_ok(set, th, no_api_step, t));
            lemma_chain_push(set, start, head, th, no_api_step, t);
            assert(head.push(no_api_step) =~= steps);
        }
        t
    } else {
        assert(!asks_no_api(view));
        assert(steps =~= head);
        t
    };
    if contains_nul(title) {
        return (Some(t), Err(XErr::InvalidValue(String::from_str("Title contains a null byte"))));
    }
    let owned = String::from_str(title);
    let created = create(t, width, height, owned, monitor);
    (None, created)
}

/// A window and its context, held by the handle of its GLFW window.
#[derive(Debug, PartialEq, Eq)]
pub struct Window {
    handle: usize,
}

impl View for Window {
    type V = usize;

    closed spec fn view(&self) -> usize {
        self.handle
    }
}

impl Window {
    /// Creates a window and its associated context, full screen on `monitor`
    /// if there is one, with the default window hints. See [WindowBuilder]
    /// for a window with hints of its own.
    ///
    /// # Errors
    /// Possible errors include [XErr::NotInitialized], [XErr::InvalidEnum],
    /// [XErr::InvalidValue], [XErr::ApiUnavailable],
    /// [XErr::VersionUnavailable], [XErr::FormatUnavailable] and
    /// [XErr::PlatformError].
    pub fn try_create<F: FnOnce(XWinMessage) -> Result<usize, XErr>>(
        width: i32,
        height: i32,
        title: &str,
        monitor: Option<Monitor>,
        exec: F,
    ) -> (r: Result<Self, XErr>)
        requires
            forall|msg: XWinMessage|
                create_window_msg(msg, width, height, title@, monitor_handle(monitor), None) ==> call_requires(exec, (msg,)),
        ensures
            exists|msg: XWinMessage, reply: Result<usize, XErr>|
                #[trigger] call_ensures(exec, (msg,), reply)
                && create_window_msg(msg, width, height, title@, monitor_handle(monitor), None)
                && window_reply(r, reply),
    {
        let msg = XWinMessage::CreateWindow {
            width,
            height,
            title: String::from_str(title),
            monitor: handle_of(monitor),
            builder: None,
        };
        let ghost sent = msg;
        assert(create_window_msg(sent, width, height, title@, monitor_handle(monitor), None));
        let reply = exec(msg);
        assert(call_ensures(exec, (sent,), reply));
        match reply {
            Ok(h) => Ok(Window::from_glfw(h)),
            Err(e) => Err(e),
        }
    }

    /// Construct a [Window] from the handle of a GLFW window.
    pub fn from_glfw(handle: usize) -> (r: Self)
        ensures
            r@ == handle,
    {
        Window { handle }
    }

    /// Returns the handle of the GLFW window.
    pub fn as_glfw(&self) -> (r: usize)
        ensures
            r == self@,
    {
        self.handle
    }

    /// Gives access to the input state of this window.
    pub fn input(&mut self) -> (r: WindowInput)
        ensures
            r@ == old(self)@,
            final(self)@ == old(self)@,
    {
        WindowInput::new(self)
    }

    /// Destroys the window and its context.
    pub fn destroy<F: FnOnce(XWinMessage) -> Result<(), XErr>>(self, exec: F) -> (r: Result<(), XErr>)
        requires
            call_requires(exec, (XWinMessage::DestroyWindow(self@),)),
        ensures
            call_ensures(exec, (XWinMessage::DestroyWindow(self@),), r),
    {
        exec(XWinMessage::DestroyWindow(self.handle))
    }

    /// Returns the value of the close flag of the window.
    ///
    /// # Errors
    /// Possible errors include [XErr::NotInitialized].
    pub fn try_should_close<F: FnOnce(XWinMessage) -> Result<i32, XErr>>(&self, exec: F) -> (r: Result<bool, XErr>)
        requires
            call_requires(exec, (XWinMessage::GetWindowShouldClose(self@),)),
        ensures
            exists|reply| #[trigger] call_ensures(exec, (XWinMessage::GetWindowShouldClose(self@),), reply) && flag_reply(r, reply),
    {
        let reply = exec(XWinMessage::GetWindowShouldClose(self.handle));
        decode_flag(reply)
    }

    /// See [Window::try_should_close]; gives `false` when GLFW reports an
    /// error.
    pub fn should_close<F: FnOnce(XWinMessage) -> Result<i32, XErr>>(&self, exec: F) -> (r: bool)
        requires
            call_requires(exec, (XWinMessage::GetWindowShouldClose(self@),)),
        ensures
            exists|reply| #[trigger] call_ensures(exec, (XWinMessage::GetWindowShouldClose(self@),), reply) && r == flag_or_false(reply),
    {
        match self.try_should_close(exec) {
            Ok(v) => v,
            Err(_) => false,
        }
    }

    /// Sets the value of the close flag of the window. This can be used to
    /// override the user's attempt to close the window, or to signal that it
    /// should be closed.
    ///
    /// # Errors
    /// Possible errors include [XErr::NotInitialized].
    pub fn try_set_should_close<F: FnOnce(XWinMessage) -> Result<(), XErr>>(&mut self, value: bool, exec: F) -> (r: Result<(), XErr>)
        requires
            call_requires(exec, (XWinMessage::SetWindowShouldClose(old(self)@, glfw_bool(value)),)),
        ensures
            call_ensures(exec, (XWinMessage::SetWindowShouldClose(old(self)@, glfw_bool(value)),), r),
            final(self)@ == old(self)@,
    {
        exec(XWinMessage::SetWindowShouldClose(self.handle, to_glfw_bool(value)))
    }

    /// See [Window::try_set_should_close].
    pub fn set_should_close<F: FnOnce(XWinMessage) -> Result<(), XErr>>(&mut self, value: bool, exec: F)
        requires
            call_requires(exec, (XWinMessage::SetWindowShouldClose(old(self)@, glfw_bool(value)),)),
        ensures
            exists|reply: Result<(), XErr>| #[trigger] call_ensures(exec, (XWinMessage::SetWindowShouldClose(old(self)@, glfw_bool(value)),), reply),
            final(self)@ == old(self)@,
    {
        let _ = self.try_set_should_close(value, exec);
    }

    /// Returns the title of the window: the one last set by
    /// [Window::try_create] or [Window::set_title].
    ///
    /// # Errors
    /// Possible errors include [XErr::NotInitialized].
    pub fn try_title<F: FnOnce(XWinMessage) -> Result<String, XErr>>(&self, exec: F) -> (r: Result<String, XErr>)
        requires
            call_requires(exec, (XWinMessage::GetWindowTitle(self@),)),
        ensures
            call_ensures(exec, (XWinMessage::GetWindowTitle(self@),), r),
    {
        exec(XWinMessage::GetWindowTitle(self.handle))
    }

    /// See [Window::try_title]; gives an empty title when GLFW reports an
    /// error.
    pub fn title<F: FnOnce(XWinMessage) -> Result<String, XErr>>(&self, exec: F) -> (r: String)
        requires
            call_requires(exec, (XWinMessage::GetWindowTitle(self@),)),
        ensures
            exists|reply| #[trigger] call_ensures(exec, (XWinMessage::GetWindowTitle(self@),), reply) && r@ == text_or_empty(reply),
    {
        match self.try_title(exec) {
            Ok(v) => v,
            Err(_) => String::new(),
        }
    }

    /// Sets the title of the window.
    ///
    /// # Errors
    /// Possible errors include [XErr::NotInitialized] and
    /// [XErr::PlatformError].
    pub fn try_set_title<F: FnOnce(XWinMessage) -> Result<(), XErr>>(&mut self, title: &str, exec: F) -> (r: Result<(), XErr>)
        requires
            forall|msg: XWinMessage| set_title_msg(msg, old(self)@, title@) ==> call_requires(exec, (msg,)),
        ensures
            exists|msg: XWinMessage| #[trigger] call_ensures(exec, (msg,), r) && set_title_msg(msg, old(self)@, title@),
            final(self)@ == old(self)@,
    {
        let msg = XWinMessage::SetWindowTitle(self.handle, String::from_str(title));
        let ghost sent = msg;
        assert(set_title_msg(sent, self@, title@));
        let r = exec(msg);
        assert(call_ensures(exec, (sent,), r));
        r
    }

    /// See [Window::try_set_title].
    pub fn set_title<F: FnOnce(XWinMessage) -> Result<(), XErr>>(&mut self, title: &str, exec: F)
        requires
            forall|msg: XWinMessage| set_title_msg(msg, old(self)@, title@) ==> call_requires(exec, (msg,)),
        ensures
            exists|msg: XWinMessage, reply: Result<(), XErr>| #[trigger] call_ensures(exec, (msg,), reply) && set_title_msg(msg, old(self)@, title@),
            final(self)@ == old(self)@,
    {
        let _ = self.try_set_title(title, exec);
    }

    /// Sets the icon of the window. The system picks the candidate image
    /// closest to the size it needs; with no images the window reverts to its
    /// default icon.
    ///
    /// # Errors
    /// Possible errors include [XErr::NotInitialized], [XErr::InvalidValue],
    /// [XErr::FeatureUnavailable] and [XErr::PlatformError].
    pub fn try_set_icon<F: FnOnce(XWinMessage) -> Result<(), XErr>>(&mut self, icons: Vec<Image>, exec: F) -> (r: Result<(), XErr>)
        requires
            call_requires(exec, (XWinMessage::SetWindowIcon(old(self)@, icons),)),
        ensures
            call_ensures(exec, (XWinMessage::SetWindowIcon(old(self)@, icons),), r),
            final(self)@ == old(self)@,
    {
        exec(XWinMessage::SetWindowIcon(self.handle, icons))
    }

    /// See [Window::try_set_icon].
    pub fn set_icon<F: FnOnce(XWinMessage) -> Result<(), XErr>>(&mut self, icons: Vec<Image>, exec: F)
        requires
            call_requires(exec, (XWinMessage::SetWindowIcon(old(self)@, icons),)),
        ensures
            exists|reply: Result<(), XErr>| #[trigger] call_ensures(exec, (XWinMessage::SetWindowIcon(old(self)@, icons),), reply),
            final(self)@ == old(self)@,
    {
        let _ = self.try_set_icon(icons, exec);
    }

    /// Returns the position, in screen coordinates, of the upper-left corner
    /// of the content area of the window.
    ///
    /// # Errors
    /// Possible errors include [XErr::NotInitialized], [XErr::FeatureUnavailable] and
    /// [XErr::PlatformError].
    pub fn try_position<F: FnOnce(XWinMessage) -> Result<ScreenCoordinates, XErr>>(&self, exec: F) -> (r: Result<ScreenCoordinates, XErr>)
        requires
            call_requires(exec, (XWinMessage::GetWindowPos(self@),)),
        ensures
            call_ensures(exec, (XWinMessage::GetWindowPos(self@),), r),
    {
        exec(XWinMessage::GetWindowPos(self.handle))
    }

    /// See [Window::try_position]; gives `(ScreenCoordinates { x: 0, y: 0 })` when GLFW reports an error.
    pub fn position<F: FnOnce(XWinMessage) -> Result<ScreenCoordinates, XErr>>(&self, exec: F) -> (r: ScreenCoordinates)
        requires
            call_requires(exec, (XWinMessage::GetWindowPos(self@),)),
        ensures
            exists|reply| #[trigger] call_ensures(exec, (XWinMessage::GetWindowPos(self@),), reply) && r == reply_or(reply, (ScreenCoordinates { x: 0, y: 0 })),
    {
        match self.try_position(exec) {
            Ok(v) => v,
            Err(_) => ScreenCoordinates { x: 0, y: 0 },
        }
    }

    /// Sets the position, in screen coordinates, of the upper-left corner of
    /// the content area of the windowed mode window.
    ///
    /// # Errors
    /// Possible errors include [XErr::NotInitialized], [XErr::FeatureUnavailable] and
    /// [XErr::PlatformError].
    pub fn try_set_position<F: FnOnce(XWinMessage) -> Result<(), XErr>>(&mut self, position: ScreenCoordinates, exec: F) -> (r: Result<(), XErr>)
        requires
            call_requires(exec, (XWinMessage::SetWindowPos(old(self)@, position),)),
        ensures
            call_ensures(exec, (XWinMessage::SetWindowPos(old(self)@, position),), r),
            final(self)@ == old(self)@,
    {
        exec(XWinMessage::SetWindowPos(self.handle, position))
    }

    /// See [Window::try_set_position].
    pub fn set_position<F: FnOnce(XWinMessage) -> Result<(), XErr>>(&mut self, position: ScreenCoordinates, exec: F)
        requires
            call_requires(exec, (XWinMessage::SetWindowPos(old(self)@, position),)),
        ensures
            exists|reply: Result<(), XErr>| #[trigger] call_ensures(exec, (XWinMessage::SetWindowPos(old(self)@, position),), reply),
            final(self)@ == old(self)@,
    {
        let _ = self.try_set_position(position, exec);
    }

    /// Returns the size, in screen coordinates, of the content area of the
    /// window.
    ///
    /// # Errors
    /// Possible errors include [XErr::NotInitialized] and [XErr::PlatformError].
    pub fn try_size<F: FnOnce(XWinMessage) -> Result<ScreenCoordinates, XErr>>(&self, exec: F) -> (r: Result<ScreenCoordinates, XErr>)
        requires
            call_requires(exec, (XWinMessage::GetWindowSize(self@),)),
        ensures
            call_ensures(exec, (XWinMessage::GetWindowSize(self@),), r),
    {
        exec(XWinMessage::GetWindowSize(self.handle))
    }

    /// See [Window::try_size]; gives `(ScreenCoordinates { x: 0, y: 0 })` when GLFW reports an error.
    pub fn size<F: FnOnce(XWinMessage) -> Result<ScreenCoordinates, XErr>>(&self, exec: F) -> (r: ScreenCoordinates)
        requires
            call_requires(exec, (XWinMessage::GetWindowSize(self@),)),
        ensures
            exists|reply| #[trigger] call_ensures(exec, (XWinMessage::GetWindowSize(self@),), reply) && r == reply_or(reply, (ScreenCoordinates { x: 0, y: 0 })),
    {
        match self.try_size(exec) {
            Ok(v) => v,
            Err(_) => ScreenCoordinates { x: 0, y: 0 },
        }
    }

    /// Sets the size limits of the content area of the window. A limit of
    /// [GLFW_DONT_CARE] in either dimension leaves that dimension unlimited.
    ///
    /// # Errors
    /// Possible errors include [XErr::NotInitialized], [XErr::InvalidValue] and
    /// [XErr::PlatformError].
    pub fn try_set_size_limits<F: FnOnce(XWinMessage) -> Result<(), XErr>>(&mut self, min: ScreenCoordinates, max: ScreenCoordinates, exec: F) -> (r: Result<(), XErr>)
        requires
            call_requires(exec, (XWinMessage::SetWindowSizeLimits { window: old(self)@, min: min, max: max },)),
        ensures
            call_ensures(exec, (XWinMessage::SetWindowSizeLimits { window: old(self)@, min: min, max: max },), r),
            final(self)@ == old(self)@,
    {
        exec(XWinMessage::SetWindowSizeLimits { window: self.handle, min, max })
    }

    /// See [Window::try_set_size_limits].
    pub fn set_size_limits<F: FnOnce(XWinMessage) -> Result<(), XErr>>(&mut self, min: ScreenCoordinates, max: ScreenCoordinates, exec: F)
        requires
            call_requires(exec, (XWinMessage::SetWindowSizeLimits { window: old(self)@, min: min, max: max },)),
        ensures
            exists|reply: Result<(), XErr>| #[trigger] call_ensures(exec, (XWinMessage::SetWindowSizeLimits { window: old(self)@, min: min, max: max },), reply),
            final(self)@ == old(self)@,
    {
        let _ = self.try_set_size_limits(min, max, exec);
    }

    /// Sets the required aspect ratio of the content area of the window, as a
    /// numerator and a denominator; `None` lifts the requirement.
    ///
    /// # Errors
    /// Possible errors include [XErr::NotInitialized], [XErr::InvalidValue] and
    /// [XErr::PlatformError].
    pub fn try_set_aspect_ratio<F: FnOnce(XWinMessage) -> Result<(), XErr>>(&mut self, ratio: Option<(i32, i32)>, exec: F) -> (r: Result<(), XErr>)
        requires
            call_requires(exec, (XWinMessage::SetWindowAspectRatio { window: old(self)@, numerator: aspect_or_dont_care(ratio).0, denominator: aspect_or_dont_care(ratio).1 },)),
        ensures
            call_ensures(exec, (XWinMessage::SetWindowAspectRatio { window: old(self)@, numerator: aspect_or_dont_care(ratio).0, denominator: aspect_or_dont_care(ratio).1 },), r),
            final(self)@ == old(self)@,
    {
        let value = match ratio {
            Some(v) => v,
            None => (GLFW_DONT_CARE, GLFW_DONT_CARE),
        };
        exec(XWinMessage::SetWindowAspectRatio { window: self.handle, numerator: value.0, denominator: value.1 })
    }

    /// See [Window::try_set_aspect_ratio].
    pub fn set_aspect_ratio<F: FnOnce(XWinMessage) -> Result<(), XErr>>(&mut self, ratio: Option<(i32, i32)>, exec: F)
        requires
            call_requires(exec, (XWinMessage::SetWindowAspectRatio { window: old(self)@, numerator: aspect_or_dont_care(ratio).0, denominator: aspect_or_dont_care(ratio).1 },)),
        ensures
            exists|reply: Result<(), XErr>| #[trigger] call_ensures(exec, (XWinMessage::SetWindowAspectRatio { window: old(self)@, numerator: aspect_or_dont_care(ratio).0, denominator: aspect_or_dont_care(ratio).1 },), reply),
            final(self)@ == old(self)@,
    {
        let _ = self.try_set_aspect_ratio(ratio, exec);
    }

    /// Sets the size, in screen coordinates, of the content area of the
    /// window.
    ///
    /// # Errors
    /// Possible errors include [XErr::NotInitialized] and [XErr::PlatformError].
    pub fn try_set_size<F: FnOnce(XWinMessage) -> Result<(), XErr>>(&mut self, size: ScreenCoordinates, exec: F) -> (r: Result<(), XErr>)
        requires
            call_requires(exec, (XWinMessage::SetWindowSize(old(self)@, size),)),
        ensures
            call_ensures(exec, (XWinMessage::SetWindowSize(old(self)@, size),), r),
            final(self)@ == old(self)@,
    {
        exec(XWinMessage::SetWindowSize(self.handle, size))
    }

    /// See [Window::try_set_size].
    pub fn set_size<F: FnOnce(XWinMessage) -> Result<(), XErr>>(&mut self, size: ScreenCoordinates, exec: F)
        requires
            call_requires(exec, (XWinMessage::SetWindowSize(old(self)@, size),)),
        ensures
            exists|reply: Result<(), XErr>| #[trigger] call_ensures(exec, (XWinMessage::SetWindowSize(old(self)@, size),), reply),
            final(self)@ == old(self)@,
    {
        let _ = self.try_set_size(size, exec);
    }

    /// Returns the size, in pixels, of the framebuffer of the window.
    ///
    /// # Errors
    /// Possible errors include [XErr::NotInitialized] and [XErr::PlatformError].
    pub fn try_framebuffer_size<F: FnOnce(XWinMessage) -> Result<Pixels, XErr>>(&self, exec: F) -> (r: Result<Pixels, XErr>)
        requires
            call_requires(exec, (XWinMessage::GetFrameBufferSize(self@),)),
        ensures
            call_ensures(exec, (XWinMessage::GetFrameBufferSize(self@),), r),
    {
        exec(XWinMessage::GetFrameBufferSize(self.handle))
    }

    /// See [Window::try_framebuffer_size]; gives `(Pixels { x: 0, y: 0 })` when GLFW reports an error.
    pub fn framebuffer_size<F: FnOnce(XWinMessage) -> Result<Pixels, XErr>>(&self, exec: F) -> (r: Pixels)
        requires
            call_requires(exec, (XWinMessage::GetFrameBufferSize(self@),)),
        ensures
            exists|reply| #[trigger] call_ensures(exec, (XWinMessage::GetFrameBufferSize(self@),), reply) && r == reply_or(reply, (Pixels { x: 0, y: 0 })),
    {
        match self.try_framebuffer_size(exec) {
            Ok(v) => v,
            Err(_) => Pixels { x: 0, y: 0 },
        }
    }

    /// Returns the size, in screen coordinates, of each edge of the frame of
    /// the window: left, top, right and bottom.
    ///
    /// # Errors
    /// Possible errors include [XErr::NotInitialized] and [XErr::PlatformError].
    pub fn try_frame_size<F: FnOnce(XWinMessage) -> Result<(u32, u32, u32, u32), XErr>>(&self, exec: F) -> (r: Result<(u32, u32, u32, u32), XErr>)
        requires
            call_requires(exec, (XWinMessage::GetWindowFrameSize(self@),)),
        ensures
            call_ensures(exec, (XWinMessage::GetWindowFrameSize(self@),), r),
    {
        exec(XWinMessage::GetWindowFrameSize(self.handle))
    }

    /// See [Window::try_frame_size]; gives `(0, 0, 0, 0)` when GLFW reports an error.
    pub fn frame_size<F: FnOnce(XWinMessage) -> Result<(u32, u32, u32, u32), XErr>>(&self, exec: F) -> (r: (u32, u32, u32, u32))
        requires
            call_requires(exec, (XWinMessage::GetWindowFrameSize(self@),)),
        ensures
            exists|reply| #[trigger] call_ensures(exec, (XWinMessage::GetWindowFrameSize(self@),), reply) && r == reply_or(reply, (0u32, 0u32, 0u32, 0u32)),
    {
        match self.try_frame_size(exec) {
            Ok(v) => v,
            Err(_) => (0, 0, 0, 0),
        }
    }

    /// Iconifies (minimizes) the window if it was previously restored.
    ///
    /// # Errors
    /// Possible errors include [XErr::NotInitialized] and [XErr::PlatformError].
    pub fn try_iconify<F: FnOnce(XWinMessage) -> Result<(), XErr>>(&self, exec: F) -> (r: Result<(), XErr>)
        requires
            call_requires(exec, (XWinMessage::IconifyWindow(self@),)),
        ensures
            call_ensures(exec, (XWinMessage::IconifyWindow(self@),), r),
    {
        exec(XWinMessage::IconifyWindow(self.handle))
    }

    /// See [Window::try_iconify].
    pub fn iconify<F: FnOnce(XWinMessage) -> Result<(), XErr>>(&self, exec: F)
        requires
            call_requires(exec, (XWinMessage::IconifyWindow(self@),)),
        ensures
            exists|reply: Result<(), XErr>| #[trigger] call_ensures(exec, (XWinMessage::IconifyWindow(self@),), reply),
    {
        let _ = self.try_iconify(exec);
    }

    /// Restores the window if it was previously iconified or maximized.
    ///
    /// # Errors
    /// Possible errors include [XErr::NotInitialized] and [XErr::PlatformError].
    pub fn try_restore<F: FnOnce(XWinMessage) -> Result<(), XErr>>(&self, exec: F) -> (r: Result<(), XErr>)
        requires
            call_requires(exec, (XWinMessage::RestoreWindow(self@),)),
        ensures
            call_ensures(exec, (XWinMessage::RestoreWindow(self@),), r),
    {
        exec(XWinMessage::RestoreWindow(self.handle))
    }

    /// See [Window::try_restore].
    pub fn restore<F: FnOnce(XWinMessage) -> Result<(), XErr>>(&self, exec: F)
        requires
            call_requires(exec, (XWinMessage::RestoreWindow(self@),)),
        ensures
            exists|reply: Result<(), XErr>| #[trigger] call_ensures(exec, (XWinMessage::RestoreWindow(self@),), reply),
    {
        let _ = self.try_restore(exec);
    }

    /// Maximizes the window if it was previously not maximized.
    ///
    /// # Errors
    /// Possible errors include [XErr::NotInitialized] and [XErr::PlatformError].
    pub fn try_maximize<F: FnOnce(XWinMessage) -> Result<(), XErr>>(&self, exec: F) -> (r: Result<(), XErr>)
        requires
            call_requires(exec, (XWinMessage::MaximizeWindow(self@),)),
        ensures
            call_ensures(exec, (XWinMessage::MaximizeWindow(self@),), r),
    {
        exec(XWinMessage::MaximizeWindow(self.handle))
    }

    /// See [Window::try_maximize].
    pub fn maximize<F: FnOnce(XWinMessage) -> Result<(), XErr>>(&self, exec: F)
        requires
            call_requires(exec, (XWinMessage::MaximizeWindow(self@),)),
        ensures
            exists|reply: Result<(), XErr>| #[trigger] call_ensures(exec, (XWinMessage::MaximizeWindow(self@),), reply),
    {
        let _ = self.try_maximize(exec);
    }

    /// Makes the window visible if it was previously hidden.
    ///
    /// # Errors
    /// Possible errors include [XErr::NotInitialized] and [XErr::PlatformError].
    pub fn try_show<F: FnOnce(XWinMessage) -> Result<(), XErr>>(&self, exec: F) -> (r: Result<(), XErr>)
        requires
            call_requires(exec, (XWinMessage::ShowWindow(self@),)),
        ensures
            call_ensures(exec, (XWinMessage::ShowWindow(self@),), r),
    {
        exec(XWinMessage::ShowWindow(self.handle))
    }

    /// See [Window::try_show].
    pub fn show<F: FnOnce(XWinMessage) -> Result<(), XErr>>(&self, exec: F)
        requires
            call_requires(exec, (XWinMessage::ShowWindow(self@),)),
        ensures
            exists|reply: Result<(), XErr>| #[trigger] call_ensures(exec, (XWinMessage::ShowWindow(self@),), reply),
    {
        let _ = self.try_show(exec);
    }

    /// Hides the window if it was previously visible.
    ///
    /// # Errors
    /// Possible errors include [XErr::NotInitialized] and [XErr::PlatformError].
    pub fn try_hide<F: FnOnce(XWinMessage) -> Result<(), XErr>>(&self, exec: F) -> (r: Result<(), XErr>)
        requires
            call_requires(exec, (XWinMessage::HideWindow(self@),)),
        ensures
            call_ensures(exec, (XWinMessage::HideWindow(self@),), r),
    {
        exec(XWinMessage::HideWindow(self.handle))
    }

    /// See [Window::try_hide].
    pub fn hide_window<F: FnOnce(XWinMessage) -> Result<(), XErr>>(&self, exec: F)
        requires
            call_requires(exec, (XWinMessage::HideWindow(self@),)),
        ensures
            exists|reply: Result<(), XErr>| #[trigger] call_ensures(exec, (XWinMessage::HideWindow(self@),), reply),
    {
        let _ = self.try_hide(exec);
    }

    /// Brings the window to front and sets input focus.
    ///
    /// # Errors
    /// Possible errors include [XErr::NotInitialized] and [XErr::PlatformError].
    pub fn try_focus<F: FnOnce(XWinMessage) -> Result<(), XErr>>(&self, exec: F) -> (r: Result<(), XErr>)
        requires
            call_requires(exec, (XWinMessage::FocusWindow(self@),)),
        ensures
            call_ensures(exec, (XWinMessage::FocusWindow(self@),), r),
    {
        exec(XWinMessage::FocusWindow(self.handle))
    }

    /// See [Window::try_focus].
    pub fn focus<F: FnOnce(XWinMessage) -> Result<(), XErr>>(&self, exec: F)
        requires
            call_requires(exec, (XWinMessage::FocusWindow(self@),)),
        ensures
            exists|reply: Result<(), XErr>| #[trigger] call_ensures(exec, (XWinMessage::FocusWindow(self@),), reply),
    {
        let _ = self.try_focus(exec);
    }

    /// Requests user attention to the window.
    ///
    /// # Errors
    /// Possible errors include [XErr::NotInitialized] and [XErr::PlatformError].
    pub fn try_request_attention<F: FnOnce(XWinMessage) -> Result<(), XErr>>(&self, exec: F) -> (r: Result<(), XErr>)
        requires
            call_requires(exec, (XWinMessage::RequestWindowAttention(self@),)),
        ensures
            call_ensures(exec, (XWinMessage::RequestWindowAttention(self@),), r),
    {
        exec(XWinMessage::RequestWindowAttention(self.handle))
    }

    /// See [Window::try_request_attention].
    pub fn request_attention<F: FnOnce(XWinMessage) -> Result<(), XErr>>(&self, exec: F)
        requires
            call_requires(exec, (XWinMessage::RequestWindowAttention(self@),)),
        ensures
            exists|reply: Result<(), XErr>| #[trigger] call_ensures(exec, (XWinMessage::RequestWindowAttention(self@),), reply),
    {
        let _ = self.try_request_attention(exec);
    }

    /// Returns the monitor that the full screen window is on, or `None` for a
    /// windowed mode window.
    ///
    /// # Errors
    /// Possible errors include [XErr::NotInitialized].
    pub fn try_monitor<F: FnOnce(XWinMessage) -> Result<Option<usize>, XErr>>(&self, exec: F) -> (r: Result<Option<Monitor>, XErr>)
        requires
            call_requires(exec, (XWinMessage::GetWindowMonitor(self@),)),
        ensures
            exists|reply| #[trigger] call_ensures(exec, (XWinMessage::GetWindowMonitor(self@),), reply) && window_monitor_reply(r, reply),
    {
        let reply = exec(XWinMessage::GetWindowMonitor(self.handle));
        match reply {
            Ok(Some(h)) => Ok(Some(Monitor::from_glfw(h))),
            Ok(None) => Ok(None),
            Err(e) => Err(e),
        }
    }

    /// See [Window::try_monitor]; gives `None` when GLFW reports an error.
    pub fn monitor<F: FnOnce(XWinMessage) -> Result<Option<usize>, XErr>>(&self, exec: F) -> (r: Option<Monitor>)
        requires
            call_requires(exec, (XWinMessage::GetWindowMonitor(self@),)),
        ensures
            exists|reply| #[trigger] call_ensures(exec, (XWinMessage::GetWindowMonitor(self@),), reply) && monitor_handle(r) == reply_or(reply, None),
    {
        match self.try_monitor(exec) {
            Ok(v) => v,
            Err(_) => None,
        }
    }

    /// Makes the window full screen on `monitor`, with the given size and
    /// refresh rate; `None` for the refresh rate picks the highest available.
    ///
    /// # Errors
    /// Possible errors include [XErr::NotInitialized] and [XErr::PlatformError].
    pub fn try_set_fullscreen<F: FnOnce(XWinMessage) -> Result<(), XErr>>(&mut self, monitor: Monitor, size: ScreenCoordinates, refresh_hz: Option<i32>, exec: F) -> (r: Result<(), XErr>)
        requires
            call_requires(exec, (XWinMessage::SetWindowFullscreen { window: old(self)@, monitor: monitor@, size: size, refresh_rate: hint_or_dont_care(refresh_hz) },)),
        ensures
            call_ensures(exec, (XWinMessage::SetWindowFullscreen { window: old(self)@, monitor: monitor@, size: size, refresh_rate: hint_or_dont_care(refresh_hz) },), r),
            final(self)@ == old(self)@,
    {
        exec(
            XWinMessage::SetWindowFullscreen {
                window: self.handle,
                monitor: monitor.as_glfw(),
                size,
                refresh_rate: or_dont_care(refresh_hz),
            },
        )
    }

    /// See [Window::try_set_fullscreen].
    pub fn set_fullscreen<F: FnOnce(XWinMessage) -> Result<(), XErr>>(&mut self, monitor: Monitor, size: ScreenCoordinates, refresh_hz: Option<i32>, exec: F)
        requires
            call_requires(exec, (XWinMessage::SetWindowFullscreen { window: old(self)@, monitor: monitor@, size: size, refresh_rate: hint_or_dont_care(refresh_hz) },)),
        ensures
            exists|reply: Result<(), XErr>| #[trigger] call_ensures(exec, (XWinMessage::SetWindowFullscreen { window: old(self)@, monitor: monitor@, size: size, refresh_rate: hint_or_dont_care(refresh_hz) },), reply),
            final(self)@ == old(self)@,
    {
        let _ = self.try_set_fullscreen(monitor, size, refresh_hz, exec);
    }

    /// Makes the window windowed, at the given position and with the given
    /// size.
    ///
    /// # Errors
    /// Possible errors include [XErr::NotInitialized] and [XErr::PlatformError].
    pub fn try_set_windowed<F: FnOnce(XWinMessage) -> Result<(), XErr>>(&mut self, position: ScreenCoordinates, size: ScreenCoordinates, exec: F) -> (r: Result<(), XErr>)
        requires
            call_requires(exec, (XWinMessage::SetWindowWindowed { window: old(self)@, position: position, size: size },)),
        ensures
            call_ensures(exec, (XWinMessage::SetWindowWindowed { window: old(self)@, position: position, size: size },), r),
            final(self)@ == old(self)@,
    {
        exec(XWinMessage::SetWindowWindowed { window: self.handle, position, size })
    }

    /// See [Window::try_set_windowed].
    pub fn set_windowed<F: FnOnce(XWinMessage) -> Result<(), XErr>>(&mut self, position: ScreenCoordinates, size: ScreenCoordinates, exec: F)
        requires
            call_requires(exec, (XWinMessage::SetWindowWindowed { window: old(self)@, position: position, size: size },)),
        ensures
            exists|reply: Result<(), XErr>| #[trigger] call_ensures(exec, (XWinMessage::SetWindowWindowed { window: old(self)@, position: position, size: size },), reply),
            final(self)@ == old(self)@,
    {
        let _ = self.try_set_windowed(position, size, exec);
    }

    /// Returns whether the window has input focus.
    ///
    /// # Errors
    /// Possible errors include [XErr::NotInitialized], [XErr::InvalidEnum]
    /// and [XErr::PlatformError].
    pub fn try_is_focused<F: FnOnce(XWinMessage) -> Result<i32, XErr>>(&self, exec: F) -> (r: Result<bool, XErr>)
        requires
            call_requires(exec, (XWinMessage::GetWindowAttribute(self@, GLFW_FOCUSED as i32),)),
        ensures
            exists|reply| #[trigger] call_ensures(exec, (XWinMessage::GetWindowAttribute(self@, GLFW_FOCUSED as i32),), reply) && flag_reply(r, reply),
    {
        let reply = exec(XWinMessage::GetWindowAttribute(self.handle, GLFW_FOCUSED as i32));
        decode_flag(reply)
    }

    /// See [Window::try_is_focused]; gives `false` when GLFW reports an error.
    pub fn is_focused<F: FnOnce(XWinMessage) -> Result<i32, XErr>>(&self, exec: F) -> (r: bool)
        requires
            call_requires(exec, (XWinMessage::GetWindowAttribute(self@, GLFW_FOCUSED as i32),)),
        ensures
            exists|reply| #[trigger] call_ensures(exec, (XWinMessage::GetWindowAttribute(self@, GLFW_FOCUSED as i32),), reply) && r == flag_or_false(reply),
    {
        match self.try_is_focused(exec) {
            Ok(v) => v,
            Err(_) => false,
        }
    }

    /// Returns whether the window is iconified (minimized).
    ///
    /// # Errors
    /// Possible errors include [XErr::NotInitialized], [XErr::InvalidEnum]
    /// and [XErr::PlatformError].
    pub fn try_is_iconified<F: FnOnce(XWinMessage) -> Result<i32, XErr>>(&self, exec: F) -> (r: Result<bool, XErr>)
        requires
            call_requires(exec, (XWinMessage::GetWindowAttribute(self@, GLFW_ICONIFIED as i32),)),
        ensures
            exists|reply| #[trigger] call_ensures(exec, (XWinMessage::GetWindowAttribute(self@, GLFW_ICONIFIED as i32),), reply) && flag_reply(r, reply),
    {
        let reply = exec(XWinMessage::GetWindowAttribute(self.handle, GLFW_ICONIFIED as i32));
        decode_flag(reply)
    }

    /// See [Window::try_is_iconified]; gives `false` when GLFW reports an error.
    pub fn is_iconified<F: FnOnce(XWinMessage) -> Result<i32, XErr>>(&self, exec: F) -> (r: bool)
        requires
            call_requires(exec, (XWinMessage::GetWindowAttribute(self@, GLFW_ICONIFIED as i32),)),
        ensures
            exists|reply| #[trigger] call_ensures(exec, (XWinMessage::GetWindowAttribute(self@, GLFW_ICONIFIED as i32),), reply) && r == flag_or_false(reply),
    {
        match self.try_is_iconified(exec) {
            Ok(v) => v,
            Err(_) => false,
        }
    }

    /// Returns whether the window is maximized.
    ///
    /// # Errors
    /// Possible errors include [XErr::NotInitialized], [XErr::InvalidEnum]
    /// and [XErr::PlatformError].
    pub fn try_is_maximized<F: FnOnce(XWinMessage) -> Result<i32, XErr>>(&self, exec: F) -> (r: Result<bool, XErr>)
        requires
            call_requires(exec, (XWinMessage::GetWindowAttribute(self@, GLFW_MAXIMIZED as i32),)),
        ensures
            exists|reply| #[trigger] call_ensures(exec, (XWinMessage::GetWindowAttribute(self@, GLFW_MAXIMIZED as i32),), reply) && flag_reply(r, reply),
    {
        let reply = exec(XWinMessage::GetWindowAttribute(self.handle, GLFW_MAXIMIZED as i32));
        decode_flag(reply)
    }

    /// See [Window::try_is_maximized]; gives `false` when GLFW reports an error.
    pub fn is_maximized<F: FnOnce(XWinMessage) -> Result<i32, XErr>>(&self, exec: F) -> (r: bool)
        requires
            call_requires(exec, (XWinMessage::GetWindowAttribute(self@, GLFW_MAXIMIZED as i32),)),
        ensures
            exists|reply| #[trigger] call_ensures(exec, (XWinMessage::GetWindowAttribute(self@, GLFW_MAXIMIZED as i32),), reply) && r == flag_or_false(reply),
    {
        match self.try_is_maximized(exec) {
            Ok(v) => v,
            Err(_) => false,
        }
    }

    /// Returns whether the cursor is directly over the content area of the window,
    /// with no other windows between.
    ///
    /// # Errors
    /// Possible errors include [XErr::NotInitialized], [XErr::InvalidEnum]
    /// and [XErr::PlatformError].
    pub fn try_is_hovered<F: FnOnce(XWinMessage) -> Result<i32, XErr>>(&self, exec: F) -> (r: Result<bool, XErr>)
        requires
            call_requires(exec, (XWinMessage::GetWindowAttribute(self@, GLFW_HOVERED as i32),)),
        ensures
            exists|reply| #[trigger] call_ensures(exec, (XWinMessage::GetWindowAttribute(self@, GLFW_HOVERED as i32),), reply) && flag_reply(r, reply),
    {
        let reply = exec(XWinMessage::GetWindowAttribute(self.handle, GLFW_HOVERED as i32));
        decode_flag(reply)
    }

    /// See [Window::try_is_hovered]; gives `false` when GLFW reports an error.
    pub fn is_hovered<F: FnOnce(XWinMessage) -> Result<i32, XErr>>(&self, exec: F) -> (r: bool)
        requires
            call_requires(exec, (XWinMessage::GetWindowAttribute(self@, GLFW_HOVERED as i32),)),
        ensures
            exists|reply| #[trigger] call_ensures(exec, (XWinMessage::GetWindowAttribute(self@, GLFW_HOVERED as i32),), reply) && r == flag_or_false(reply),
    {
        match self.try_is_hovered(exec) {
            Ok(v) => v,
            Err(_) => false,
        }
    }

    /// Returns whether the window is visible.
    ///
    /// # Errors
    /// Possible errors include [XErr::NotInitialized], [XErr::InvalidEnum]
    /// and [XErr::PlatformError].
    pub fn try_is_visible<F: FnOnce(XWinMessage) -> Result<i32, XErr>>(&self, exec: F) -> (r: Result<bool, XErr>)
        requires
            call_requires(exec, (XWinMessage::GetWindowAttribute(self@, GLFW_VISIBLE as i32),)),
        ensures
            exists|reply| #[trigger] call_ensures(exec, (XWinMessage::GetWindowAttribute(self@, GLFW_VISIBLE as i32),), reply) && flag_reply(r, reply),
    {
        let reply = exec(XWinMessage::GetWindowAttribute(self.handle, GLFW_VISIBLE as i32));
        decode_flag(reply)
    }

    /// See [Window::try_is_visible]; gives `false` when GLFW reports an error.
    pub fn is_visible<F: FnOnce(XWinMessage) -> Result<i32, XErr>>(&self, exec: F) -> (r: bool)
        requires
            call_requires(exec, (XWinMessage::GetWindowAttribute(self@, GLFW_VISIBLE as i32),)),
        ensures
            exists|reply| #[trigger] call_ensures(exec, (XWinMessage::GetWindowAttribute(self@, GLFW_VISIBLE as i32),), reply) && r == flag_or_false(reply),
    {
        match self.try_is_visible(exec) {
            Ok(v) => v,
            Err(_) => false,
        }
    }

    /// Returns whether the window is resizable by the user.
    ///
    /// # Errors
    /// Possible errors include [XErr::NotInitialized], [XErr::InvalidEnum]
    /// and [XErr::PlatformError].
    pub fn try_is_resizable<F: FnOnce(XWinMessage) -> Result<i32, XErr>>(&self, exec: F) -> (r: Result<bool, XErr>)
        requires
            call_requires(exec, (XWinMessage::GetWindowAttribute(self@, GLFW_RESIZABLE as i32),)),
        ensures
            exists|reply| #[trigger] call_ensures(exec, (XWinMessage::GetWindowAttribute(self@, GLFW_RESIZABLE as i32),), reply) && flag_reply(r, reply),
    {
        let reply = exec(XWinMessage::GetWindowAttribute(self.handle, GLFW_RESIZABLE as i32));
        decode_flag(reply)
    }

    /// See [Window::try_is_resizable]; gives `false` when GLFW reports an error.
    pub fn is_resizable<F: FnOnce(XWinMessage) -> Result<i32, XErr>>(&self, exec: F) -> (r: bool)
        requires
            call_requires(exec, (XWinMessage::GetWindowAttribute(self@, GLFW_RESIZABLE as i32),)),
        ensures
            exists|reply| #[trigger] call_ensures(exec, (XWinMessage::GetWindowAttribute(self@, GLFW_RESIZABLE as i32),), reply) && r == flag_or_false(reply),
    {
        match self.try_is_resizable(exec) {
            Ok(v) => v,
            Err(_) => false,
        }
    }

    /// Returns whether the window has decorations such as a border and a close
    /// widget.
    ///
    /// # Errors
    /// Possible errors include [XErr::NotInitialized], [XErr::InvalidEnum]
    /// and [XErr::PlatformError].
    pub fn try_is_decorated<F: FnOnce(XWinMessage) -> Result<i32, XErr>>(&self, exec: F) -> (r: Result<bool, XErr>)
        requires
            call_requires(exec, (XWinMessage::GetWindowAttribute(self@, GLFW_DECORATED as i32),)),
        ensures
            exists|reply| #[trigger] call_ensures(exec, (XWinMessage::GetWindowAttribute(self@, GLFW_DECORATED as i32),), reply) && flag_reply(r, reply),
    {
        let reply = exec(XWinMessage::GetWindowAttribute(self.handle, GLFW_DECORATED as i32));
        decode_flag(reply)
    }

    /// See [Window::try_is_decorated]; gives `false` when GLFW reports an error.
    pub fn is_decorated<F: FnOnce(XWinMessage) -> Result<i32, XErr>>(&self, exec: F) -> (r: bool)
        requires
            call_requires(exec, (XWinMessage::GetWindowAttribute(self@, GLFW_DECORATED as i32),)),
        ensures
            exists|reply| #[trigger] call_ensures(exec, (XWinMessage::GetWindowAttribute(self@, GLFW_DECORATED as i32),), reply) && r == flag_or_false(reply),
    {
        match self.try_is_decorated(exec) {
            Ok(v) => v,
            Err(_) => false,
        }
    }

    /// Returns whether the full screen window will iconify on focus loss.
    ///
    /// # Errors
    /// Possible errors include [XErr::NotInitialized], [XErr::InvalidEnum]
    /// and [XErr::PlatformError].
    pub fn try_will_iconify<F: FnOnce(XWinMessage) -> Result<i32, XErr>>(&self, exec: F) -> (r: Result<bool, XErr>)
        requires
            call_requires(exec, (XWinMessage::GetWindowAttribute(self@, GLFW_AUTO_ICONIFY as i32),)),
        ensures
            exists|reply| #[trigger] call_ensures(exec, (XWinMessage::GetWindowAttribute(self@, GLFW_AUTO_ICONIFY as i32),), reply) && flag_reply(r, reply),
    {
        let reply = exec(XWinMessage::GetWindowAttribute(self.handle, GLFW_AUTO_ICONIFY as i32));
        decode_flag(reply)
    }

    /// See [Window::try_will_iconify]; gives `false` when GLFW reports an error.
    pub fn will_iconify<F: FnOnce(XWinMessage) -> Result<i32, XErr>>(&self, exec: F) -> (r: bool)
        requires
            call_requires(exec, (XWinMessage::GetWindowAttribute(self@, GLFW_AUTO_ICONIFY as i32),)),
        ensures
            exists|reply| #[trigger] call_ensures(exec, (XWinMessage::GetWindowAttribute(self@, GLFW_AUTO_ICONIFY as i32),), reply) && r == flag_or_false(reply),
    {
        match self.try_will_iconify(exec) {
            Ok(v) => v,
            Err(_) => false,
        }
    }

    /// Returns whether the window is floating, also called topmost or
    /// always-on-top.
    ///
    /// # Errors
    /// Possible errors include [XErr::NotInitialized], [XErr::InvalidEnum]
    /// and [XErr::PlatformError].
    pub fn try_is_floating<F: FnOnce(XWinMessage) -> Result<i32, XErr>>(&self, exec: F) -> (r: Result<bool, XErr>)
        requires
            call_requires(exec, (XWinMessage::GetWindowAttribute(self@, GLFW_FLOATING as i32),)),
        ensures
            exists|reply| #[trigger] call_ensures(exec, (XWinMessage::GetWindowAttribute(self@, GLFW_FLOATING as i32),), reply) && flag_reply(r, reply),
    {
        let reply = exec(XWinMessage::GetWindowAttribute(self.handle, GLFW_FLOATING as i32));
        decode_flag(reply)
    }

    /// See [Window::try_is_floating]; gives `false` when GLFW reports an error.
    pub fn is_floating<F: FnOnce(XWinMessage) -> Result<i32, XErr>>(&self, exec: F) -> (r: bool)
        requires
            call_requires(exec, (XWinMessage::GetWindowAttribute(self@, GLFW_FLOATING as i32),)),
        ensures
            exists|reply| #[trigger] call_ensures(exec, (XWinMessage::GetWindowAttribute(self@, GLFW_FLOATING as i32),), reply) && r == flag_or_false(reply),
    {
        match self.try_is_floating(exec) {
            Ok(v) => v,
            Err(_) => false,
        }
    }

    /// Returns whether the window has a transparent framebuffer.
    ///
    /// # Errors
    /// Possible errors include [XErr::NotInitialized], [XErr::InvalidEnum]
    /// and [XErr::PlatformError].
    pub fn try_has_transparent_framebuffer<F: FnOnce(XWinMessage) -> Result<i32, XErr>>(&self, exec: F) -> (r: Result<bool, XErr>)
        requires
            call_requires(exec, (XWinMessage::GetWindowAttribute(self@, GLFW_TRANSPARENT_FRAMEBUFFER as i32),)),
        ensures
            exists|reply| #[trigger] call_ensures(exec, (XWinMessage::GetWindowAttribute(self@, GLFW_TRANSPARENT_FRAMEBUFFER as i32),), reply) && flag_reply(r, reply),
    {
        let reply = exec(XWinMessage::GetWindowAttribute(self.handle, GLFW_TRANSPARENT_FRAMEBUFFER as i32));
        decode_flag(reply)
    }

    /// See [Window::try_has_transparent_framebuffer]; gives `false` when GLFW reports an error.
    pub fn has_transparent_framebuffer<F: FnOnce(XWinMessage) -> Result<i32, XErr>>(&self, exec: F) -> (r: bool)
        requires
            call_requires(exec, (XWinMessage::GetWindowAttribute(self@, GLFW_TRANSPARENT_FRAMEBUFFER as i32),)),
        ensures
            exists|reply| #[trigger] call_ensures(exec, (XWinMessage::GetWindowAttribute(self@, GLFW_TRANSPARENT_FRAMEBUFFER as i32),), reply) && r == flag_or_false(reply),
    {
        match self.try_has_transparent_framebuffer(exec) {
            Ok(v) => v,
            Err(_) => false,
        }
    }

    /// Returns whether the window will be given input focus when shown.
    ///
    /// # Errors
    /// Possible errors include [XErr::NotInitialized], [XErr::InvalidEnum]
    /// and [XErr::PlatformError].
    pub fn try_will_focus<F: FnOnce(XWinMessage) -> Result<i32, XErr>>(&self, exec: F) -> (r: Result<bool, XErr>)
        requires
            call_requires(exec, (XWinMessage::GetWindowAttribute(self@, GLFW_FOCUS_ON_SHOW as i32),)),
        ensures
            exists|reply| #[trigger] call_ensures(exec, (XWinMessage::GetWindowAttribute(self@, GLFW_FOCUS_ON_SHOW as i32),), reply) && flag_reply(r, reply),
    {
        let reply = exec(XWinMessage::GetWindowAttribute(self.handle, GLFW_FOCUS_ON_SHOW as i32));
        decode_flag(reply)
    }

    /// See [Window::try_will_focus]; gives `false` when GLFW reports an error.
    pub fn will_focus<F: FnOnce(XWinMessage) -> Result<i32, XErr>>(&self, exec: F) -> (r: bool)
        requires
            call_requires(exec, (XWinMessage::GetWindowAttribute(self@, GLFW_FOCUS_ON_SHOW as i32),)),
        ensures
            exists|reply| #[trigger] call_ensures(exec, (XWinMessage::GetWindowAttribute(self@, GLFW_FOCUS_ON_SHOW as i32),), reply) && r == flag_or_false(reply),
    {
        match self.try_will_focus(exec) {
            Ok(v) => v,
            Err(_) => false,
        }
    }

    /// Returns whether mouse input passes through the window to what lies
    /// behind it.
    ///
    /// # Errors
    /// Possible errors include [XErr::NotInitialized], [XErr::InvalidEnum]
    /// and [XErr::PlatformError].
    pub fn try_will_mouse_passthrough<F: FnOnce(XWinMessage) -> Result<i32, XErr>>(&self, exec: F) -> (r: Result<bool, XErr>)
        requires
            call_requires(exec, (XWinMessage::GetWindowAttribute(self@, GLFW_MOUSE_PASSTHROUGH as i32),)),
        ensures
            exists|reply| #[trigger] call_ensures(exec, (XWinMessage::GetWindowAttribute(self@, GLFW_MOUSE_PASSTHROUGH as i32),), reply) && flag_reply(r, reply),
    {
        let reply = exec(XWinMessage::GetWindowAttribute(self.handle, GLFW_MOUSE_PASSTHROUGH as i32));
        decode_flag(reply)
    }

    /// See [Window::try_will_mouse_passthrough]; gives `false` when GLFW reports an error.
    pub fn will_mouse_passthrough<F: FnOnce(XWinMessage) -> Result<i32, XErr>>(&self, exec: F) -> (r: bool)
        requires
            call_requires(exec, (XWinMessage::GetWindowAttribute(self@, GLFW_MOUSE_PASSTHROUGH as i32),)),
        ensures
            exists|reply| #[trigger] call_ensures(exec, (XWinMessage::GetWindowAttribute(self@, GLFW_MOUSE_PASSTHROUGH as i32),), reply) && r == flag_or_false(reply),
    {
        match self.try_will_mouse_passthrough(exec) {
            Ok(v) => v,
            Err(_) => false,
        }
    }

    /// Sets whether the windowed mode window has decorations such as a border
    /// and a close widget.
    ///
    /// # Errors
    /// Possible errors include [XErr::NotInitialized], [XErr::InvalidEnum],
    /// [XErr::InvalidValue], [XErr::PlatformError] and
    /// [XErr::FeatureUnavailable].
    pub fn try_set_decorated<F: FnOnce(XWinMessage) -> Result<(), XErr>>(&mut self, value: bool, exec: F) -> (r: Result<(), XErr>)
        requires
            call_requires(exec, (XWinMessage::SetWindowAttribute(old(self)@, GLFW_DECORATED as i32, glfw_bool(value)),)),
        ensures
            call_ensures(exec, (XWinMessage::SetWindowAttribute(old(self)@, GLFW_DECORATED as i32, glfw_bool(value)),), r),
            final(self)@ == old(self)@,
    {
        exec(XWinMessage::SetWindowAttribute(self.handle, GLFW_DECORATED as i32, to_glfw_bool(value)))
    }

    /// See [Window::try_set_decorated].
    pub fn set_decorated<F: FnOnce(XWinMessage) -> Result<(), XErr>>(&mut self, value: bool, exec: F)
        requires
            call_requires(exec, (XWinMessage::SetWindowAttribute(old(self)@, GLFW_DECORATED as i32, glfw_bool(value)),)),
        ensures
            exists|reply: Result<(), XErr>| #[trigger] call_ensures(exec, (XWinMessage::SetWindowAttribute(old(self)@, GLFW_DECORATED as i32, glfw_bool(value)),), reply),
            final(self)@ == old(self)@,
    {
        let _ = self.try_set_decorated(value, exec);
    }

    /// Sets whether the windowed mode window is resizable by the user.
    ///
    /// # Errors
    /// Possible errors include [XErr::NotInitialized], [XErr::InvalidEnum],
    /// [XErr::InvalidValue], [XErr::PlatformError] and
    /// [XErr::FeatureUnavailable].
    pub fn try_set_resizable<F: FnOnce(XWinMessage) -> Result<(), XErr>>(&mut self, value: bool, exec: F) -> (r: Result<(), XErr>)
        requires
            call_requires(exec, (XWinMessage::SetWindowAttribute(old(self)@, GLFW_RESIZABLE as i32, glfw_bool(value)),)),
        ensures
            call_ensures(exec, (XWinMessage::SetWindowAttribute(old(self)@, GLFW_RESIZABLE as i32, glfw_bool(value)),), r),
            final(self)@ == old(self)@,
    {
        exec(XWinMessage::SetWindowAttribute(self.handle, GLFW_RESIZABLE as i32, to_glfw_bool(value)))
    }

    /// See [Window::try_set_resizable].
    pub fn set_resizable<F: FnOnce(XWinMessage) -> Result<(), XErr>>(&mut self, value: bool, exec: F)
        requires
            call_requires(exec, (XWinMessage::SetWindowAttribute(old(self)@, GLFW_RESIZABLE as i32, glfw_bool(value)),)),
        ensures
            exists|reply: Result<(), XErr>| #[trigger] call_ensures(exec, (XWinMessage::SetWindowAttribute(old(self)@, GLFW_RESIZABLE as i32, glfw_bool(value)),), reply),
            final(self)@ == old(self)@,
    {
        let _ = self.try_set_resizable(value, exec);
    }

    /// Sets whether the windowed mode window is floating, also called topmost
    /// or always-on-top.
    ///
    /// # Errors
    /// Possible errors include [XErr::NotInitialized], [XErr::InvalidEnum],
    /// [XErr::InvalidValue], [XErr::PlatformError] and
    /// [XErr::FeatureUnavailable].
    pub fn try_set_floating<F: FnOnce(XWinMessage) -> Result<(), XErr>>(&mut self, value: bool, exec: F) -> (r: Result<(), XErr>)
        requires
            call_requires(exec, (XWinMessage::SetWindowAttribute(old(self)@, GLFW_FLOATING as i32, glfw_bool(value)),)),
        ensures
            call_ensures(exec, (XWinMessage::SetWindowAttribute(old(self)@, GLFW_FLOATING as i32, glfw_bool(value)),), r),
            final(self)@ == old(self)@,
    {
        exec(XWinMessage::SetWindowAttribute(self.handle, GLFW_FLOATING as i32, to_glfw_bool(value)))
    }

    /// See [Window::try_set_floating].
    pub fn set_floating<F: FnOnce(XWinMessage) -> Result<(), XErr>>(&mut self, value: bool, exec: F)
        requires
            call_requires(exec, (XWinMessage::SetWindowAttribute(old(self)@, GLFW_FLOATING as i32, glfw_bool(value)),)),
        ensures
            exists|reply: Result<(), XErr>| #[trigger] call_ensures(exec, (XWinMessage::SetWindowAttribute(old(self)@, GLFW_FLOATING as i32, glfw_bool(value)),), reply),
            final(self)@ == old(self)@,
    {
        let _ = self.try_set_floating(value, exec);
    }

    /// Sets whether the full screen window iconifies and restores the previous
    /// video mode on input focus loss.
    ///
    /// # Errors
    /// Possible errors include [XErr::NotInitialized], [XErr::InvalidEnum],
    /// [XErr::InvalidValue], [XErr::PlatformError] and
    /// [XErr::FeatureUnavailable].
    pub fn try_set_will_iconify<F: FnOnce(XWinMessage) -> Result<(), XErr>>(&mut self, value: bool, exec: F) -> (r: Result<(), XErr>)
        requires
            call_requires(exec, (XWinMessage::SetWindowAttribute(old(self)@, GLFW_AUTO_ICONIFY as i32, glfw_bool(value)),)),
        ensures
            call_ensures(exec, (XWinMessage::SetWindowAttribute(old(self)@, GLFW_AUTO_ICONIFY as i32, glfw_bool(value)),), r),
            final(self)@ == old(self)@,
    {
        exec(XWinMessage::SetWindowAttribute(self.handle, GLFW_AUTO_ICONIFY as i32, to_glfw_bool(value)))
    }

    /// See [Window::try_set_will_iconify].
    pub fn set_will_iconify<F: FnOnce(XWinMessage) -> Result<(), XErr>>(&mut self, value: bool, exec: F)
        requires
            call_requires(exec, (XWinMessage::SetWindowAttribute(old(self)@, GLFW_AUTO_ICONIFY as i32, glfw_bool(value)),)),
        ensures
            exists|reply: Result<(), XErr>| #[trigger] call_ensures(exec, (XWinMessage::SetWindowAttribute(old(self)@, GLFW_AUTO_ICONIFY as i32, glfw_bool(value)),), reply),
            final(self)@ == old(self)@,
    {
        let _ = self.try_set_will_iconify(value, exec);
    }

    /// Sets whether the window is given input focus when shown.
    ///
    /// # Errors
    /// Possible errors include [XErr::NotInitialized], [XErr::InvalidEnum],
    /// [XErr::InvalidValue], [XErr::PlatformError] and
    /// [XErr::FeatureUnavailable].
    pub fn try_set_will_focus<F: FnOnce(XWinMessage) -> Result<(), XErr>>(&mut self, value: bool, exec: F) -> (r: Result<(), XErr>)
        requires
            call_requires(exec, (XWinMessage::SetWindowAttribute(old(self)@, GLFW_FOCUS_ON_SHOW as i32, glfw_bool(value)),)),
        ensures
            call_ensures(exec, (XWinMessage::SetWindowAttribute(old(self)@, GLFW_FOCUS_ON_SHOW as i32, glfw_bool(value)),), r),
            final(self)@ == old(self)@,
    {
        exec(XWinMessage::SetWindowAttribute(self.handle, GLFW_FOCUS_ON_SHOW as i32, to_glfw_bool(value)))
    }

    /// See [Window::try_set_will_focus].
    pub fn set_will_focus<F: FnOnce(XWinMessage) -> Result<(), XErr>>(&mut self, value: bool, exec: F)
        requires
            call_requires(exec, (XWinMessage::SetWindowAttribute(old(self)@, GLFW_FOCUS_ON_SHOW as i32, glfw_bool(value)),)),
        ensures
            exists|reply: Result<(), XErr>| #[trigger] call_ensures(exec, (XWinMessage::SetWindowAttribute(old(self)@, GLFW_FOCUS_ON_SHOW as i32, glfw_bool(value)),), reply),
            final(self)@ == old(self)@,
    {
        let _ = self.try_set_will_focus(value, exec);
    }

    /// Sets whether mouse input passes through the window to what lies behind
    /// it.
    ///
    /// # Errors
    /// Possible errors include [XErr::NotInitialized], [XErr::InvalidEnum],
    /// [XErr::InvalidValue], [XErr::PlatformError] and
    /// [XErr::FeatureUnavailable].
    pub fn try_set_mouse_passthrough<F: FnOnce(XWinMessage) -> Result<(), XErr>>(&mut self, value: bool, exec: F) -> (r: Result<(), XErr>)
        requires
            call_requires(exec, (XWinMessage::SetWindowAttribute(old(self)@, GLFW_MOUSE_PASSTHROUGH as i32, glfw_bool(value)),)),
        ensures
            call_ensures(exec, (XWinMessage::SetWindowAttribute(old(self)@, GLFW_MOUSE_PASSTHROUGH as i32, glfw_bool(value)),), r),
            final(self)@ == old(self)@,
    {
        exec(XWinMessage::SetWindowAttribute(self.handle, GLFW_MOUSE_PASSTHROUGH as i32, to_glfw_bool(value)))
    }

    /// See [Window::try_set_mouse_passthrough].
    pub fn set_mouse_passthrough<F: FnOnce(XWinMessage) -> Result<(), XErr>>(&mut self, value: bool, exec: F)
        requires
            call_requires(exec, (XWinMessage::SetWindowAttribute(old(self)@, GLFW_MOUSE_PASSTHROUGH as i32, glfw_bool(value)),)),
        ensures
            exists|reply: Result<(), XErr>| #[trigger] call_ensures(exec, (XWinMessage::SetWindowAttribute(old(self)@, GLFW_MOUSE_PASSTHROUGH as i32, glfw_bool(value)),), reply),
            final(self)@ == old(self)@,
    {
        let _ = self.try_set_mouse_passthrough(value, exec);
    }
}

impl WindowBuilder {
    /// Creates a window and its associated context with the hints set in
    /// this builder, full screen on `monitor` if there is one. See
    /// [Window::try_create].
    ///
    /// # Errors
    /// Possible errors include [XErr::NotInitialized], [XErr::InvalidEnum],
    /// [XErr::InvalidValue], [XErr::ApiUnavailable],
    /// [XErr::VersionUnavailable], [XErr::FormatUnavailable],
    /// [XErr::NoWindowContext] and [XErr::PlatformError].
    pub fn create<F: FnOnce(XWinMessage) -> Result<usize, XErr>>(
        &self,
        width: i32,
        height: i32,
        title: &str,
        monitor: Option<Monitor>,
        exec: F,
    ) -> (r: Result<Window, XErr>)
        requires
            forall|msg: XWinMessage|
                create_window_msg(msg, width, height, title@, monitor_handle(monitor), Some(self@)) ==> call_requires(exec, (msg,)),
        ensures
            exists|msg: XWinMessage, reply: Result<usize, XErr>|
                #[trigger] call_ensures(exec, (msg,), reply)
                && create_window_msg(msg, width, height, title@, monitor_handle(monitor), Some(self@))
                && window_reply(r, reply),
    {
        let msg = XWinMessage::CreateWindow {
            width,
            height,
            title: String::from_str(title),
            monitor: handle_of(monitor),
            builder: Some(self.clone()),
        };
        let ghost sent = msg;
        assert(create_window_msg(sent, width, height, title@, monitor_handle(monitor), Some(self@)));
        let reply = exec(msg);
        assert(call_ensures(exec, (sent,), reply));
        match reply {
            Ok(h) => Ok(Window::from_glfw(h)),
            Err(e) => Err(e),
        }
    }
}

} // verus!
