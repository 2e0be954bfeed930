//! XWin core functionality: coordinates, platform selection, initialization
//! hints and the messages that carry each operation to GLFW's main thread.
//!
//! Most XWin operations run on the main thread, which owns GLFW. An operation
//! here describes the message it sends there ([XWinMessage]) and turns the
//! main thread's reply into its result. Whoever runs the main thread hands the
//! operation a closure that delivers the message and returns the reply; the
//! contracts state which message the operation sends and what it makes of
//! whatever reply comes back.
use vstd::prelude::*;
use vstd::string::StringExecFns;

pub mod channels;
pub mod exec;
pub mod image;

use crate::err::{XErr, is_unknown_error};
use crate::system::exec::XWinMessage;
use crate::glfw::{
    GLFW_ANY_PLATFORM, GLFW_COCOA_CHDIR_RESOURCES, GLFW_COCOA_MENUBAR, GLFW_FALSE, GLFW_PLATFORM,
    GLFW_PLATFORM_COCOA, GLFW_PLATFORM_NULL, GLFW_PLATFORM_WAYLAND, GLFW_PLATFORM_WIN32,
    GLFW_PLATFORM_X11, GLFW_TRUE, GLFW_WAYLAND_DISABLE_LIBDECOR, GLFW_WAYLAND_LIBDECOR,
    GLFW_WAYLAND_PREFER_LIBDECOR,
};

verus! {

/// Specifies the platform to use for windowing and input.
#[derive(Debug, Clone, Copy, PartialEq, Eq)]
pub enum Platform {
    Any,
    Windows,
    Cocoa,
    Wayland,
    X11,
    Null,
}

/// Positions and sizes measured in virtual screen coordinates, which do not
/// necessarily correspond to pixels. The X axis points right and the Y axis
/// points down.
#[derive(Copy, Clone, PartialEq, Eq, Debug, Default)]
pub struct ScreenCoordinates {
    pub x: i32,
    pub y: i32,
}

/// Sizes measured in pixels, as framebuffer sizes are.
#[derive(Copy, Clone, PartialEq, Eq, Debug, Default)]
pub struct Pixels {
    pub x: i32,
    pub y: i32,
}

/// The GLFW value of a bool: [GLFW_TRUE] or [GLFW_FALSE].
pub open spec fn glfw_bool(value: bool) -> i32 {
    if value { GLFW_TRUE as i32 } else { GLFW_FALSE as i32 }
}

/// The bool that a GLFW boolean value stands for: only [GLFW_TRUE] is true.
pub open spec fn from_glfw_bool(value: i32) -> bool {
    value == GLFW_TRUE as i32
}

/// Returns the GLFW value of `value`: [GLFW_TRUE] or [GLFW_FALSE].
pub fn to_glfw_bool(value: bool) -> (r: i32)
    ensures
        r == glfw_bool(value),
{
    if value { GLFW_TRUE as i32 } else { GLFW_FALSE as i32 }
}

/// Returns whether a GLFW boolean value is [GLFW_TRUE].
pub fn is_glfw_true(value: i32) -> (r: bool)
    ensures
        r == from_glfw_bool(value),
{
    value == GLFW_TRUE as i32
}

/// A bool survives the trip to its GLFW value and back.
pub proof fn lemma_glfw_bool_round_trip(value: bool)
    ensures
        from_glfw_bool(glfw_bool(value)) == value,
{
}

/// The GLFW code of a platform.
pub open spec fn platform_code(platform: Platform) -> u32 {
    match platform {
        Platform::Any => GLFW_ANY_PLATFORM,
        Platform::Windows => GLFW_PLATFORM_WIN32,
        Platform::Cocoa => GLFW_PLATFORM_COCOA,
        Platform::Wayland => GLFW_PLATFORM_WAYLAND,
        Platform::X11 => GLFW_PLATFORM_X11,
        Platform::Null => GLFW_PLATFORM_NULL,
    }
}

/// The concrete platform that a GLFW platform code names, if any.
pub open spec fn selected_platform(code: u32) -> Option<Platform> {
    if code == GLFW_PLATFORM_WIN32 {
        Some(Platform::Windows)
    } else if code == GLFW_PLATFORM_COCOA {
        Some(Platform::Cocoa)
    } else if code == GLFW_PLATFORM_WAYLAND {
        Some(Platform::Wayland)
    } else if code == GLFW_PLATFORM_X11 {
        Some(Platform::X11)
    } else if code == GLFW_PLATFORM_NULL {
        Some(Platform::Null)
    } else {
        None
    }
}

impl Platform {
    /// Returns the GLFW code of this platform.
    pub fn as_glfw(&self) -> (r: u32)
        ensures
            r == platform_code(*self),
    {
        match self {
            Platform::Any => GLFW_ANY_PLATFORM,
            Platform::Windows => GLFW_PLATFORM_WIN32,
            Platform::Cocoa => GLFW_PLATFORM_COCOA,
            Platform::Wayland => GLFW_PLATFORM_WAYLAND,
            Platform::X11 => GLFW_PLATFORM_X11,
            Platform::Null => GLFW_PLATFORM_NULL,
        }
    }
}

/// A concrete platform (any but [Platform::Any]) is recognised again from its
/// code.
pub proof fn lemma_platform_round_trip(platform: Platform)
    requires
        platform != Platform::Any,
    ensures
        selected_platform(platform_code(platform)) == Some(platform),
{
}

/// Whether `e` is the error of a second initialization.
pub open spec fn is_reinitialized_error(e: XErr) -> bool {
    e matches XErr::Reinitialized(m) && m@ == "XWin has already been initialized"@
}

/// Handles the initialization and termination of the XWin library, and its
/// configuration before initialization.
///
/// The configuration functions set GLFW init hints; they take the function
/// that sets one (GLFW's `glfwInitHint`, called on the main thread) and call
/// it once.
pub struct XWin {}

impl XWin {
    /// Set the platform to use for windowing and input.
    ///
    /// **Default:** [`Platform::Any`]
    pub fn set_platform<F: FnOnce(i32, i32)>(platform: Platform, init_hint: F)
        requires
            call_requires(init_hint, (GLFW_PLATFORM as i32, platform_code(platform) as i32)),
        ensures
            call_ensures(init_hint, (GLFW_PLATFORM as i32, platform_code(platform) as i32), ()),
    {
        let code = platform.as_glfw();
        init_hint(GLFW_PLATFORM as i32, code as i32);
    }

    /// **MacOS Specific.** Specifies whether to set the current directory to
    /// the application's `Contents/Resources` subdirectory, if present.
    pub fn cocoa_dir_resources<F: FnOnce(i32, i32)>(value: bool, init_hint: F)
        requires
            call_requires(init_hint, (GLFW_COCOA_CHDIR_RESOURCES as i32, glfw_bool(value))),
        ensures
            call_ensures(init_hint, (GLFW_COCOA_CHDIR_RESOURCES as i32, glfw_bool(value)), ()),
    {
        init_hint(GLFW_COCOA_CHDIR_RESOURCES as i32, to_glfw_bool(value));
    }

    /// **MacOS Specific.** Specifies whether to create the menu bar and dock
    /// icon when XWin is initialized.
    pub fn cocoa_menubar<F: FnOnce(i32, i32)>(value: bool, init_hint: F)
        requires
            call_requires(init_hint, (GLFW_COCOA_MENUBAR as i32, glfw_bool(value))),
        ensures
            call_ensures(init_hint, (GLFW_COCOA_MENUBAR as i32, glfw_bool(value)), ()),
    {
        init_hint(GLFW_COCOA_MENUBAR as i32, to_glfw_bool(value));
    }

    /// **Wayland Specific.** Specifies whether to use libdecor for window
    /// decorations where available.
    pub fn wayland_libdecor<F: FnOnce(i32, i32)>(value: bool, init_hint: F)
        requires
            call_requires(
                init_hint,
                (
                    GLFW_WAYLAND_LIBDECOR as i32,
                    if value { GLFW_WAYLAND_PREFER_LIBDECOR as i32 } else { GLFW_WAYLAND_DISABLE_LIBDECOR as i32 },
                ),
            ),
        ensures
            call_ensures(
                init_hint,
                (
                    GLFW_WAYLAND_LIBDECOR as i32,
                    if value { GLFW_WAYLAND_PREFER_LIBDECOR as i32 } else { GLFW_WAYLAND_DISABLE_LIBDECOR as i32 },
                ),
                (),
            ),
    {
        let v = if value { GLFW_WAYLAND_PREFER_LIBDECOR as i32 } else { GLFW_WAYLAND_DISABLE_LIBDECOR as i32 };
        init_hint(GLFW_WAYLAND_LIBDECOR as i32, v);
    }

    /// Returns the major, minor and revision numbers of the GLFW library, as
    /// reported by `get_version` (GLFW's `glfwGetVersion`).
    pub fn glfw_version<F: FnOnce() -> (i32, i32, i32)>(get_version: F) -> (r: (u32, u32, u32))
        requires
            call_requires(get_version, ()),
        ensures
            exists|v: (i32, i32, i32)|
                #[trigger] call_ensures(get_version, (), v) && r == (v.0 as u32, v.1 as u32, v.2 as u32),
    {
        let v = get_version();
        (v.0 as u32, v.1 as u32, v.2 as u32)
    }

    /// Returns the platform that was selected during initialization, given
    /// the code that GLFW's `glfwGetPlatform` returned. When that code is 0,
    /// GLFW's pending error is fetched with `get_error` and returned; a code
    /// that names no platform gives [XErr::Unknown].
    pub fn platform<F: FnOnce() -> XErr>(code: u32, get_error: F) -> (r: Result<Platform, XErr>)
        requires
            code == 0 ==> call_requires(get_error, ()),
        ensures
            code != 0 ==> match selected_platform(code) {
                Some(p) => r == Ok::<Platform, XErr>(p),
                None => r matches Err(e) && is_unknown_error(e),
            },
            code == 0 ==> exists|e: XErr| #[trigger] call_ensures(get_error, (), e) && r == Err::<Platform, XErr>(e),
    {
        if code == 0 {
            Err(get_error())
        } else if code == GLFW_PLATFORM_WIN32 {
            Ok(Platform::Windows)
        } else if code == GLFW_PLATFORM_COCOA {
            Ok(Platform::Cocoa)
        } else if code == GLFW_PLATFORM_WAYLAND {
            Ok(Platform::Wayland)
        } else if code == GLFW_PLATFORM_X11 {
            Ok(Platform::X11)
        } else if code == GLFW_PLATFORM_NULL {
            Ok(Platform::Null)
        } else {
            Err(XErr::unknown())
        }
    }

    /// Returns whether the library was compiled with support for `platform`,
    /// asking `supported` (GLFW's `glfwPlatformSupported`) with the
    /// platform's code. Only [GLFW_TRUE] means supported.
    pub fn platform_supported<F: FnOnce(i32) -> i32>(platform: Platform, supported: F) -> (r: bool)
        requires
            call_requires(supported, (platform_code(platform) as i32,)),
        ensures
            exists|v: i32|
                #[trigger] call_ensures(supported, (platform_code(platform) as i32,), v)
                    && r == (v as u32 == GLFW_TRUE),
    {
        let code = platform.as_glfw();
        let v = supported(code as i32);
        v as u32 == GLFW_TRUE
    }

    /// Initializes XWin and runs GLFW's main loop on the calling thread
    /// until XWin is terminated; the user's code runs on a thread of its
    /// own, and XWin is terminated when it ends. The steps are handed in,
    /// and `token` is passed from each step to the next, so that they are
    /// made one after the other in this order:
    ///
    /// - `register` records the global XWin state, returning `false` if XWin
    ///   was initialized before;
    /// - `glfw_init` initializes GLFW (`glfwInit`), and `last_error` fetches
    ///   the error GLFW reports when that fails;
    /// - `subscribe` installs the monitor callback;
    /// - `spawn` starts the user's thread, or describes why it could not;
    /// - `run` runs the main loop until XWin is terminated, `terminate`
    ///   terminates GLFW (`glfwTerminate`), and `join` joins the user's
    ///   thread if it has finished, passing on its panic.
    ///
    /// Once GLFW is initialized, it is terminated before this returns: after
    /// the main loop ends, and also when the user's thread cannot start.
    ///
    /// # Errors
    /// [XErr::Reinitialized] if XWin was initialized before; the error GLFW
    /// reports if it cannot be initialized; [XErr::PlatformError] with the
    /// reason if the user's thread cannot be started.
    pub fn init<
        G,
        H,
        R: FnOnce(G) -> (G, bool),
        I: FnOnce(G) -> (G, i32),
        E: FnOnce(G) -> XErr,
        C: FnOnce(G) -> G,
        S: FnOnce(G) -> (G, Result<H, String>),
        L: FnOnce(G) -> G,
        T: FnOnce(G) -> G,
        J: FnOnce(H, G),
    >(
        token: G,
        register: R,
        glfw_init: I,
        last_error: E,
        subscribe: C,
        spawn: S,
        run: L,
        terminate: T,
        join: J,
    ) -> (r: Result<(), XErr>)
        requires
            call_requires(register, (token,)),
            forall|g: G| call_requires(glfw_init, (g,)),
            forall|g: G| call_requires(last_error, (g,)),
            forall|g: G| call_requires(subscribe, (g,)),
            forall|g: G| call_requires(spawn, (g,)),
            forall|g: G| call_requires(run, (g,)),
            forall|g: G| call_requires(terminate, (g,)),
            forall|h: H, g: G| call_requires(join, (h, g)),
        ensures
            exists|g0: G, registered: bool| #[trigger] call_ensures(register, (token,), (g0, registered)) && if !registered {
                r matches Err(again) && is_reinitialized_error(again)
            } else {
                exists|g1: G, code: i32| #[trigger] call_ensures(glfw_init, (g0,), (g1, code)) && if code != GLFW_TRUE as i32 {
                    exists|failure: XErr| #[trigger] call_ensures(last_error, (g1,), failure) && r == Err::<(), XErr>(failure)
                } else {
                    exists|g2: G, g3: G, spawned: Result<H, String>|
                        #![trigger call_ensures(subscribe, (g1,), g2), call_ensures(spawn, (g2,), (g3, spawned))]
                        call_ensures(subscribe, (g1,), g2) && call_ensures(spawn, (g2,), (g3, spawned)) && match spawned {
                            Err(why) => {
                                &&& r matches Err(XErr::PlatformError(m)) && m@ == why@
                                &&& exists|g4: G| #[trigger] call_ensures(terminate, (g3,), g4)
                            },
                            Ok(h) => {
                                &&& r is Ok
                                &&& exists|g4: G, g5: G|
                                    #![trigger call_ensures(run, (g3,), g4), call_ensures(terminate, (g4,), g5)]
                                    call_ensures(run, (g3,), g4) && call_ensures(terminate, (g4,), g5)
                                        && call_ensures(join, (h, g5), ())
                            },
                        }
                }
            },
    {
        let (g, registered) = register(token);
        if !registered {
            return Err(XErr::Reinitialized(String::from_str("XWin has already been initialized")));
        }
        let (g, code) = glfw_init(g);
        if code != GLFW_TRUE as i32 {
            return Err(last_error(g));
        }
        let g = subscribe(g);
        let (g, spawned) = spawn(g);
        let handle = match spawned {
            Ok(h) => h,
            Err(why) => {
                let _ = terminate(g);
                return Err(XErr::PlatformError(why));
            },
        };
        let g = run(g);
        let g = terminate(g);
        join(handle, g);
        Ok(())
    }

    /// Terminates XWin: asks GLFW's main loop to stop, which closes all
    /// windows and makes [XWin::init] return.
    pub fn terminate<F: FnOnce(XWinMessage) -> Result<(), XErr>>(exec: F)
        requires
            call_requires(exec, (XWinMessage::Terminate,)),
        ensures
            exists|reply: Result<(), XErr>| #[trigger] call_ensures(exec, (XWinMessage::Terminate,), reply),
    {
        let _ = exec(XWinMessage::Terminate);
    }
}

/// What GLFW's main loop found in its message channel after waking.
pub enum Received {
    Message(XWinMessage),
    Empty,
    Disconnected,
}

/// What GLFW's main loop does next.
pub enum LoopStep {
    /// Leave the loop, so that GLFW is terminated.
    Stop,
    /// Carry out the message, then wait again.
    Handle(XWinMessage),
    /// Wait for the next event.
    Wait,
}

/// The main loop's next step for what it received: a [XWinMessage::Terminate]
/// or a closed channel stops it, another message is handled, and nothing
/// received means waiting again.
pub open spec fn loop_step(received: Received) -> LoopStep {
    match received {
        Received::Message(XWinMessage::Terminate) => LoopStep::Stop,
        Received::Message(m) => LoopStep::Handle(m),
        Received::Empty => LoopStep::Wait,
        Received::Disconnected => LoopStep::Stop,
    }
}

/// Decides the main loop's next step for what it received; see
/// [loop_step].
pub fn run_step(received: Received) -> (r: LoopStep)
    ensures
        r == loop_step(received),
{
    match received {
        Received::Message(XWinMessage::Terminate) => LoopStep::Stop,
        Received::Message(m) => LoopStep::Handle(m),
        Received::Empty => LoopStep::Wait,
        Received::Disconnected => LoopStep::Stop,
    }
}

/// Each platform is GLFW's platform of the same name, both ways: Windows is
/// [GLFW_PLATFORM_WIN32], macOS [GLFW_PLATFORM_COCOA], and so on; "any" is
/// [GLFW_ANY_PLATFORM], which names no platform that GLFW can report.
pub proof fn lemma_platform_glfw_names()
    ensures
        platform_code(Platform::Windows) == GLFW_PLATFORM_WIN32,
        platform_code(Platform::Cocoa) == GLFW_PLATFORM_COCOA,
        platform_code(Platform::Wayland) == GLFW_PLATFORM_WAYLAND,
        platform_code(Platform::X11) == GLFW_PLATFORM_X11,
        platform_code(Platform::Null) == GLFW_PLATFORM_NULL,
        selected_platform(GLFW_PLATFORM_WIN32) == Some(Platform::Windows),
        selected_platform(GLFW_PLATFORM_COCOA) == Some(Platform::Cocoa),
        selected_platform(GLFW_PLATFORM_WAYLAND) == Some(Platform::Wayland),
        selected_platform(GLFW_PLATFORM_X11) == Some(Platform::X11),
        selected_platform(GLFW_PLATFORM_NULL) == Some(Platform::Null),
        platform_code(Platform::Any) == GLFW_ANY_PLATFORM,
        selected_platform(GLFW_ANY_PLATFORM) is None,
{
}

/// `true` is [GLFW_TRUE] and `false` is [GLFW_FALSE], and only [GLFW_TRUE]
/// reads back as `true`.
pub proof fn lemma_glfw_bool_names(value: i32)
    ensures
        glfw_bool(true) == GLFW_TRUE as i32,
        glfw_bool(false) == GLFW_FALSE as i32,
        from_glfw_bool(value) <==> value == GLFW_TRUE as i32,
{
}

} // verus!
