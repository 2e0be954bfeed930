//! Window creation hints, collected by a [WindowBuilder].
use vstd::prelude::*;
use vstd::string::{StrSliceExecFns, StringExecFns};

use crate::err::XErr;
use crate::glfw::{
    GLFW_ALPHA_BITS, GLFW_ANY_POSITION, GLFW_AUTO_ICONIFY, GLFW_BLUE_BITS, GLFW_CENTER_CURSOR,
    GLFW_CLIENT_API, GLFW_COCOA_FRAME_NAME, GLFW_COCOA_GRAPHICS_SWITCHING, GLFW_CONTEXT_CREATION_API,
    GLFW_CONTEXT_DEBUG, GLFW_CONTEXT_NO_ERROR, GLFW_CONTEXT_RELEASE_BEHAVIOR, GLFW_CONTEXT_ROBUSTNESS,
    GLFW_CONTEXT_VERSION_MAJOR, GLFW_CONTEXT_VERSION_MINOR, GLFW_DECORATED, GLFW_DEPTH_BITS,
    GLFW_DONT_CARE, GLFW_DOUBLEBUFFER, GLFW_FLOATING, GLFW_FOCUSED, GLFW_FOCUS_ON_SHOW, GLFW_GREEN_BITS,
    GLFW_MAXIMIZED, GLFW_MOUSE_PASSTHROUGH, GLFW_OPENGL_FORWARD_COMPAT, GLFW_OPENGL_PROFILE,
    GLFW_POSITION_X, GLFW_POSITION_Y, GLFW_RED_BITS, GLFW_REFRESH_RATE, GLFW_RESIZABLE, GLFW_SAMPLES,
    GLFW_SCALE_FRAMEBUFFER, GLFW_SCALE_TO_MONITOR, GLFW_SRGB_CAPABLE, GLFW_STENCIL_BITS, GLFW_STEREO,
    GLFW_TRANSPARENT_FRAMEBUFFER, GLFW_VISIBLE, GLFW_WAYLAND_APP_ID, GLFW_WIN32_KEYBOARD_MENU,
    GLFW_WIN32_SHOWDEFAULT, GLFW_X11_CLASS_NAME, GLFW_X11_INSTANCE_NAME,
};
use crate::system::{Pixels, glfw_bool, to_glfw_bool};

use crate::glfw::{
    GLFW_NO_API,
    GLFW_OPENGL_API,
    GLFW_OPENGL_ES_API,
};

use crate::glfw::{
    GLFW_EGL_CONTEXT_API,
    GLFW_NATIVE_CONTEXT_API,
    GLFW_OSMESA_CONTEXT_API,
};

use crate::glfw::{
    GLFW_OPENGL_ANY_PROFILE,
    GLFW_OPENGL_COMPAT_PROFILE,
    GLFW_OPENGL_CORE_PROFILE,
};

use crate::glfw::{
    GLFW_LOSE_CONTEXT_ON_RESET,
    GLFW_NO_RESET_NOTIFICATION,
    GLFW_NO_ROBUSTNESS,
};

use crate::glfw::{
    GLFW_ANY_RELEASE_BEHAVIOR,
    GLFW_RELEASE_BEHAVIOR_FLUSH,
    GLFW_RELEASE_BEHAVIOR_NONE,
};

verus! {

/// Client APIs for window creation.
#[derive(Debug, Clone, Copy, PartialEq, Eq)]
pub enum ClientApi {
    OpenGl,
    OpenGlEs,
    NoApi,
}

/// The GLFW code of a [ClientApi].
pub open spec fn client_api_code(v: ClientApi) -> u32 {
    match v {
        ClientApi::OpenGl => 0x00030001,
        ClientApi::OpenGlEs => 0x00030002,
        ClientApi::NoApi => 0,
    }
}

/// The [ClientApi] that a GLFW code stands for, if any.
pub open spec fn client_api_from_code(code: u32) -> Option<ClientApi> {
    match code {
        0x00030001 => Some(ClientApi::OpenGl),
        0x00030002 => Some(ClientApi::OpenGlEs),
        0 => Some(ClientApi::NoApi),
        _ => None,
    }
}

impl ClientApi {
    /// Returns the GLFW code of this value.
    pub fn as_glfw(&self) -> (r: u32)
        ensures
            r == client_api_code(*self),
    {
        match self {
            ClientApi::OpenGl => 0x00030001,
            ClientApi::OpenGlEs => 0x00030002,
            ClientApi::NoApi => 0,
        }
    }

    /// Returns the value that the GLFW code `value` stands for, or `None`
    /// when it stands for none.
    pub fn from_glfw(value: u32) -> (r: Option<Self>)
        ensures
            r == client_api_from_code(value),
    {
        match value {
            0x00030001 => Some(ClientApi::OpenGl),
            0x00030002 => Some(ClientApi::OpenGlEs),
            0 => Some(ClientApi::NoApi),
            _ => None,
        }
    }
}

/// Every [ClientApi] is recognised again from its GLFW code, and a code is
/// recognised only as the value whose code it is.
pub proof fn lemma_client_api_code_round_trip(v: ClientApi, code: u32)
    ensures
        client_api_from_code(client_api_code(v)) == Some(v),
        client_api_from_code(code) matches Some(w) ==> client_api_code(w) == code,
{
}

/// Context creation APIs for window creation.
#[derive(Debug, Clone, Copy, PartialEq, Eq)]
pub enum ContextCreationApi {
    Native,
    Egl,
    Osmesa,
}

/// The GLFW code of a [ContextCreationApi].
pub open spec fn context_creation_api_code(v: ContextCreationApi) -> u32 {
    match v {
        ContextCreationApi::Native => 0x00036001,
        ContextCreationApi::Egl => 0x00036002,
        ContextCreationApi::Osmesa => 0x00036003,
    }
}

/// The [ContextCreationApi] that a GLFW code stands for, if any.
pub open spec fn context_creation_api_from_code(code: u32) -> Option<ContextCreationApi> {
    match code {
        0x00036001 => Some(ContextCreationApi::Native),
        0x00036002 => Some(ContextCreationApi::Egl),
        0x00036003 => Some(ContextCreationApi::Osmesa),
        _ => None,
    }
}

impl ContextCreationApi {
    /// Returns the GLFW code of this value.
    pub fn as_glfw(&self) -> (r: u32)
        ensures
            r == context_creation_api_code(*self),
    {
        match self {
            ContextCreationApi::Native => 0x00036001,
            ContextCreationApi::Egl => 0x00036002,
            ContextCreationApi::Osmesa => 0x00036003,
        }
    }

    /// Returns the value that the GLFW code `value` stands for, or `None`
    /// when it stands for none.
    pub fn from_glfw(value: u32) -> (r: Option<Self>)
        ensures
            r == context_creation_api_from_code(value),
    {
        match value {
            0x00036001 => Some(ContextCreationApi::Native),
            0x00036002 => Some(ContextCreationApi::Egl),
            0x00036003 => Some(ContextCreationApi::Osmesa),
            _ => None,
        }
    }
}

/// Every [ContextCreationApi] is recognised again from its GLFW code, and a code is
/// recognised only as the value whose code it is.
pub proof fn lemma_context_creation_api_code_round_trip(v: ContextCreationApi, code: u32)
    ensures
        context_creation_api_from_code(context_creation_api_code(v)) == Some(v),
        context_creation_api_from_code(code) matches Some(w) ==> context_creation_api_code(w) == code,
{
}

/// OpenGL profile for window context.
#[derive(Debug, Clone, Copy, PartialEq, Eq)]
pub enum GlProfile {
    Core,
    Compat,
    Any,
}

/// The GLFW code of a [GlProfile].
pub open spec fn gl_profile_code(v: GlProfile) -> u32 {
    match v {
        GlProfile::Core => 0x00032001,
        GlProfile::Compat => 0x00032002,
        GlProfile::Any => 0,
    }
}

/// The [GlProfile] that a GLFW code stands for, if any.
pub open spec fn gl_profile_from_code(code: u32) -> Option<GlProfile> {
    match code {
        0x00032001 => Some(GlProfile::Core),
        0x00032002 => Some(GlProfile::Compat),
        0 => Some(GlProfile::Any),
        _ => None,
    }
}

impl GlProfile {
    /// Returns the GLFW code of this value.
    pub fn as_glfw(&self) -> (r: u32)
        ensures
            r == gl_profile_code(*self),
    {
        match self {
            GlProfile::Core => 0x00032001,
            GlProfile::Compat => 0x00032002,
            GlProfile::Any => 0,
        }
    }

    /// Returns the value that the GLFW code `value` stands for, or `None`
    /// when it stands for none.
    pub fn from_glfw(value: u32) -> (r: Option<Self>)
        ensures
            r == gl_profile_from_code(value),
    {
        match value {
            0x00032001 => Some(GlProfile::Core),
            0x00032002 => Some(GlProfile::Compat),
            0 => Some(GlProfile::Any),
            _ => None,
        }
    }
}

/// Every [GlProfile] is recognised again from its GLFW code, and a code is
/// recognised only as the value whose code it is.
pub proof fn lemma_gl_profile_code_round_trip(v: GlProfile, code: u32)
    ensures
        gl_profile_from_code(gl_profile_code(v)) == Some(v),
        gl_profile_from_code(code) matches Some(w) ==> gl_profile_code(w) == code,
{
}

/// Robustness strategy for window context.
#[derive(Debug, Clone, Copy, PartialEq, Eq)]
pub enum Robustness {
    NoResetNotification,
    LoseContextOnReset,
    NoRobustness,
}

/// The GLFW code of a [Robustness].
pub open spec fn robustness_code(v: Robustness) -> u32 {
    match v {
        Robustness::NoResetNotification => 0x00031001,
        Robustness::LoseContextOnReset => 0x00031002,
        Robustness::NoRobustness => 0,
    }
}

/// The [Robustness] that a GLFW code stands for, if any.
pub open spec fn robustness_from_code(code: u32) -> Option<Robustness> {
    match code {
        0x00031001 => Some(Robustness::NoResetNotification),
        0x00031002 => Some(Robustness::LoseContextOnReset),
        0 => Some(Robustness::NoRobustness),
        _ => None,
    }
}

impl Robustness {
    /// Returns the GLFW code of this value.
    pub fn as_glfw(&self) -> (r: u32)
        ensures
            r == robustness_code(*self),
    {
        match self {
            Robustness::NoResetNotification => 0x00031001,
            Robustness::LoseContextOnReset => 0x00031002,
            Robustness::NoRobustness => 0,
        }
    }

    /// Returns the value that the GLFW code `value` stands for, or `None`
    /// when it stands for none.
    pub fn from_glfw(value: u32) -> (r: Option<Self>)
        ensures
            r == robustness_from_code(value),
    {
        match value {
            0x00031001 => Some(Robustness::NoResetNotification),
            0x00031002 => Some(Robustness::LoseContextOnReset),
            0 => Some(Robustness::NoRobustness),
            _ => None,
        }
    }
}

/// Every [Robustness] is recognised again from its GLFW code, and a code is
/// recognised only as the value whose code it is.
pub proof fn lemma_robustness_code_round_trip(v: Robustness, code: u32)
    ensures
        robustness_from_code(robustness_code(v)) == Some(v),
        robustness_from_code(code) matches Some(w) ==> robustness_code(w) == code,
{
}

/// Release behavior used by window context: the API's default, flush the
/// pipeline on release, or do not flush it.
#[derive(Debug, Clone, Copy, PartialEq, Eq)]
pub enum ContextReleaseBehavior {
    Any,
    Flush,
    NoFlush,
}

/// The GLFW code of a [ContextReleaseBehavior].
pub open spec fn context_release_behavior_code(v: ContextReleaseBehavior) -> u32 {
    match v {
        ContextReleaseBehavior::Any => 0,
        ContextReleaseBehavior::Flush => 0x00035001,
        ContextReleaseBehavior::NoFlush => 0x00035002,
    }
}

/// The [ContextReleaseBehavior] that a GLFW code stands for, if any.
pub open spec fn context_release_behavior_from_code(code: u32) -> Option<ContextReleaseBehavior> {
    match code {
        0 => Some(ContextReleaseBehavior::Any),
        0x00035001 => Some(ContextReleaseBehavior::Flush),
        0x00035002 => Some(ContextReleaseBehavior::NoFlush),
        _ => None,
    }
}

impl ContextReleaseBehavior {
    /// Returns the GLFW code of this value.
    pub fn as_glfw(&self) -> (r: u32)
        ensures
            r == context_release_behavior_code(*self),
    {
        match self {
            ContextReleaseBehavior::Any => 0,
            ContextReleaseBehavior::Flush => 0x00035001,
            ContextReleaseBehavior::NoFlush => 0x00035002,
        }
    }

    /// Returns the value that the GLFW code `value` stands for, or `None`
    /// when it stands for none.
    pub fn from_glfw(value: u32) -> (r: Option<Self>)
        ensures
            r == context_release_behavior_from_code(value),
    {
        match value {
            0 => Some(ContextReleaseBehavior::Any),
            0x00035001 => Some(ContextReleaseBehavior::Flush),
            0x00035002 => Some(ContextReleaseBehavior::NoFlush),
            _ => None,
        }
    }
}

/// Every [ContextReleaseBehavior] is recognised again from its GLFW code, and a code is
/// recognised only as the value whose code it is.
pub proof fn lemma_context_release_behavior_code_round_trip(v: ContextReleaseBehavior, code: u32)
    ensures
        context_release_behavior_from_code(context_release_behavior_code(v)) == Some(v),
        context_release_behavior_from_code(code) matches Some(w) ==> context_release_behavior_code(w) == code,
{
}


/// One step of applying window hints on GLFW's main thread: reset all hints
/// to their defaults (`glfwDefaultWindowHints`), set an integer hint
/// (`glfwWindowHint`), or set a string hint (`glfwWindowHintString`).
#[derive(Debug, Clone, PartialEq, Eq)]
pub enum WindowHint {
    Defaults,
    Integer(u32, i32),
    Text(u32, String),
}

/// Used to construct a window with some number of window creation hints.
///
/// Some hints are hard constraints, which must match the available
/// capabilities exactly for window and context creation to succeed; the
/// others are matched as closely as possible. [WindowBuilder::stereo] and
/// [WindowBuilder::double_buffer] are always hard constraints.
///
/// The hints are kept in the order they were given; a hint given twice takes
/// the later value when they are applied.
#[derive(Debug, PartialEq, Eq)]
pub struct WindowBuilder {
    hints: Vec<(u32, i32)>,
    strings: Vec<(u32, String)>,
    position: Pixels,
}

/// The hints of a builder: its integer hints and string hints in the order
/// given, and the requested position.
pub struct WindowBuilderView {
    pub hints: Seq<(u32, i32)>,
    pub strings: Seq<(u32, Seq<char>)>,
    pub position: Pixels,
}

impl WindowBuilderView {
    /// The hints with one more integer hint at the end.
    pub open spec fn with_hint(self, hint: u32, value: i32) -> WindowBuilderView {
        WindowBuilderView { hints: self.hints.push((hint, value)), ..self }
    }

    /// The hints with one more string hint at the end.
    pub open spec fn with_string(self, hint: u32, value: Seq<char>) -> WindowBuilderView {
        WindowBuilderView { strings: self.strings.push((hint, value)), ..self }
    }
}

impl View for WindowBuilder {
    type V = WindowBuilderView;

    closed spec fn view(&self) -> WindowBuilderView {
        WindowBuilderView {
            hints: self.hints@,
            strings: self.strings@.map_values(|h: (u32, String)| (h.0, h.1@)),
            position: self.position,
        }
    }
}

/// The GLFW value of an optional hint: the value, or [GLFW_DONT_CARE] for no
/// preference.
pub open spec fn hint_or_dont_care(value: Option<i32>) -> i32 {
    match value {
        Some(v) => v,
        None => GLFW_DONT_CARE,
    }
}

/// The GLFW value of an optional window coordinate: the value, or
/// `GLFW_ANY_POSITION` to let the window manager choose.
pub open spec fn position_or_any(value: Option<i32>) -> i32 {
    match value {
        Some(v) => v,
        None => GLFW_ANY_POSITION as i32,
    }
}

pub(crate) fn or_dont_care(value: Option<i32>) -> (r: i32)
    ensures
        r == hint_or_dont_care(value),
{
    match value {
        Some(v) => v,
        None => GLFW_DONT_CARE,
    }
}

fn or_any_position(value: Option<i32>) -> (r: i32)
    ensures
        r == position_or_any(value),
{
    match value {
        Some(v) => v,
        None => GLFW_ANY_POSITION as i32,
    }
}

/// One planned GLFW hint call, as the contracts see it: the reset of all
/// hints to their defaults, an integer hint, or a string hint.
pub enum HintStep {
    Reset,
    Integer(u32, i32),
    Text(u32, Seq<char>),
}

/// The GLFW calls that apply a builder's hints, in order: reset to the
/// defaults, set the position, then each integer hint and each string hint
/// in the order they were given.
pub open spec fn hint_calls(b: WindowBuilderView) -> Seq<HintStep> {
    seq![HintStep::Reset, HintStep::Integer(GLFW_POSITION_X, b.position.x), HintStep::Integer(GLFW_POSITION_Y, b.position.y)]
        + b.hints.map_values(|h: (u32, i32)| HintStep::Integer(h.0, h.1))
        + b.strings.map_values(|s: (u32, Seq<char>)| HintStep::Text(s.0, s.1))
}

/// Whether `call` is the GLFW call that the planned `step` describes.
pub open spec fn is_hint_call(call: WindowHint, step: HintStep) -> bool {
    match step {
        HintStep::Reset => call == WindowHint::Defaults,
        HintStep::Integer(h, v) => call == WindowHint::Integer(h, v),
        HintStep::Text(h, text) => call matches WindowHint::Text(ch, s) && ch == h && s@ == text,
    }
}

/// Whether a planned step sets a string that holds a null character, which
/// GLFW cannot take.
pub open spec fn step_has_nul(step: HintStep) -> bool {
    step matches HintStep::Text(_, text) && text.contains('\0')
}

/// The error that a string hint with a null character gives.
pub open spec fn is_nul_hint_error(e: XErr) -> bool {
    e matches XErr::InvalidValue(m) && m@ == "String hint contains a null byte"@
}

/// Whether the planned `step` was made through `set` and succeeded, taking
/// the token `mid` to `end`: it sets no string with a null character, and
/// its one call returned `Ok`.
pub open spec fn step_ok<T, F: Fn(T, WindowHint) -> (T, Result<(), XErr>)>(set: F, mid: T, step: HintStep, end: T) -> bool {
    &&& !step_has_nul(step)
    &&& exists|c: WindowHint, res: Result<(), XErr>|
        #[trigger] call_ensures(set, (mid, c), (end, res)) && res is Ok && is_hint_call(c, step)
}

/// Whether the planned `step` failed with `e`, leaving the token `end`: a
/// string with a null character fails before any call, the token
/// unchanged; any other step's one call returned `e`.
pub open spec fn step_failed<T, F: Fn(T, WindowHint) -> (T, Result<(), XErr>)>(
    set: F,
    mid: T,
    step: HintStep,
    end: T,
    e: XErr,
) -> bool {
    if step_has_nul(step) {
        end == mid && is_nul_hint_error(e)
    } else {
        exists|c: WindowHint| #[trigger] call_ensures(set, (mid, c), (end, Err::<(), XErr>(e))) && is_hint_call(c, step)
    }
}

/// Whether the planned `steps` were made through `set`, one call each, in
/// order and each succeeding, with the token passed from call to call:
/// `start` goes into the first and `end` comes out of the last.
pub open spec fn chain_ok<T, F: Fn(T, WindowHint) -> (T, Result<(), XErr>)>(
    set: F,
    start: T,
    steps: Seq<HintStep>,
    end: T,
) -> bool
    decreases steps.len(),
{
    if steps.len() == 0 {
        end == start
    } else {
        exists|mid: T| chain_ok(set, start, steps.drop_last(), mid) && #[trigger] step_ok(set, mid, steps.last(), end)
    }
}

/// Whether `r` is the outcome of making the planned `steps` through `set` in
/// order from the token `start`, stopping at the first failure, with `end`
/// the token left: `Ok` when every step succeeded, else the error of the
/// first step that failed, every step before it having succeeded and none
/// after it having been made.
pub open spec fn hints_applied<T, F: Fn(T, WindowHint) -> (T, Result<(), XErr>)>(
    set: F,
    start: T,
    steps: Seq<HintStep>,
    end: T,
    r: Result<(), XErr>,
) -> bool {
    match r {
        Ok(_) => chain_ok(set, start, steps, end),
        Err(e) => exists|k: int, mid: T|
            0 <= k < steps.len()
            && #[trigger] chain_ok(set, start, steps.take(k), mid)
            && step_failed(set, mid, steps[k], end, e),
    }
}

/// A chain of steps followed by one more successful step is a chain.
pub proof fn lemma_chain_push<T, F: Fn(T, WindowHint) -> (T, Result<(), XErr>)>(
    set: F,
    start: T,
    steps: Seq<HintStep>,
    mid: T,
    step: HintStep,
    end: T,
)
    requires
        chain_ok(set, start, steps, mid),
        step_ok(set, mid, step, end),
    ensures
        chain_ok(set, start, steps.push(step), end),
{
    let longer = steps.push(step);
    assert(longer.drop_last() =~= steps);
    assert(longer.last() == step);
    assert(chain_ok(set, start, longer.drop_last(), mid));
}

/// Two chains, the second starting from the token the first ended with,
/// make one chain over both step sequences.
pub proof fn lemma_chain_concat<T, F: Fn(T, WindowHint) -> (T, Result<(), XErr>)>(
    set: F,
    start: T,
    first: Seq<HintStep>,
    mid: T,
    second: Seq<HintStep>,
    end: T,
)
    requires
        chain_ok(set, start, first, mid),
        chain_ok(set, mid, second, end),
    ensures
        chain_ok(set, start, first + second, end),
    decreases second.len(),
{
    if second.len() == 0 {
        assert(first + second =~= first);
    } else {
        let m = choose|m: T| chain_ok(set, mid, second.drop_last(), m) && #[trigger] step_ok(set, m, second.last(), end);
        lemma_chain_concat(set, start, first, mid, second.drop_last(), m);
        assert(first + second =~= (first + second.drop_last()).push(second.last()));
        lemma_chain_push(set, start, first + second.drop_last(), m, second.last(), end);
    }
}

/// An application that failed partway through some steps is also one that
/// failed partway through those steps followed by any others: the steps
/// after the failure are never made.
pub proof fn lemma_failure_extends<T, F: Fn(T, WindowHint) -> (T, Result<(), XErr>)>(
    set: F,
    start: T,
    steps: Seq<HintStep>,
    more: Seq<HintStep>,
    end: T,
    e: XErr,
)
    requires
        hints_applied(set, start, steps, end, Err::<(), XErr>(e)),
    ensures
        hints_applied(set, start, steps + more, end, Err::<(), XErr>(e)),
{
    let (k, m) = choose|k: int, m: T|
        0 <= k < steps.len()
        && #[trigger] chain_ok(set, start, steps.take(k), m)
        && step_failed(set, m, steps[k], end, e);
    let all = steps + more;
    assert(all.take(k) =~= steps.take(k));
    assert(all[k] == steps[k]);
    assert(chain_ok(set, start, all.take(k), m));
}

/// A chain followed by an application that failed is an application of both
/// step sequences that failed with the same error.
pub proof fn lemma_chain_then_failure<T, F: Fn(T, WindowHint) -> (T, Result<(), XErr>)>(
    set: F,
    start: T,
    first: Seq<HintStep>,
    mid: T,
    second: Seq<HintStep>,
    end: T,
    e: XErr,
)
    requires
        chain_ok(set, start, first, mid),
        hints_applied(set, mid, second, end, Err::<(), XErr>(e)),
    ensures
        hints_applied(set, start, first + second, end, Err::<(), XErr>(e)),
{
    let (k, m) = choose|k: int, m: T|
        0 <= k < second.len()
        && #[trigger] chain_ok(set, mid, second.take(k), m)
        && step_failed(set, m, second[k], end, e);
    lemma_chain_concat(set, start, first, mid, second.take(k), m);
    let all = first + second;
    assert(all.take(first.len() + k) =~= first + second.take(k));
    assert(all[first.len() + k] == second[k]);
    assert(chain_ok(set, start, all.take(first.len() + k), m));
}

/// The integer hints that GLFW holds after the calls `steps`, made in
/// order: a reset clears them all, back to their defaults, and an integer
/// hint sets one, replacing its earlier value.
pub open spec fn int_hints_after(steps: Seq<HintStep>) -> Map<u32, i32>
    decreases steps.len(),
{
    if steps.len() == 0 {
        Map::empty()
    } else {
        let before = int_hints_after(steps.drop_last());
        match steps.last() {
            HintStep::Reset => Map::empty(),
            HintStep::Integer(h, v) => before.insert(h, v),
            HintStep::Text(_, _) => before,
        }
    }
}

/// The string hints that GLFW holds after the calls `steps`, made in order,
/// as [int_hints_after] does for integer hints.
pub open spec fn text_hints_after(steps: Seq<HintStep>) -> Map<u32, Seq<char>>
    decreases steps.len(),
{
    if steps.len() == 0 {
        Map::empty()
    } else {
        let before = text_hints_after(steps.drop_last());
        match steps.last() {
            HintStep::Reset => Map::empty(),
            HintStep::Integer(_, _) => before,
            HintStep::Text(h, t) => before.insert(h, t),
        }
    }
}

/// String hint calls leave the integer hints as they are.
pub(crate) proof fn lemma_texts_keep_int_hints(prefix: Seq<HintStep>, texts: Seq<(u32, Seq<char>)>)
    ensures
        int_hints_after(prefix + texts.map_values(|s: (u32, Seq<char>)| HintStep::Text(s.0, s.1)))
            == int_hints_after(prefix),
    decreases texts.len(),
{
    let steps = prefix + texts.map_values(|s: (u32, Seq<char>)| HintStep::Text(s.0, s.1));
    if texts.len() == 0 {
        assert(steps =~= prefix);
    } else {
        let shorter = texts.drop_last();
        lemma_texts_keep_int_hints(prefix, shorter);
        assert(steps.drop_last() =~= prefix + shorter.map_values(|s: (u32, Seq<char>)| HintStep::Text(s.0, s.1)));
    }
}

/// A later integer hint replaces an earlier value of the same hint: once a
/// builder's hints are applied, the hint given last holds its value, and
/// every other integer hint holds what it held before.
pub proof fn lemma_later_hint_wins(b: WindowBuilderView, hint: u32, value: i32, other: u32)
    requires
        other != hint,
    ensures
        int_hints_after(hint_calls(b.with_hint(hint, value))).contains_key(hint),
        int_hints_after(hint_calls(b.with_hint(hint, value)))[hint] == value,
        int_hints_after(hint_calls(b.with_hint(hint, value))).contains_key(other)
            == int_hints_after(hint_calls(b)).contains_key(other),
        int_hints_after(hint_calls(b.with_hint(hint, value)))[other] == int_hints_after(hint_calls(b))[other],
{
    let head = seq![HintStep::Reset, HintStep::Integer(GLFW_POSITION_X, b.position.x), HintStep::Integer(GLFW_POSITION_Y, b.position.y)];
    let ints = b.hints.map_values(|h: (u32, i32)| HintStep::Integer(h.0, h.1));
    let more = b.with_hint(hint, value);
    let more_ints = more.hints.map_values(|h: (u32, i32)| HintStep::Integer(h.0, h.1));
    assert(head + more_ints =~= (head + ints).push(HintStep::Integer(hint, value)));
    lemma_texts_keep_int_hints(head + more_ints, b.strings);
    lemma_texts_keep_int_hints(head + ints, b.strings);
    assert((head + ints).push(HintStep::Integer(hint, value)).drop_last() =~= head + ints);
}

/// A later string hint replaces an earlier value of the same hint: once a
/// builder's hints are applied, the string given last holds, and every
/// other string hint holds what it held before.
pub proof fn lemma_later_string_wins(b: WindowBuilderView, hint: u32, value: Seq<char>, other: u32)
    requires
        other != hint,
    ensures
        text_hints_after(hint_calls(b.with_string(hint, value))).contains_key(hint),
        text_hints_after(hint_calls(b.with_string(hint, value)))[hint] == value,
        text_hints_after(hint_calls(b.with_string(hint, value))).contains_key(other)
            == text_hints_after(hint_calls(b)).contains_key(other),
        text_hints_after(hint_calls(b.with_string(hint, value)))[other] == text_hints_after(hint_calls(b))[other],
{
    let head = seq![HintStep::Reset, HintStep::Integer(GLFW_POSITION_X, b.position.x), HintStep::Integer(GLFW_POSITION_Y, b.position.y)];
    let ints = b.hints.map_values(|h: (u32, i32)| HintStep::Integer(h.0, h.1));
    let texts = b.strings.map_values(|s: (u32, Seq<char>)| HintStep::Text(s.0, s.1));
    let more = b.with_string(hint, value);
    let more_texts = more.strings.map_values(|s: (u32, Seq<char>)| HintStep::Text(s.0, s.1));
    assert(head + ints + more_texts =~= (head + ints + texts).push(HintStep::Text(hint, value)));
    assert((head + ints + texts).push(HintStep::Text(hint, value)).drop_last() =~= head + ints + texts);
}

/// Calls that begin with a reset leave nothing of the calls made before
/// them.
pub(crate) proof fn lemma_reset_forgets(earlier: Seq<HintStep>, steps: Seq<HintStep>)
    requires
        steps.len() > 0,
        steps[0] == HintStep::Reset,
    ensures
        int_hints_after(earlier + steps) == int_hints_after(steps),
        text_hints_after(earlier + steps) == text_hints_after(steps),
    decreases steps.len(),
{
    if steps.len() > 1 {
        lemma_reset_forgets(earlier, steps.drop_last());
        assert((earlier + steps).drop_last() =~= earlier + steps.drop_last());
    }
}

/// Applying a builder's hints starts from the defaults: the hints GLFW holds
/// afterwards are the builder's alone, whatever hints were set before.
pub proof fn lemma_apply_starts_from_defaults(earlier: Seq<HintStep>, b: WindowBuilderView)
    ensures
        int_hints_after(earlier + hint_calls(b)) == int_hints_after(hint_calls(b)),
        text_hints_after(earlier + hint_calls(b)) == text_hints_after(hint_calls(b)),
{
    lemma_reset_forgets(earlier, hint_calls(b));
}

/// The value of the last integer hint `key` among `hints`, if there is one:
/// the value that hint holds once the hints are applied.
pub open spec fn last_hint(hints: Seq<(u32, i32)>, key: u32) -> Option<i32>
    decreases hints.len(),
{
    if hints.len() == 0 {
        None
    } else if hints.last().0 == key {
        Some(hints.last().1)
    } else {
        last_hint(hints.drop_last(), key)
    }
}

/// Integer hint calls leave every integer hint at the value that the last
/// call for it gave.
pub(crate) proof fn lemma_last_int_hint_holds(prefix: Seq<HintStep>, hints: Seq<(u32, i32)>, key: u32, value: i32)
    requires
        last_hint(hints, key) == Some(value),
    ensures
        int_hints_after(prefix + hints.map_values(|h: (u32, i32)| HintStep::Integer(h.0, h.1))).contains_key(key),
        int_hints_after(prefix + hints.map_values(|h: (u32, i32)| HintStep::Integer(h.0, h.1)))[key] == value,
    decreases hints.len(),
{
    let steps = prefix + hints.map_values(|h: (u32, i32)| HintStep::Integer(h.0, h.1));
    let shorter = hints.drop_last();
    assert(steps.drop_last() =~= prefix + shorter.map_values(|h: (u32, i32)| HintStep::Integer(h.0, h.1)));
    if hints.last().0 != key {
        lemma_last_int_hint_holds(prefix, shorter, key, value);
    }
}

/// Returns whether `s` holds a null character.
pub fn contains_nul(s: &str) -> (r: bool)
    ensures
        r == s@.contains('\0'),
{
    let len = s.unicode_len();
    let mut idx: usize = 0;
    while idx < len
        invariant
            len == s@.len(),
            idx <= len,
            forall|k: int| 0 <= k < idx ==> s@[k] != '\0',
        decreases len - idx,
    {
        if s.get_char(idx) == '\0' {
            assert(s@[idx as int] == '\0');
            return true;
        }
        idx = idx + 1;
    }
    false
}

impl WindowBuilder {
    /// Construct and return a new [WindowBuilder] with no hints and no
    /// requested position.
    pub fn new() -> (r: WindowBuilder)
        ensures
            r@.hints == Seq::<(u32, i32)>::empty(),
            r@.strings == Seq::<(u32, Seq<char>)>::empty(),
            r@.position == (Pixels { x: GLFW_ANY_POSITION as i32, y: GLFW_ANY_POSITION as i32 }),
    {
        let r = WindowBuilder {
            hints: Vec::new(),
            strings: Vec::new(),
            position: Pixels { x: GLFW_ANY_POSITION as i32, y: GLFW_ANY_POSITION as i32 },
        };
        assert(r@.strings =~= Seq::<(u32, Seq<char>)>::empty());
        r
    }

    fn int_hint(&mut self, hint: u32, value: i32) -> (r: &mut Self)
        ensures
            r@ == old(self)@.with_hint(hint, value),
            final(self)@ == final(r)@,
    {
        self.hints.push((hint, value));
        self
    }

    fn hint(&mut self, hint: u32, value: bool) -> (r: &mut Self)
        ensures
            r@ == old(self)@.with_hint(hint, glfw_bool(value)),
            final(self)@ == final(r)@,
    {
        self.int_hint(hint, to_glfw_bool(value))
    }

    fn string(&mut self, hint: u32, value: &str) -> (r: &mut Self)
        ensures
            r@ == old(self)@.with_string(hint, value@),
            final(self)@ == final(r)@,
    {
        let ghost before = self.strings@;
        self.strings.push((hint, value.to_owned()));
        proof {
            assert(self.strings@.map_values(|h: (u32, String)| (h.0, h.1@))
                =~= before.map_values(|h: (u32, String)| (h.0, h.1@)).push((hint, value@)));
        }
        self
    }

    /// Specifies whether the windowed mode window will be resizable by the user.
    /// This hint is ignored for full screen and undecorated windows.
    ///
    /// **Default:** `true`
    pub fn resizable(&mut self, value: bool) -> (r: &mut Self)
        ensures
            r@ == old(self)@.with_hint(GLFW_RESIZABLE, glfw_bool(value)),
            final(self)@ == final(r)@,
    {
        self.hint(GLFW_RESIZABLE, value)
    }

    /// Specifies whether the windowed mode window will be initially visible.
    /// This hint is ignored for full screen windows.
    ///
    /// **Default:** `true`
    pub fn visible(&mut self, value: bool) -> (r: &mut Self)
        ensures
            r@ == old(self)@.with_hint(GLFW_VISIBLE, glfw_bool(value)),
            final(self)@ == final(r)@,
    {
        self.hint(GLFW_VISIBLE, value)
    }

    /// Specifies whether the windowed mode window will have window decorations
    /// such as a border and a close widget. This hint is ignored for full
    /// screen windows.
    ///
    /// **Default:** `true`
    pub fn decorated(&mut self, value: bool) -> (r: &mut Self)
        ensures
            r@ == old(self)@.with_hint(GLFW_DECORATED, glfw_bool(value)),
            final(self)@ == final(r)@,
    {
        self.hint(GLFW_DECORATED, value)
    }

    /// Specifies whether the windowed mode window will be given input focus
    /// when created.
    ///
    /// **Default:** `true`
    pub fn focused(&mut self, value: bool) -> (r: &mut Self)
        ensures
            r@ == old(self)@.with_hint(GLFW_FOCUSED, glfw_bool(value)),
            final(self)@ == final(r)@,
    {
        self.hint(GLFW_FOCUSED, value)
    }

    /// Specifies whether the full screen window will automatically iconify and
    /// restore the previous video mode on input focus loss.
    ///
    /// **Default:** `true`
    pub fn auto_iconify(&mut self, value: bool) -> (r: &mut Self)
        ensures
            r@ == old(self)@.with_hint(GLFW_AUTO_ICONIFY, glfw_bool(value)),
            final(self)@ == final(r)@,
    {
        self.hint(GLFW_AUTO_ICONIFY, value)
    }

    /// Specifies whether the windowed mode window will be floating above other
    /// regular windows.
    ///
    /// **Default:** `false`
    pub fn floating(&mut self, value: bool) -> (r: &mut Self)
        ensures
            r@ == old(self)@.with_hint(GLFW_FLOATING, glfw_bool(value)),
            final(self)@ == final(r)@,
    {
        self.hint(GLFW_FLOATING, value)
    }

    /// Specifies whether the windowed mode window will be maximized when
    /// created.
    ///
    /// **Default:** `false`
    pub fn maximized(&mut self, value: bool) -> (r: &mut Self)
        ensures
            r@ == old(self)@.with_hint(GLFW_MAXIMIZED, glfw_bool(value)),
            final(self)@ == final(r)@,
    {
        self.hint(GLFW_MAXIMIZED, value)
    }

    /// Specifies whether the cursor should be centered over newly created full
    /// screen windows.
    ///
    /// **Default:** `true`
    pub fn center_cursor(&mut self, value: bool) -> (r: &mut Self)
        ensures
            r@ == old(self)@.with_hint(GLFW_CENTER_CURSOR, glfw_bool(value)),
            final(self)@ == final(r)@,
    {
        self.hint(GLFW_CENTER_CURSOR, value)
    }

    /// Specifies whether the window framebuffer will be transparent.
    ///
    /// **Default:** `false`
    pub fn transparent(&mut self, value: bool) -> (r: &mut Self)
        ensures
            r@ == old(self)@.with_hint(GLFW_TRANSPARENT_FRAMEBUFFER, glfw_bool(value)),
            final(self)@ == final(r)@,
    {
        self.hint(GLFW_TRANSPARENT_FRAMEBUFFER, value)
    }

    /// Specifies whether the window will be given input focus when it is
    /// shown.
    ///
    /// **Default:** `true`
    pub fn focus_on_show(&mut self, value: bool) -> (r: &mut Self)
        ensures
            r@ == old(self)@.with_hint(GLFW_FOCUS_ON_SHOW, glfw_bool(value)),
            final(self)@ == final(r)@,
    {
        self.hint(GLFW_FOCUS_ON_SHOW, value)
    }

    /// Specifies whether the window content area should be resized based on
    /// content scale changes.
    ///
    /// **Default:** `false`
    pub fn scale_to_monitor(&mut self, value: bool) -> (r: &mut Self)
        ensures
            r@ == old(self)@.with_hint(GLFW_SCALE_TO_MONITOR, glfw_bool(value)),
            final(self)@ == final(r)@,
    {
        self.hint(GLFW_SCALE_TO_MONITOR, value)
    }

    /// Specifies whether the framebuffer should be resized based on content
    /// scale changes.
    ///
    /// **Default:** `true`
    pub fn scale_framebuffer(&mut self, value: bool) -> (r: &mut Self)
        ensures
            r@ == old(self)@.with_hint(GLFW_SCALE_FRAMEBUFFER, glfw_bool(value)),
            final(self)@ == final(r)@,
    {
        self.hint(GLFW_SCALE_FRAMEBUFFER, value)
    }

    /// Specifies whether the window is transparent to mouse input.
    ///
    /// **Default:** `false`
    pub fn mouse_passthrough(&mut self, value: bool) -> (r: &mut Self)
        ensures
            r@ == old(self)@.with_hint(GLFW_MOUSE_PASSTHROUGH, glfw_bool(value)),
            final(self)@ == final(r)@,
    {
        self.hint(GLFW_MOUSE_PASSTHROUGH, value)
    }

    /// Specifies whether to use OpenGL stereoscopic rendering. This is a hard
    /// constraint.
    ///
    /// **Default:** `false`
    pub fn stereo(&mut self, value: bool) -> (r: &mut Self)
        ensures
            r@ == old(self)@.with_hint(GLFW_STEREO, glfw_bool(value)),
            final(self)@ == final(r)@,
    {
        self.hint(GLFW_STEREO, value)
    }

    /// Specifies whether the framebuffer should be sRGB capable.
    ///
    /// **Default:** `false`
    pub fn srgb(&mut self, value: bool) -> (r: &mut Self)
        ensures
            r@ == old(self)@.with_hint(GLFW_SRGB_CAPABLE, glfw_bool(value)),
            final(self)@ == final(r)@,
    {
        self.hint(GLFW_SRGB_CAPABLE, value)
    }

    /// Specifies whether the framebuffer should be double buffered. This is a
    /// hard constraint.
    ///
    /// **Default:** `true`
    pub fn double_buffer(&mut self, value: bool) -> (r: &mut Self)
        ensures
            r@ == old(self)@.with_hint(GLFW_DOUBLEBUFFER, glfw_bool(value)),
            final(self)@ == final(r)@,
    {
        self.hint(GLFW_DOUBLEBUFFER, value)
    }

    /// Specifies whether the OpenGL context should be forward-compatible.
    ///
    /// **Default:** `false`
    pub fn opengl_forward_compatible(&mut self, value: bool) -> (r: &mut Self)
        ensures
            r@ == old(self)@.with_hint(GLFW_OPENGL_FORWARD_COMPAT, glfw_bool(value)),
            final(self)@ == final(r)@,
    {
        self.hint(GLFW_OPENGL_FORWARD_COMPAT, value)
    }

    /// Specifies whether the context should be created in debug mode.
    ///
    /// **Default:** `false`
    pub fn context_debug(&mut self, value: bool) -> (r: &mut Self)
        ensures
            r@ == old(self)@.with_hint(GLFW_CONTEXT_DEBUG, glfw_bool(value)),
            final(self)@ == final(r)@,
    {
        self.hint(GLFW_CONTEXT_DEBUG, value)
    }

    /// Specifies whether errors should be generated by the context.
    ///
    /// **Default:** `false`
    pub fn context_no_error(&mut self, value: bool) -> (r: &mut Self)
        ensures
            r@ == old(self)@.with_hint(GLFW_CONTEXT_NO_ERROR, glfw_bool(value)),
            final(self)@ == final(r)@,
    {
        self.hint(GLFW_CONTEXT_NO_ERROR, value)
    }

    /// **Windows.** Specifies whether to allow access to the window menu via
    /// the Alt+Space and Alt-and-then-Space keyboard shortcuts.
    ///
    /// **Default:** `false`
    pub fn win32_keyboard_menu(&mut self, value: bool) -> (r: &mut Self)
        ensures
            r@ == old(self)@.with_hint(GLFW_WIN32_KEYBOARD_MENU, glfw_bool(value)),
            final(self)@ == final(r)@,
    {
        self.hint(GLFW_WIN32_KEYBOARD_MENU, value)
    }

    /// **Windows.** Specifies whether to show the window the way specified in
    /// the program's STARTUPINFO when it is shown for the first time.
    ///
    /// **Default:** `false`
    pub fn win32_show_default(&mut self, value: bool) -> (r: &mut Self)
        ensures
            r@ == old(self)@.with_hint(GLFW_WIN32_SHOWDEFAULT, glfw_bool(value)),
            final(self)@ == final(r)@,
    {
        self.hint(GLFW_WIN32_SHOWDEFAULT, value)
    }

    /// **MacOS.** Specifies whether to allow Automatic Graphics Switching.
    ///
    /// **Default:** `false`
    pub fn cocoa_graphics_switching(&mut self, value: bool) -> (r: &mut Self)
        ensures
            r@ == old(self)@.with_hint(GLFW_COCOA_GRAPHICS_SWITCHING, glfw_bool(value)),
            final(self)@ == final(r)@,
    {
        self.hint(GLFW_COCOA_GRAPHICS_SWITCHING, value)
    }

    /// Specify the desired bit depth of the alpha component of the default
    /// framebuffer. `None` means no preference.
    ///
    /// **Default:** `8`
    pub fn alpha_bits(&mut self, value: Option<i32>) -> (r: &mut Self)
        ensures
            r@ == old(self)@.with_hint(GLFW_ALPHA_BITS, hint_or_dont_care(value)),
            final(self)@ == final(r)@,
    {
        self.int_hint(GLFW_ALPHA_BITS, or_dont_care(value))
    }

    /// Specify the desired bit depth of the depth component of the default
    /// framebuffer. `None` means no preference.
    ///
    /// **Default:** `24`
    pub fn depth_bits(&mut self, value: Option<i32>) -> (r: &mut Self)
        ensures
            r@ == old(self)@.with_hint(GLFW_DEPTH_BITS, hint_or_dont_care(value)),
            final(self)@ == final(r)@,
    {
        self.int_hint(GLFW_DEPTH_BITS, or_dont_care(value))
    }

    /// Specify the desired bit depth of the stencil component of the default
    /// framebuffer. `None` means no preference.
    ///
    /// **Default:** `8`
    pub fn stencil_bits(&mut self, value: Option<i32>) -> (r: &mut Self)
        ensures
            r@ == old(self)@.with_hint(GLFW_STENCIL_BITS, hint_or_dont_care(value)),
            final(self)@ == final(r)@,
    {
        self.int_hint(GLFW_STENCIL_BITS, or_dont_care(value))
    }

    /// Specifies the desired number of samples to use for multisampling. Zero
    /// disables multisampling. `None` means no preference.
    ///
    /// **Default:** `0`
    pub fn samples(&mut self, value: Option<i32>) -> (r: &mut Self)
        ensures
            r@ == old(self)@.with_hint(GLFW_SAMPLES, hint_or_dont_care(value)),
            final(self)@ == final(r)@,
    {
        self.int_hint(GLFW_SAMPLES, or_dont_care(value))
    }

    /// Specifies the desired refresh rate for full screen windows. `None` means
    /// the highest available refresh rate will be used.
    ///
    /// **Default:** `None`
    pub fn refresh_rate(&mut self, value: Option<i32>) -> (r: &mut Self)
        ensures
            r@ == old(self)@.with_hint(GLFW_REFRESH_RATE, hint_or_dont_care(value)),
            final(self)@ == final(r)@,
    {
        self.int_hint(GLFW_REFRESH_RATE, or_dont_care(value))
    }

    /// Specifies which client API to create the context for. This is a hard
    /// constraint.
    ///
    /// **Default:** [ClientApi::OpenGl]
    pub fn client_api(&mut self, value: ClientApi) -> (r: &mut Self)
        ensures
            r@ == old(self)@.with_hint(GLFW_CLIENT_API, client_api_code(value) as i32),
            final(self)@ == final(r)@,
    {
        let code = value.as_glfw();
        self.int_hint(GLFW_CLIENT_API, code as i32)
    }

    /// Specifies which context creation API to use to create the context.
    ///
    /// **Default:** [ContextCreationApi::Native]
    pub fn context_creation_api(&mut self, value: ContextCreationApi) -> (r: &mut Self)
        ensures
            r@ == old(self)@.with_hint(GLFW_CONTEXT_CREATION_API, context_creation_api_code(value) as i32),
            final(self)@ == final(r)@,
    {
        let code = value.as_glfw();
        self.int_hint(GLFW_CONTEXT_CREATION_API, code as i32)
    }

    /// Specifies which OpenGL profile to create the context for.
    ///
    /// **Default:** [GlProfile::Any]
    pub fn opengl_profile(&mut self, value: GlProfile) -> (r: &mut Self)
        ensures
            r@ == old(self)@.with_hint(GLFW_OPENGL_PROFILE, gl_profile_code(value) as i32),
            final(self)@ == final(r)@,
    {
        let code = value.as_glfw();
        self.int_hint(GLFW_OPENGL_PROFILE, code as i32)
    }

    /// Specifies the robustness strategy to be used by the context.
    ///
    /// **Default:** [Robustness::NoRobustness]
    pub fn context_robustness(&mut self, value: Robustness) -> (r: &mut Self)
        ensures
            r@ == old(self)@.with_hint(GLFW_CONTEXT_ROBUSTNESS, robustness_code(value) as i32),
            final(self)@ == final(r)@,
    {
        let code = value.as_glfw();
        self.int_hint(GLFW_CONTEXT_ROBUSTNESS, code as i32)
    }

    /// Specifies the release behavior to be used by the context.
    ///
    /// **Default:** [ContextReleaseBehavior::Any]
    pub fn context_release_behavior(&mut self, value: ContextReleaseBehavior) -> (r: &mut Self)
        ensures
            r@ == old(self)@.with_hint(GLFW_CONTEXT_RELEASE_BEHAVIOR, context_release_behavior_code(value) as i32),
            final(self)@ == final(r)@,
    {
        let code = value.as_glfw();
        self.int_hint(GLFW_CONTEXT_RELEASE_BEHAVIOR, code as i32)
    }

    /// **MacOS.** Specifies the UTF-8 encoded name to use for autosaving the
    /// window frame, or if empty disables frame autosaving.
    ///
    /// **Default:** `""`
    pub fn cocoa_frame_name(&mut self, value: &str) -> (r: &mut Self)
        ensures
            r@ == old(self)@.with_string(GLFW_COCOA_FRAME_NAME, value@),
            final(self)@ == final(r)@,
    {
        self.string(GLFW_COCOA_FRAME_NAME, value)
    }

    /// **Wayland.** Specifies the app_id for a window, used by window managers
    /// to identify types of windows.
    ///
    /// **Default:** `""`
    pub fn wayland_app_id(&mut self, value: &str) -> (r: &mut Self)
        ensures
            r@ == old(self)@.with_string(GLFW_WAYLAND_APP_ID, value@),
            final(self)@ == final(r)@,
    {
        self.string(GLFW_WAYLAND_APP_ID, value)
    }

    /// Specify the desired initial position of the window. The window
    /// manager may modify or ignore these coordinates. If either value is
    /// `None`, the window manager positions the window where it thinks the
    /// user will prefer it.
    ///
    /// **Default:** `None`, `None`
    pub fn position(&mut self, x: Option<i32>, y: Option<i32>) -> (r: &mut Self)
        ensures
            r@ == (WindowBuilderView {
                position: Pixels { x: position_or_any(x), y: position_or_any(y) },
                ..old(self)@
            }),
            final(self)@ == final(r)@,
    {
        self.position = Pixels { x: or_any_position(x), y: or_any_position(y) };
        self
    }

    /// Specify the desired bit depth of the red, green, and blue components
    /// of the default framebuffer. `None` means no preference.
    ///
    /// **Default:** `8`, `8`, `8`
    pub fn rgb_bits(&mut self, red: Option<i32>, green: Option<i32>, blue: Option<i32>) -> (r: &mut Self)
        ensures
            r@ == old(self)@.with_hint(GLFW_RED_BITS, hint_or_dont_care(red))
                .with_hint(GLFW_GREEN_BITS, hint_or_dont_care(green))
                .with_hint(GLFW_BLUE_BITS, hint_or_dont_care(blue)),
            final(self)@ == final(r)@,
    {
        self.hints.push((GLFW_RED_BITS, or_dont_care(red)));
        self.hints.push((GLFW_GREEN_BITS, or_dont_care(green)));
        self.hints.push((GLFW_BLUE_BITS, or_dont_care(blue)));
        self
    }

    /// Specify the client API version that the created context must be
    /// compatible with.
    ///
    /// **Default:** `1`, `0`
    pub fn context_version(&mut self, major: i32, minor: i32) -> (r: &mut Self)
        ensures
            r@ == old(self)@.with_hint(GLFW_CONTEXT_VERSION_MAJOR, major).with_hint(GLFW_CONTEXT_VERSION_MINOR, minor),
            final(self)@ == final(r)@,
    {
        self.hints.push((GLFW_CONTEXT_VERSION_MAJOR, major));
        self.hints.push((GLFW_CONTEXT_VERSION_MINOR, minor));
        self
    }

    /// **X11.** Specifies the ASCII encoded class and instance parts of the
    /// ICCCM `WM_CLASS` window property. Both need to be non-empty to take
    /// effect.
    ///
    /// **Default:** `""`, `""`
    pub fn x11_class_name(&mut self, class: &str, instance: &str) -> (r: &mut Self)
        ensures
            r@ == old(self)@.with_string(GLFW_X11_CLASS_NAME, class@).with_string(GLFW_X11_INSTANCE_NAME, instance@),
            final(self)@ == final(r)@,
    {
        self.string(GLFW_X11_CLASS_NAME, class);
        self.string(GLFW_X11_INSTANCE_NAME, instance)
    }

    /// Returns the value that this builder gives the integer hint `key`: the
    /// last value set for it, if any.
    pub fn requested_hint(&self, key: u32) -> (r: Option<i32>)
        ensures
            r == last_hint(self@.hints, key),
    {
        let mut found: Option<i32> = None;
        let mut idx: usize = 0;
        while idx < self.hints.len()
            invariant
                idx <= self.hints@.len(),
                found == last_hint(self.hints@.take(idx as int), key),
            decreases self.hints@.len() - idx,
        {
            let (h, v) = self.hints[idx];
            assert(self.hints@.take(idx + 1).drop_last() == self.hints@.take(idx as int));
            if h == key {
                found = Some(v);
            }
            idx = idx + 1;
        }
        assert(self.hints@.take(self.hints@.len() as int) == self.hints@);
        found
    }

    /// Applies the hints stored in this builder through `set`, which makes
    /// one GLFW hint call on the main thread and reports the error GLFW gave
    /// for it. The calls are those of [hint_calls], in order: the hints are
    /// reset to their defaults, the position is set, then each integer hint
    /// and each string hint follow in the order they were given. The first
    /// error stops the application and is returned.
    ///
    /// # Errors
    /// [XErr::InvalidValue] if a string hint holds a null character, which
    /// GLFW cannot take; it is returned in place of that hint's call. Other
    /// possible errors include [XErr::NotInitialized] and
    /// [XErr::InvalidEnum].
    pub fn apply<T, F: Fn(T, WindowHint) -> (T, Result<(), XErr>)>(&self, token: T, set: &F) -> (r: (T, Result<(), XErr>))
        requires
            forall|t: T, c: WindowHint| call_requires(*set, (t, c)),
        ensures
            hints_applied(*set, token, hint_calls(self@), r.0, r.1),
    {
        let ghost steps = hint_calls(self@);
        let ghost start = token;
        assert(chain_ok(*set, start, steps.take(0), start));
        let (t, res) = set(token, WindowHint::Defaults);
        if let Err(e) = res {
            assert(step_failed(*set, start, steps[0], t, e));
            return (t, Err(e));
        }
        proof {
            assert(step_ok(*set, start, steps[0], t));
            lemma_chain_push(*set, start, steps.take(0), start, steps[0], t);
            assert(steps.take(0).push(steps[0]) =~= steps.take(1));
        }
        let ghost t1 = t;
        let (t, res) = set(t, WindowHint::Integer(GLFW_POSITION_X, self.position.x));
        if let Err(e) = res {
            assert(step_failed(*set, t1, steps[1], t, e));
            return (t, Err(e));
        }
        proof {
            assert(step_ok(*set, t1, steps[1], t));
            lemma_chain_push(*set, start, steps.take(1), t1, steps[1], t);
            assert(steps.take(1).push(steps[1]) =~= steps.take(2));
        }
        let ghost t2 = t;
        let (t, res) = set(t, WindowHint::Integer(GLFW_POSITION_Y, self.position.y));
        if let Err(e) = res {
            assert(step_failed(*set, t2, steps[2], t, e));
            return (t, Err(e));
        }
        proof {
            assert(step_ok(*set, t2, steps[2], t));
            lemma_chain_push(*set, start, steps.take(2), t2, steps[2], t);
            assert(steps.take(2).push(steps[2]) =~= steps.take(3));
        }
        let mut t = t;
        let mut jdx: usize = 0;
        while jdx < self.hints.len()
            invariant
                steps == hint_calls(self@),
                forall|t: T, c: WindowHint| call_requires(*set, (t, c)),
                start == token,
                jdx <= self.hints@.len(),
                chain_ok(*set, start, steps.take(3 + jdx), t),
            decreases self.hints@.len() - jdx,
        {
            let (hint, value) = self.hints[jdx];
            let k: Ghost<int> = Ghost(3 + jdx);
            assert(steps[k@] == HintStep::Integer(hint, value));
            let ghost mid = t;
            let (next, res) = set(t, WindowHint::Integer(hint, value));
            t = next;
            if let Err(e) = res {
                assert(step_failed(*set, mid, steps[k@], t, e));
                assert(chain_ok(*set, start, steps.take(k@), mid));
                return (t, Err(e));
            }
            proof {
                assert(is_hint_call(WindowHint::Integer(hint, value), steps[k@]));
                assert(step_ok(*set, mid, steps[k@], t));
                lemma_chain_push(*set, start, steps.take(k@), mid, steps[k@], t);
                assert(steps.take(k@).push(steps[k@]) =~= steps.take(k@ + 1));
            }
            jdx = jdx + 1;
        }
        let ghost base: int = 3 + self.hints@.len() as int;
        let mut sdx: usize = 0;
        while sdx < self.strings.len()
            invariant
                steps == hint_calls(self@),
                base == 3 + self.hints@.len(),
                forall|t: T, c: WindowHint| call_requires(*set, (t, c)),
                start == token,
                sdx <= self.strings@.len(),
                chain_ok(*set, start, steps.take(base + sdx), t),
            decreases self.strings@.len() - sdx,
        {
            let hint = self.strings[sdx].0;
            let text = &self.strings[sdx].1;
            let k: Ghost<int> = Ghost(base + sdx);
            assert(steps[k@] == HintStep::Text(hint, text@));
            if contains_nul(text.as_str()) {
                let e = XErr::InvalidValue(String::from_str("String hint contains a null byte"));
                assert(step_failed(*set, t, steps[k@], t, e));
                assert(chain_ok(*set, start, steps.take(k@), t));
                return (t, Err(e));
            }
            let call = WindowHint::Text(hint, text.clone());
            assert(is_hint_call(call, steps[k@]));
            let ghost mid = t;
            let (next, res) = set(t, call);
            t = next;
            if let Err(e) = res {
                assert(step_failed(*set, mid, steps[k@], t, e));
                assert(chain_ok(*set, start, steps.take(k@), mid));
                return (t, Err(e));
            }
            proof {
                assert(step_ok(*set, mid, steps[k@], t));
                lemma_chain_push(*set, start, steps.take(k@), mid, steps[k@], t);
                assert(steps.take(k@).push(steps[k@]) =~= steps.take(k@ + 1));
            }
            sdx = sdx + 1;
        }
        assert(steps.take(base + self.strings@.len()) =~= steps);
        (t, Ok(()))
    }
}

impl Clone for WindowBuilder {
    /// Copies the hints and the requested position.
    fn clone(&self) -> (r: Self)
        ensures
            r@ == self@,
    {
        let mut hints: Vec<(u32, i32)> = Vec::new();
        let mut idx: usize = 0;
        while idx < self.hints.len()
            invariant
                idx <= self.hints@.len(),
                hints@ == self.hints@.take(idx as int),
            decreases self.hints@.len() - idx,
        {
            let h = self.hints[idx];
            hints.push(h);
            assert(self.hints@.take(idx + 1) == self.hints@.take(idx as int).push(h));
            idx = idx + 1;
        }
        assert(self.hints@.take(self.hints@.len() as int) == self.hints@);
        let mut strings: Vec<(u32, String)> = Vec::new();
        let mut jdx: usize = 0;
        while jdx < self.strings.len()
            invariant
                jdx <= self.strings@.len(),
                strings@ == self.strings@.take(jdx as int),
            decreases self.strings@.len() - jdx,
        {
            let hint = self.strings[jdx].0;
            let text = self.strings[jdx].1.clone();
            strings.push((hint, text));
            assert(self.strings@.take(jdx + 1) == self.strings@.take(jdx as int).push((hint, text)));
            jdx = jdx + 1;
        }
        assert(self.strings@.take(self.strings@.len() as int) == self.strings@);
        WindowBuilder { hints, strings, position: self.position }
    }
}

/// Each client API is the GLFW constant of the same name, both ways: OpenGL
/// is [GLFW_OPENGL_API], OpenGL ES [GLFW_OPENGL_ES_API] and no API [GLFW_NO_API].
pub proof fn lemma_client_api_glfw_names()
    ensures
        client_api_code(ClientApi::OpenGl) == GLFW_OPENGL_API,
        client_api_code(ClientApi::OpenGlEs) == GLFW_OPENGL_ES_API,
        client_api_code(ClientApi::NoApi) == GLFW_NO_API,
        client_api_from_code(GLFW_OPENGL_API) == Some(ClientApi::OpenGl),
        client_api_from_code(GLFW_OPENGL_ES_API) == Some(ClientApi::OpenGlEs),
        client_api_from_code(GLFW_NO_API) == Some(ClientApi::NoApi),
{
}

/// Each context creation API is the GLFW constant of the same name, both ways.
pub proof fn lemma_context_creation_api_glfw_names()
    ensures
        context_creation_api_code(ContextCreationApi::Native) == GLFW_NATIVE_CONTEXT_API,
        context_creation_api_code(ContextCreationApi::Egl) == GLFW_EGL_CONTEXT_API,
        context_creation_api_code(ContextCreationApi::Osmesa) == GLFW_OSMESA_CONTEXT_API,
        context_creation_api_from_code(GLFW_NATIVE_CONTEXT_API) == Some(ContextCreationApi::Native),
        context_creation_api_from_code(GLFW_EGL_CONTEXT_API) == Some(ContextCreationApi::Egl),
        context_creation_api_from_code(GLFW_OSMESA_CONTEXT_API) == Some(ContextCreationApi::Osmesa),
{
}

/// Each OpenGL profile is the GLFW constant of the same name, both ways.
pub proof fn lemma_gl_profile_glfw_names()
    ensures
        gl_profile_code(GlProfile::Core) == GLFW_OPENGL_CORE_PROFILE,
        gl_profile_code(GlProfile::Compat) == GLFW_OPENGL_COMPAT_PROFILE,
        gl_profile_code(GlProfile::Any) == GLFW_OPENGL_ANY_PROFILE,
        gl_profile_from_code(GLFW_OPENGL_CORE_PROFILE) == Some(GlProfile::Core),
        gl_profile_from_code(GLFW_OPENGL_COMPAT_PROFILE) == Some(GlProfile::Compat),
        gl_profile_from_code(GLFW_OPENGL_ANY_PROFILE) == Some(GlProfile::Any),
{
}

/// Each robustness strategy is the GLFW constant of the same name, both ways.
pub proof fn lemma_robustness_glfw_names()
    ensures
        robustness_code(Robustness::NoResetNotification) == GLFW_NO_RESET_NOTIFICATION,
        robustness_code(Robustness::LoseContextOnReset) == GLFW_LOSE_CONTEXT_ON_RESET,
        robustness_code(Robustness::NoRobustness) == GLFW_NO_ROBUSTNESS,
        robustness_from_code(GLFW_NO_RESET_NOTIFICATION) == Some(Robustness::NoResetNotification),
        robustness_from_code(GLFW_LOSE_CONTEXT_ON_RESET) == Some(Robustness::LoseContextOnReset),
        robustness_from_code(GLFW_NO_ROBUSTNESS) == Some(Robustness::NoRobustness),
{
}

/// Each context release behavior is the GLFW constant of the same name, both
/// ways: flushing is [GLFW_RELEASE_BEHAVIOR_FLUSH], not flushing
/// [GLFW_RELEASE_BEHAVIOR_NONE].
pub proof fn lemma_context_release_behavior_glfw_names()
    ensures
        context_release_behavior_code(ContextReleaseBehavior::Any) == GLFW_ANY_RELEASE_BEHAVIOR,
        context_release_behavior_code(ContextReleaseBehavior::Flush) == GLFW_RELEASE_BEHAVIOR_FLUSH,
        context_release_behavior_code(ContextReleaseBehavior::NoFlush) == GLFW_RELEASE_BEHAVIOR_NONE,
        context_release_behavior_from_code(GLFW_ANY_RELEASE_BEHAVIOR) == Some(ContextReleaseBehavior::Any),
        context_release_behavior_from_code(GLFW_RELEASE_BEHAVIOR_FLUSH) == Some(ContextReleaseBehavior::Flush),
        context_release_behavior_from_code(GLFW_RELEASE_BEHAVIOR_NONE) == Some(ContextReleaseBehavior::NoFlush),
{
}

} // verus!
