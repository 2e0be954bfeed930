//! Monitors: their positions, work areas, video modes and gamma ramps.
//!
//! Monitor queries run on GLFW's main thread; each operation takes the
//! closure that delivers its [XWinMessage] there and returns the reply.
use vstd::prelude::*;

pub mod callback;
pub mod events;

use crate::system::ScreenCoordinates;
use crate::system::exec::XWinMessage;
use crate::err::XErr;
use crate::system::channels::{is_not_initialized_error, not_initialized};

verus! {

/// The area of a monitor not occupied by global task bars or menu bars, in
/// screen coordinates.
#[derive(Copy, Clone, PartialEq, Eq, Debug, Default)]
pub struct WorkArea {
    pub pos: ScreenCoordinates,
    pub size: ScreenCoordinates,
}

/// The width, height, rgb bit depth, and refresh rate of a video mode of a
/// monitor.
#[derive(Copy, Clone, PartialEq, Eq, Debug, Default)]
pub struct VideoMode {
    width: i32,
    height: i32,
    red_bits: i32,
    green_bits: i32,
    blue_bits: i32,
    refresh_rate: i32,
}

/// The fields of a video mode: width, height, red, green and blue bits and
/// refresh rate.
pub struct VideoModeView {
    pub width: i32,
    pub height: i32,
    pub red_bits: i32,
    pub green_bits: i32,
    pub blue_bits: i32,
    pub refresh_rate: i32,
}

impl View for VideoMode {
    type V = VideoModeView;

    closed spec fn view(&self) -> VideoModeView {
        VideoModeView {
            width: self.width,
            height: self.height,
            red_bits: self.red_bits,
            green_bits: self.green_bits,
            blue_bits: self.blue_bits,
            refresh_rate: self.refresh_rate,
        }
    }
}

impl VideoMode {
    /// Builds a video mode from the fields of GLFW's video mode record.
    pub fn from_glfw(width: i32, height: i32, red_bits: i32, green_bits: i32, blue_bits: i32, refresh_rate: i32) -> (r: Self)
        ensures
            r@ == (VideoModeView { width, height, red_bits, green_bits, blue_bits, refresh_rate }),
    {
        VideoMode { width, height, red_bits, green_bits, blue_bits, refresh_rate }
    }

    /// The width, in screen coordinates, of the video mode.
    pub fn width(&self) -> (r: i32)
        ensures
            r == self@.width,
    {
        self.width
    }

    /// The height, in screen coordinates, of the video mode.
    pub fn height(&self) -> (r: i32)
        ensures
            r == self@.height,
    {
        self.height
    }

    /// The bit depth of the red channel of the video mode.
    pub fn red_bits(&self) -> (r: i32)
        ensures
            r == self@.red_bits,
    {
        self.red_bits
    }

    /// The bit depth of the green channel of the video mode.
    pub fn green_bits(&self) -> (r: i32)
        ensures
            r == self@.green_bits,
    {
        self.green_bits
    }

    /// The bit depth of the blue channel of the video mode.
    pub fn blue_bits(&self) -> (r: i32)
        ensures
            r == self@.blue_bits,
    {
        self.blue_bits
    }

    /// The refresh rate, in Hz, of the video mode.
    pub fn refresh_rate(&self) -> (r: i32)
        ensures
            r == self@.refresh_rate,
    {
        self.refresh_rate
    }
}

/// A gamma ramp: three arrays of the same size, for the red, green and blue
/// channels.
#[derive(Debug, PartialEq, Eq)]
pub struct GammaRamp {
    size: u32,
    red: Vec<u16>,
    green: Vec<u16>,
    blue: Vec<u16>,
}

/// The three channels of a gamma ramp.
pub struct GammaRampView {
    pub red: Seq<u16>,
    pub green: Seq<u16>,
    pub blue: Seq<u16>,
}

impl View for GammaRamp {
    type V = GammaRampView;

    closed spec fn view(&self) -> GammaRampView {
        GammaRampView { red: self.red@, green: self.green@, blue: self.blue@ }
    }
}

impl GammaRamp {
    /// The three channels have the ramp's size as their length.
    #[verifier::type_invariant]
    spec fn wf(self) -> bool {
        &&& self.red@.len() == self.size
        &&& self.green@.len() == self.size
        &&& self.blue@.len() == self.size
    }

    /// Constructs and returns a new [GammaRamp] with a given size, where all
    /// values are set to `fill`.
    pub fn new(size: u32, fill: u16) -> (r: Self)
        ensures
            r@.red.len() == size,
            r@.green.len() == size,
            r@.blue.len() == size,
            r@.red == Seq::new(size as nat, |i: int| fill),
            r@.green == Seq::new(size as nat, |i: int| fill),
            r@.blue == Seq::new(size as nat, |i: int| fill),
    {
        let mut red: Vec<u16> = Vec::new();
        let mut green: Vec<u16> = Vec::new();
        let mut blue: Vec<u16> = Vec::new();
        let mut idx: u32 = 0;
        while idx < size
            invariant
                idx <= size,
                red@ == Seq::new(idx as nat, |i: int| fill),
                green@ == Seq::new(idx as nat, |i: int| fill),
                blue@ == Seq::new(idx as nat, |i: int| fill),
            decreases size - idx,
        {
            red.push(fill);
            green.push(fill);
            blue.push(fill);
            idx = idx + 1;
        }
        GammaRamp { size, red, green, blue }
    }

    /// Constructs and returns a new [GammaRamp] where each value is the one
    /// returned by calling `f` with the index of that value (`0..size`).
    pub fn from_fn<F: Fn(u32) -> u16>(size: u32, f: F) -> (r: Self)
        requires
            forall|i: u32| i < size ==> call_requires(f, (i,)),
        ensures
            r@.red.len() == size,
            r@.green.len() == size,
            r@.blue.len() == size,
            forall|i: int| 0 <= i < size ==> call_ensures(f, (i as u32,), #[trigger] r@.red[i]),
            forall|i: int| 0 <= i < size ==> call_ensures(f, (i as u32,), #[trigger] r@.green[i]),
            forall|i: int| 0 <= i < size ==> call_ensures(f, (i as u32,), #[trigger] r@.blue[i]),
    {
        let mut red: Vec<u16> = Vec::new();
        let mut green: Vec<u16> = Vec::new();
        let mut blue: Vec<u16> = Vec::new();
        let mut idx: u32 = 0;
        while idx < size
            invariant
                idx <= size,
                forall|i: u32| i < size ==> call_requires(f, (i,)),
                red@.len() == idx,
                green@.len() == idx,
                blue@.len() == idx,
                forall|i: int| 0 <= i < idx ==> call_ensures(f, (i as u32,), #[trigger] red@[i]),
                forall|i: int| 0 <= i < idx ==> call_ensures(f, (i as u32,), #[trigger] green@[i]),
                forall|i: int| 0 <= i < idx ==> call_ensures(f, (i as u32,), #[trigger] blue@[i]),
            decreases size - idx,
        {
            red.push(f(idx));
            green.push(f(idx));
            blue.push(f(idx));
            idx = idx + 1;
        }
        GammaRamp { size, red, green, blue }
    }

    /// Builds a gamma ramp from the channel arrays of GLFW's gamma ramp
    /// record, copying `size` values from each.
    pub fn from_glfw(size: u32, red: &[u16], green: &[u16], blue: &[u16]) -> (r: Self)
        requires
            red@.len() == size,
            green@.len() == size,
            blue@.len() == size,
        ensures
            r@.red.len() == size,
            r@.green.len() == size,
            r@.blue.len() == size,
            r@.red == red@,
            r@.green == green@,
            r@.blue == blue@,
    {
        let mut r: Vec<u16> = Vec::new();
        let mut g: Vec<u16> = Vec::new();
        let mut b: Vec<u16> = Vec::new();
        let mut idx: usize = 0;
        while idx < size as usize
            invariant
                idx <= size,
                red@.len() == size,
                green@.len() == size,
                blue@.len() == size,
                r@ == red@.take(idx as int),
                g@ == green@.take(idx as int),
                b@ == blue@.take(idx as int),
            decreases size - idx,
        {
            r.push(red[idx]);
            g.push(green[idx]);
            b.push(blue[idx]);
            assert(red@.take(idx + 1) == red@.take(idx as int).push(red@[idx as int]));
            assert(green@.take(idx + 1) == green@.take(idx as int).push(green@[idx as int]));
            assert(blue@.take(idx + 1) == blue@.take(idx as int).push(blue@[idx as int]));
            idx = idx + 1;
        }
        assert(red@.take(size as int) == red@);
        assert(green@.take(size as int) == green@);
        assert(blue@.take(size as int) == blue@);
        GammaRamp { size, red: r, green: g, blue: b }
    }

    /// Returns the size of the arrays stored in this ramp.
    pub fn size(&self) -> (r: u32)
        ensures
            r == self@.red.len(),
            r == self@.green.len(),
            r == self@.blue.len(),
    {
        proof { use_type_invariant(self); }
        self.size
    }

    /// Returns the value in the red array at index `idx`.
    pub fn red(&self, idx: usize) -> (r: u16)
        requires
            idx < self@.red.len(),
        ensures
            r == self@.red[idx as int],
    {
        proof { use_type_invariant(self); }
        self.red[idx]
    }

    /// Returns the value in the green array at index `idx`.
    pub fn green(&self, idx: usize) -> (r: u16)
        requires
            idx < self@.green.len(),
        ensures
            r == self@.green[idx as int],
    {
        proof { use_type_invariant(self); }
        self.green[idx]
    }

    /// Returns the value in the blue array at index `idx`.
    pub fn blue(&self, idx: usize) -> (r: u16)
        requires
            idx < self@.blue.len(),
        ensures
            r == self@.blue[idx as int],
    {
        proof { use_type_invariant(self); }
        self.blue[idx]
    }

    /// Sets the value in the red array at index `idx`.
    pub fn set_red(&mut self, idx: usize, val: u16)
        requires
            idx < old(self)@.red.len(),
        ensures
            final(self)@.red == old(self)@.red.update(idx as int, val),
            final(self)@.green == old(self)@.green,
            final(self)@.blue == old(self)@.blue,
    {
        proof { use_type_invariant(&*self); }
        let mut taken = GammaRamp::default();
        std::mem::swap(self, &mut taken);
        let GammaRamp { size, mut red, mut green, mut blue } = taken;
        red.set(idx, val);
        *self = GammaRamp { size, red, green, blue };
    }

    /// Sets the value in the green array at index `idx`.
    pub fn set_green(&mut self, idx: usize, val: u16)
        requires
            idx < old(self)@.green.len(),
        ensures
            final(self)@.green == old(self)@.green.update(idx as int, val),
            final(self)@.red == old(self)@.red,
            final(self)@.blue == old(self)@.blue,
    {
        proof { use_type_invariant(&*self); }
        let mut taken = GammaRamp::default();
        std::mem::swap(self, &mut taken);
        let GammaRamp { size, mut red, mut green, mut blue } = taken;
        green.set(idx, val);
        *self = GammaRamp { size, red, green, blue };
    }

    /// Sets the value in the blue array at index `idx`.
    pub fn set_blue(&mut self, idx: usize, val: u16)
        requires
            idx < old(self)@.blue.len(),
        ensures
            final(self)@.blue == old(self)@.blue.update(idx as int, val),
            final(self)@.red == old(self)@.red,
            final(self)@.green == old(self)@.green,
    {
        proof { use_type_invariant(&*self); }
        let mut taken = GammaRamp::default();
        std::mem::swap(self, &mut taken);
        let GammaRamp { size, mut red, mut green, mut blue } = taken;
        blue.set(idx, val);
        *self = GammaRamp { size, red, green, blue };
    }
}

impl GammaRamp {
    /// Runs `f` on the parts of GLFW's gamma ramp record built from this
    /// ramp: its size and its red, green and blue arrays.
    pub fn with_glfw<R, F: FnOnce(u32, &[u16], &[u16], &[u16]) -> R>(&mut self, f: F) -> (r: R)
        requires
            forall|red: &[u16], green: &[u16], blue: &[u16]| #[trigger] call_requires(f, (old(self)@.red.len() as u32, red, green, blue)),
        ensures
            exists|red: &[u16], green: &[u16], blue: &[u16]|
                #[trigger] call_ensures(f, (old(self)@.red.len() as u32, red, green, blue), r)
                && red@ == old(self)@.red && green@ == old(self)@.green && blue@ == old(self)@.blue,
            final(self)@ == old(self)@,
    {
        proof { use_type_invariant(&*self); }
        let size = self.size;
        let red = self.red.as_slice();
        let green = self.green.as_slice();
        let blue = self.blue.as_slice();
        assert(size == self@.red.len() as u32);
        assert(call_requires(f, (size, red, green, blue)));
        let r = f(size, red, green, blue);
        assert(call_ensures(f, (size, red, green, blue), r));
        r
    }
}

impl Clone for GammaRamp {
    /// Copies the three channels.
    fn clone(&self) -> (r: Self)
        ensures
            r@ == self@,
    {
        proof { use_type_invariant(self); }
        let red = self.red.clone();
        let green = self.green.clone();
        let blue = self.blue.clone();
        assert(red@ == self.red@);
        assert(green@ == self.green@);
        assert(blue@ == self.blue@);
        GammaRamp { size: self.size, red, green, blue }
    }
}

impl Default for GammaRamp {
    /// Constructs and returns a new [GammaRamp], with no values in each
    /// channel.
    fn default() -> (r: Self)
        ensures
            r@.red.len() == 0,
            r@.green.len() == 0,
            r@.blue.len() == 0,
    {
        GammaRamp { size: 0, red: Vec::new(), green: Vec::new(), blue: Vec::new() }
    }
}

/// A monitor connected to the system, held by the handle of its GLFW
/// object.
#[derive(Debug, PartialEq, Eq)]
pub struct Monitor {
    handle: usize,
}

impl View for Monitor {
    type V = usize;

    closed spec fn view(&self) -> usize {
        self.handle
    }
}

/// Whether `r` is the list of monitors with the handles of `reply`, in
/// order, or the same error.
pub open spec fn monitors_reply(r: Result<Vec<Monitor>, XErr>, reply: Result<Vec<usize>, XErr>) -> bool {
    match (r, reply) {
        (Ok(ms), Ok(hs)) => ms@.len() == hs@.len() && forall|i: int| 0 <= i < hs@.len() ==> #[trigger] ms@[i]@ == hs@[i],
        (Err(a), Err(b)) => a == b,
        _ => false,
    }
}

/// Whether `r` is the monitor with the handle of `reply`, or the same error.
pub open spec fn monitor_reply(r: Result<Monitor, XErr>, reply: Result<usize, XErr>) -> bool {
    match (r, reply) {
        (Ok(m), Ok(h)) => m@ == h,
        (Err(a), Err(b)) => a == b,
        _ => false,
    }
}

impl Monitor {
    /// Construct a [Monitor] from the handle of a GLFW monitor.
    pub fn from_glfw(handle: usize) -> (r: Self)
        ensures
            r@ == handle,
    {
        Monitor { handle }
    }

    /// Returns the handle of the GLFW monitor.
    pub fn as_glfw(&self) -> (r: usize)
        ensures
            r == self@,
    {
        self.handle
    }

    /// Returns all currently connected monitors. The primary monitor is
    /// always first in the returned list.
    ///
    /// # Errors
    /// Possible errors include [XErr::NotInitialized].
    pub fn all<F: FnOnce(XWinMessage) -> Result<Vec<usize>, XErr>>(exec: F) -> (r: Result<Vec<Monitor>, XErr>)
        requires
            call_requires(exec, (XWinMessage::GetMonitors,)),
        ensures
            exists|reply| #[trigger] call_ensures(exec, (XWinMessage::GetMonitors,), reply) && monitors_reply(r, reply),
    {
        let reply = exec(XWinMessage::GetMonitors);
        match reply {
            Ok(hs) => {
                let mut ms: Vec<Monitor> = Vec::new();
                let mut idx: usize = 0;
                while idx < hs.len()
                    invariant
                        idx <= hs@.len(),
                        ms@.len() == idx,
                        forall|i: int| 0 <= i < idx ==> #[trigger] ms@[i]@ == hs@[i],
                    decreases hs.len() - idx,
                {
                    ms.push(Monitor::from_glfw(hs[idx]));
                    idx = idx + 1;
                }
                Ok(ms)
            },
            Err(e) => Err(e),
        }
    }

    /// Returns the primary monitor. This is usually the monitor where
    /// elements like the task bar or global menu bar are located.
    ///
    /// # Errors
    /// Returns [XErr::NoError] if no monitors were found. Other possible
    /// errors include [XErr::NotInitialized].
    pub fn primary<F: FnOnce(XWinMessage) -> Result<usize, XErr>>(exec: F) -> (r: Result<Monitor, XErr>)
        requires
            call_requires(exec, (XWinMessage::GetPrimaryMonitor,)),
        ensures
            exists|reply| #[trigger] call_ensures(exec, (XWinMessage::GetPrimaryMonitor,), reply) && monitor_reply(r, reply),
    {
        let reply = exec(XWinMessage::GetPrimaryMonitor);
        match reply {
            Ok(h) => Ok(Monitor::from_glfw(h)),
            Err(e) => Err(e),
        }
    }

    /// Returns the position, in screen coordinates, of the upper-left corner
    /// of this monitor.
    ///
    /// # Errors
    /// Possible errors include [XErr::NotInitialized] and
    /// [XErr::PlatformError].
    pub fn position<F: FnOnce(XWinMessage) -> Result<ScreenCoordinates, XErr>>(&self, exec: F) -> (r: Result<ScreenCoordinates, XErr>)
        requires
            call_requires(exec, (XWinMessage::GetMonitorPos(self@),)),
        ensures
            call_ensures(exec, (XWinMessage::GetMonitorPos(self@),), r),
    {
        exec(XWinMessage::GetMonitorPos(self.handle))
    }

    /// Returns the work area of this monitor: the position of its upper-left
    /// corner and its size, in screen coordinates, of the area not occluded
    /// by the window system task bar.
    ///
    /// # Errors
    /// Possible errors include [XErr::NotInitialized] and
    /// [XErr::PlatformError].
    pub fn work_area<F: FnOnce(XWinMessage) -> Result<WorkArea, XErr>>(&self, exec: F) -> (r: Result<WorkArea, XErr>)
        requires
            call_requires(exec, (XWinMessage::GetMonitorWorkArea(self@),)),
        ensures
            call_ensures(exec, (XWinMessage::GetMonitorWorkArea(self@),), r),
    {
        exec(XWinMessage::GetMonitorWorkArea(self.handle))
    }

    /// Returns the size `(width, height)`, in millimetres, of the display
    /// area of this monitor.
    ///
    /// # Errors
    /// Possible errors include [XErr::NotInitialized].
    pub fn physical_size<F: FnOnce(XWinMessage) -> Result<(i32, i32), XErr>>(&self, exec: F) -> (r: Result<(i32, i32), XErr>)
        requires
            call_requires(exec, (XWinMessage::GetMonitorPhysicalSize(self@),)),
        ensures
            call_ensures(exec, (XWinMessage::GetMonitorPhysicalSize(self@),), r),
    {
        exec(XWinMessage::GetMonitorPhysicalSize(self.handle))
    }

    /// Returns a human-readable name, encoded as UTF-8, of this monitor.
    ///
    /// # Errors
    /// Possible errors include [XErr::NotInitialized].
    pub fn name<F: FnOnce(XWinMessage) -> Result<String, XErr>>(&self, exec: F) -> (r: Result<String, XErr>)
        requires
            call_requires(exec, (XWinMessage::GetMonitorName(self@),)),
        ensures
            call_ensures(exec, (XWinMessage::GetMonitorName(self@),), r),
    {
        exec(XWinMessage::GetMonitorName(self.handle))
    }

    /// Sets the user-defined value of this monitor. The initial value is `0`.
    ///
    /// # Errors
    /// Possible errors include [XErr::NotInitialized].
    pub fn set_userdata<F: FnOnce(XWinMessage) -> Result<(), XErr>>(&self, userdata: usize, exec: F) -> (r: Result<(), XErr>)
        requires
            call_requires(exec, (XWinMessage::SetMonitorUserdata(self@, userdata),)),
        ensures
            call_ensures(exec, (XWinMessage::SetMonitorUserdata(self@, userdata),), r),
    {
        exec(XWinMessage::SetMonitorUserdata(self.handle, userdata))
    }

    /// Returns the current user-defined value of this monitor.
    ///
    /// # Errors
    /// Possible errors include [XErr::NotInitialized].
    pub fn userdata<F: FnOnce(XWinMessage) -> Result<usize, XErr>>(&self, exec: F) -> (r: Result<usize, XErr>)
        requires
            call_requires(exec, (XWinMessage::GetMonitorUserdata(self@),)),
        ensures
            call_ensures(exec, (XWinMessage::GetMonitorUserdata(self@),), r),
    {
        exec(XWinMessage::GetMonitorUserdata(self.handle))
    }

    /// Sets the monitor configuration callback, replacing the one set
    /// before; it is called when a monitor is connected to or disconnected
    /// from the system. `slot` is where XWin keeps the callback, `None` when
    /// XWin is not initialized.
    ///
    /// # Errors
    /// [XErr::NotInitialized] if XWin has not been initialized.
    pub fn set_callback<F>(&self, slot: Option<&mut Option<F>>, callback: F) -> (r: Result<(), XErr>)
        ensures
            match slot {
                Some(s) => r is Ok && *final(s) == Some(callback),
                None => r matches Err(e) && is_not_initialized_error(e),
            },
    {
        match slot {
            Some(s) => {
                *s = Some(callback);
                Ok(())
            },
            None => Err(not_initialized()),
        }
    }

    /// Returns all video modes supported by this monitor, sorted in
    /// ascending order by color bit depth, then resolution area, then width
    /// and finally refresh rate.
    ///
    /// # Errors
    /// Possible errors include [XErr::NotInitialized] and
    /// [XErr::PlatformError].
    pub fn video_modes<F: FnOnce(XWinMessage) -> Result<Vec<VideoMode>, XErr>>(&self, exec: F) -> (r: Result<Vec<VideoMode>, XErr>)
        requires
            call_requires(exec, (XWinMessage::GetMonitorVideoModes(self@),)),
        ensures
            call_ensures(exec, (XWinMessage::GetMonitorVideoModes(self@),), r),
    {
        exec(XWinMessage::GetMonitorVideoModes(self.handle))
    }

    /// Returns the current video mode of this monitor.
    ///
    /// # Errors
    /// Possible errors include [XErr::NotInitialized] and
    /// [XErr::PlatformError].
    pub fn video_mode<F: FnOnce(XWinMessage) -> Result<VideoMode, XErr>>(&self, exec: F) -> (r: Result<VideoMode, XErr>)
        requires
            call_requires(exec, (XWinMessage::GetMonitorVideoMode(self@),)),
        ensures
            call_ensures(exec, (XWinMessage::GetMonitorVideoMode(self@),), r),
    {
        exec(XWinMessage::GetMonitorVideoMode(self.handle))
    }

    /// Returns the current gamma ramp of this monitor.
    ///
    /// # Errors
    /// Possible errors include [XErr::NotInitialized],
    /// [XErr::PlatformError] and [XErr::FeatureUnavailable].
    pub fn get_gamma_ramp<F: FnOnce(XWinMessage) -> Result<GammaRamp, XErr>>(&self, exec: F) -> (r: Result<GammaRamp, XErr>)
        requires
            call_requires(exec, (XWinMessage::GammaRamp(self@),)),
        ensures
            call_ensures(exec, (XWinMessage::GammaRamp(self@),), r),
    {
        exec(XWinMessage::GammaRamp(self.handle))
    }

    /// Sets the current gamma ramp of this monitor. The size of the ramp
    /// should match the size of the monitor's current ramp.
    ///
    /// # Errors
    /// Possible errors include [XErr::NotInitialized],
    /// [XErr::PlatformError] and [XErr::FeatureUnavailable].
    pub fn set_gamma_ramp<F: FnOnce(XWinMessage) -> Result<(), XErr>>(&self, ramp: GammaRamp, exec: F) -> (r: Result<(), XErr>)
        requires
            call_requires(exec, (XWinMessage::SetGammaRamp(self@, ramp),)),
        ensures
            call_ensures(exec, (XWinMessage::SetGammaRamp(self@, ramp),), r),
    {
        exec(XWinMessage::SetGammaRamp(self.handle, ramp))
    }
}

} // verus!
