//! The event channels registered with XWin: at most one receiver of joystick
//! configuration events and one of monitor configuration events.
//!
//! XWin's global state is an `Option<EventChannels<J, M>>`, `None` until XWin
//! is initialized. Registering or clearing a channel before that fails with
//! [XErr::NotInitialized].
use vstd::prelude::*;
use vstd::string::StringExecFns;

use crate::err::XErr;

verus! {

/// The registered event channels.
pub struct EventChannels<J, M> {
    joystick: Option<J>,
    monitor: Option<M>,
}

/// The registered channels: the joystick one and the monitor one.
pub struct EventChannelsView<J, M> {
    pub joystick: Option<J>,
    pub monitor: Option<M>,
}

impl<J, M> View for EventChannels<J, M> {
    type V = EventChannelsView<J, M>;

    closed spec fn view(&self) -> EventChannelsView<J, M> {
        EventChannelsView { joystick: self.joystick, monitor: self.monitor }
    }
}

/// The error of an operation that needs XWin to be initialized.
pub open spec fn is_not_initialized_error(e: XErr) -> bool {
    e matches XErr::NotInitialized(m) && m@ == "XWin has not been initialized"@
}

/// The error returned when XWin has not been initialized.
pub fn not_initialized() -> (e: XErr)
    ensures
        is_not_initialized_error(e),
{
    XErr::NotInitialized(String::from_str("XWin has not been initialized"))
}

impl<J, M> EventChannels<J, M> {
    /// No channel registered.
    pub fn new() -> (r: Self)
        ensures
            r@.joystick is None,
            r@.monitor is None,
    {
        EventChannels { joystick: None, monitor: None }
    }

    /// The joystick channel, if one is registered.
    pub fn joystick(&self) -> (r: Option<&J>)
        ensures
            match (r, self@.joystick) {
                (Some(a), Some(b)) => *a == b,
                (None, None) => true,
                _ => false,
            },
    {
        match &self.joystick {
            Some(j) => Some(j),
            None => None,
        }
    }

    /// The monitor channel, if one is registered.
    pub fn monitor(&self) -> (r: Option<&M>)
        ensures
            match (r, self@.monitor) {
                (Some(a), Some(b)) => *a == b,
                (None, None) => true,
                _ => false,
            },
    {
        match &self.monitor {
            Some(m) => Some(m),
            None => None,
        }
    }

    /// Registers `tx` as the joystick channel, replacing any other.
    pub fn set_joystick(&mut self, tx: J)
        ensures
            final(self)@.joystick == Some(tx),
            final(self)@.monitor == old(self)@.monitor,
    {
        self.joystick = Some(tx);
    }

    /// Removes the joystick channel, if there is one.
    pub fn remove_joystick(&mut self)
        ensures
            final(self)@.joystick is None,
            final(self)@.monitor == old(self)@.monitor,
    {
        self.joystick = None;
    }

    /// Registers `tx` as the monitor channel, replacing any other.
    pub fn set_monitor(&mut self, tx: M)
        ensures
            final(self)@.monitor == Some(tx),
            final(self)@.joystick == old(self)@.joystick,
    {
        self.monitor = Some(tx);
    }

    /// Removes the monitor channel, if there is one.
    pub fn remove_monitor(&mut self)
        ensures
            final(self)@.monitor is None,
            final(self)@.joystick == old(self)@.joystick,
    {
        self.monitor = None;
    }
}

/// The state after an operation that needs XWin to be initialized: `r` is
/// [XErr::NotInitialized] and nothing changed when XWin was not initialized;
/// otherwise `r` is `Ok` and the channels became `after`.
pub open spec fn channel_update<J, M>(
    before: Option<EventChannels<J, M>>,
    after: Option<EventChannels<J, M>>,
    r: Result<(), XErr>,
    updated: EventChannelsView<J, M>,
) -> bool {
    match before {
        None => after is None && (r matches Err(e) && is_not_initialized_error(e)),
        Some(_) => r is Ok && (after matches Some(c) && c@ == updated),
    }
}

/// The channels of `c` with the joystick channel replaced by `tx`.
pub open spec fn with_joystick<J, M>(c: Option<EventChannels<J, M>>, tx: Option<J>) -> EventChannelsView<J, M> {
    EventChannelsView { joystick: tx, monitor: c.unwrap()@.monitor }
}

/// The channels of `c` with the monitor channel replaced by `tx`.
pub open spec fn with_monitor<J, M>(c: Option<EventChannels<J, M>>, tx: Option<M>) -> EventChannelsView<J, M> {
    EventChannelsView { joystick: c.unwrap()@.joystick, monitor: tx }
}

/// Registers `tx` to receive joystick configuration events, replacing any
/// channel registered before.
///
/// # Errors
/// [XErr::NotInitialized] if XWin has not been initialized.
pub fn set_joystick_channel<J, M>(xwin: &mut Option<EventChannels<J, M>>, tx: J) -> (r: Result<(), XErr>)
    ensures
        channel_update(*old(xwin), *final(xwin), r, with_joystick(*old(xwin), Some(tx))),
{
    match xwin {
        Some(c) => {
            c.set_joystick(tx);
            Ok(())
        },
        None => Err(not_initialized()),
    }
}

/// Removes the joystick event channel, if there is one.
///
/// # Errors
/// [XErr::NotInitialized] if XWin has not been initialized.
pub fn clear_joystick_channel<J, M>(xwin: &mut Option<EventChannels<J, M>>) -> (r: Result<(), XErr>)
    ensures
        channel_update(*old(xwin), *final(xwin), r, with_joystick(*old(xwin), None)),
{
    match xwin {
        Some(c) => {
            c.remove_joystick();
            Ok(())
        },
        None => Err(not_initialized()),
    }
}

/// Registers `tx` to receive monitor configuration events, replacing any
/// channel registered before.
///
/// # Errors
/// [XErr::NotInitialized] if XWin has not been initialized.
pub fn set_monitor_channel<J, M>(xwin: &mut Option<EventChannels<J, M>>, tx: M) -> (r: Result<(), XErr>)
    ensures
        channel_update(*old(xwin), *final(xwin), r, with_monitor(*old(xwin), Some(tx))),
{
    match xwin {
        Some(c) => {
            c.set_monitor(tx);
            Ok(())
        },
        None => Err(not_initialized()),
    }
}

/// Removes the monitor event channel, if there is one.
///
/// # Errors
/// [XErr::NotInitialized] if XWin has not been initialized.
pub fn clear_monitor_channel<J, M>(xwin: &mut Option<EventChannels<J, M>>) -> (r: Result<(), XErr>)
    ensures
        channel_update(*old(xwin), *final(xwin), r, with_monitor(*old(xwin), None)),
{
    match xwin {
        Some(c) => {
            c.remove_monitor();
            Ok(())
        },
        None => Err(not_initialized()),
    }
}

} // verus!
