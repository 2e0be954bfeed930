//! Monitor configuration events passed to a subscribed channel.
use vstd::prelude::*;

use crate::err::XErr;
use crate::glfw::{GLFW_CONNECTED, GLFW_DISCONNECTED};
use crate::monitor::Monitor;
use crate::system::channels::{
    EventChannels, channel_update, clear_monitor_channel, set_monitor_channel, with_monitor,
};

verus! {

/// Describes a change to a monitor's configuration: the monitor that was
/// connected, or the name of the one that was disconnected.
#[derive(Debug, PartialEq, Eq)]
pub enum MonitorEvent {
    Connected(Monitor),
    Disconnected(String),
}

impl Clone for MonitorEvent {
    /// Copies the event: the same monitor, or the same name.
    fn clone(&self) -> (r: Self)
        ensures
            r == *self,
    {
        match self {
            MonitorEvent::Connected(m) => MonitorEvent::Connected(Monitor::from_glfw(m.as_glfw())),
            MonitorEvent::Disconnected(name) => MonitorEvent::Disconnected(name.clone()),
        }
    }
}

/// Whether `e` is the event that GLFW's monitor callback reports for the
/// monitor `handle` with event code `code`: [GLFW_CONNECTED] is a
/// connection, [GLFW_DISCONNECTED] a disconnection, the name of a
/// disconnected monitor being one that `name` gives for it. No other code
/// describes an event.
pub open spec fn is_monitor_event<N: FnOnce(usize) -> String>(e: MonitorEvent, handle: usize, code: u32, name: N) -> bool {
    if code == GLFW_CONNECTED {
        e matches MonitorEvent::Connected(m) && m@ == handle
    } else if code == GLFW_DISCONNECTED {
        e matches MonitorEvent::Disconnected(s) && call_ensures(name, (handle,), s)
    } else {
        false
    }
}

/// Whether GLFW's monitor callback describes an event by `code`.
pub open spec fn is_monitor_event_code(code: u32) -> bool {
    code == GLFW_CONNECTED || code == GLFW_DISCONNECTED
}

/// Builds the event that GLFW's monitor callback reports for the monitor
/// `handle` with event code `code`: [GLFW_CONNECTED] is a connection,
/// [GLFW_DISCONNECTED] a disconnection, and any other code is no event
/// (`None`). A disconnected monitor is named by `name`, which is called
/// only then.
pub fn monitor_event<N: FnOnce(usize) -> String>(handle: usize, code: u32, name: N) -> (r: Option<MonitorEvent>)
    requires
        code == GLFW_DISCONNECTED ==> call_requires(name, (handle,)),
    ensures
        r is Some <==> is_monitor_event_code(code),
        r matches Some(e) ==> is_monitor_event(e, handle, code, name),
{
    if code == GLFW_CONNECTED {
        Some(MonitorEvent::Connected(Monitor::from_glfw(handle)))
    } else if code == GLFW_DISCONNECTED {
        Some(MonitorEvent::Disconnected(name(handle)))
    } else {
        None
    }
}

/// Handles a monitor configuration event from GLFW: builds the event (see
/// [monitor_event]) and passes it to the registered monitor channel through
/// `send`, which reports whether it was delivered. A channel that can no
/// longer deliver is removed. Nothing is sent, and nothing changes, for a
/// code that is no event, when XWin is not initialized or when no monitor
/// channel is registered.
pub fn monitor_handler<J, M, N: FnOnce(usize) -> String, S: FnOnce(&M, MonitorEvent) -> bool>(
    xwin: &mut Option<EventChannels<J, M>>,
    handle: usize,
    code: u32,
    name: N,
    send: S,
) -> (delivered: bool)
    requires
        code == GLFW_DISCONNECTED ==> call_requires(name, (handle,)),
        forall|tx: &M, e: MonitorEvent| call_requires(send, (tx, e)),
    ensures
        !is_monitor_event_code(code) ==> !delivered && *final(xwin) == *old(xwin),
        is_monitor_event_code(code) ==> match *old(xwin) {
            Some(c) => match c@.monitor {
                Some(tx) => exists|e: MonitorEvent|
                    #[trigger] call_ensures(send, (&tx, e), delivered) && is_monitor_event(e, handle, code, name)
                    && if delivered {
                        *final(xwin) == *old(xwin)
                    } else {
                        *final(xwin) matches Some(d) && d@ == with_monitor(*old(xwin), None)
                    },
                None => !delivered && *final(xwin) == *old(xwin),
            },
            None => !delivered && *final(xwin) == *old(xwin),
        },
{
    let e = match monitor_event(handle, code, name) {
        Some(e) => e,
        None => {
            return false;
        },
    };
    let ghost sent = e;
    let delivered = match xwin {
        Some(c) => match c.monitor() {
            Some(tx) => send(tx, e),
            None => {
                return false;
            },
        },
        None => {
            return false;
        },
    };
    if !delivered {
        match xwin {
            Some(c) => c.remove_monitor(),
            None => {},
        }
    }
    assert(is_monitor_event(sent, handle, code, name));
    delivered
}

/// Registers `tx` to receive monitor configuration events, replacing any
/// channel registered before.
///
/// # Errors
/// [XErr::NotInitialized] if XWin has not been initialized.
pub fn subscribe_monitors<J, M>(xwin: &mut Option<EventChannels<J, M>>, tx: M) -> (r: Result<(), XErr>)
    ensures
        channel_update(*old(xwin), *final(xwin), r, with_monitor(*old(xwin), Some(tx))),
{
    set_monitor_channel(xwin, tx)
}

/// Closes the monitor event channel, if there is one.
///
/// # Errors
/// [XErr::NotInitialized] if XWin has not been initialized.
pub fn unsubscribe_monitors<J, M>(xwin: &mut Option<EventChannels<J, M>>) -> (r: Result<(), XErr>)
    ensures
        channel_update(*old(xwin), *final(xwin), r, with_monitor(*old(xwin), None)),
{
    clear_monitor_channel(xwin)
}

} // verus!
