//! Joystick configuration events.
use vstd::prelude::*;

use crate::glfw::{GLFW_CONNECTED, GLFW_DISCONNECTED, GLFW_JOYSTICK_LAST};
use crate::input::gamepad::{Joystick, joystick_code, joystick_from_code};
use crate::system::channels::EventChannels;

verus! {

/// Describes a change to a joystick's configuration.
#[derive(Debug, Clone, Copy, PartialEq, Eq)]
pub enum JoystickConfigEvent {
    Connected(Joystick),
    Disconnected(Joystick),
}

/// The event that GLFW's joystick callback reports for joystick `jid` and
/// event code `evt`: any code other than [GLFW_CONNECTED] is a disconnection.
pub open spec fn joystick_event_from_glfw(jid: u32, evt: u32) -> Option<JoystickConfigEvent> {
    match joystick_from_code(jid) {
        Some(j) => Some(
            if evt == GLFW_CONNECTED {
                JoystickConfigEvent::Connected(j)
            } else {
                JoystickConfigEvent::Disconnected(j)
            },
        ),
        None => None,
    }
}

/// The GLFW event code of a joystick configuration event.
pub open spec fn joystick_event_code(e: JoystickConfigEvent) -> u32 {
    match e {
        JoystickConfigEvent::Connected(_) => GLFW_CONNECTED,
        JoystickConfigEvent::Disconnected(_) => GLFW_DISCONNECTED,
    }
}

/// The joystick that an event is about.
pub open spec fn joystick_event_joystick(e: JoystickConfigEvent) -> Joystick {
    match e {
        JoystickConfigEvent::Connected(j) => j,
        JoystickConfigEvent::Disconnected(j) => j,
    }
}

impl JoystickConfigEvent {
    /// Builds the event that GLFW's joystick callback reports for joystick
    /// `jid` and event code `evt`, or `None` when `jid` is no joystick.
    pub fn from_glfw(jid: u32, evt: u32) -> (r: Option<Self>)
        ensures
            r == joystick_event_from_glfw(jid, evt),
    {
        match Joystick::from_glfw(jid) {
            Some(j) => Some(
                if evt == GLFW_CONNECTED {
                    JoystickConfigEvent::Connected(j)
                } else {
                    JoystickConfigEvent::Disconnected(j)
                },
            ),
            None => None,
        }
    }

    /// Returns the GLFW event code of this event.
    pub fn as_glfw(&self) -> (r: u32)
        ensures
            r == joystick_event_code(*self),
    {
        match self {
            JoystickConfigEvent::Connected(_) => GLFW_CONNECTED,
            JoystickConfigEvent::Disconnected(_) => GLFW_DISCONNECTED,
        }
    }
}

/// An event is recognised again from its joystick's code and its own event
/// code.
pub proof fn lemma_joystick_event_round_trip(e: JoystickConfigEvent)
    ensures
        joystick_event_from_glfw(joystick_code(joystick_event_joystick(e)), joystick_event_code(e)) == Some(e),
{
    crate::input::gamepad::lemma_joystick_code_round_trip(joystick_event_joystick(e), 0);
}

/// Passes the joystick configuration event that GLFW reports for joystick
/// `jid` and event code `evt` to the registered joystick channel through
/// `send`, which reports whether it was delivered. Nothing is sent when XWin
/// is not initialized, no joystick channel is registered, or `jid` is no
/// joystick.
pub fn joystick_handler<J, M, S: FnOnce(&J, JoystickConfigEvent) -> bool>(
    xwin: &Option<EventChannels<J, M>>,
    jid: u32,
    evt: u32,
    send: S,
) -> (sent: bool)
    requires
        forall|tx: &J, e: JoystickConfigEvent| call_requires(send, (tx, e)),
    ensures
        match (*xwin, joystick_event_from_glfw(jid, evt)) {
            (Some(c), Some(e)) => match c@.joystick {
                Some(tx) => call_ensures(send, (&tx, e), sent),
                None => !sent,
            },
            _ => !sent,
        },
{
    match xwin {
        Some(c) => match (c.joystick(), JoystickConfigEvent::from_glfw(jid, evt)) {
            (Some(tx), Some(e)) => send(tx, e),
            _ => false,
        },
        None => false,
    }
}

/// GLFW's joystick callback reports joystick `j` by its code: [GLFW_CONNECTED]
/// is its connection and [GLFW_DISCONNECTED] its disconnection, each event
/// carrying its GLFW code back; a code past [GLFW_JOYSTICK_LAST] is no
/// joystick.
pub proof fn lemma_joystick_event_glfw_names(j: Joystick, jid: u32, evt: u32)
    ensures
        joystick_event_from_glfw(joystick_code(j), GLFW_CONNECTED) == Some(JoystickConfigEvent::Connected(j)),
        joystick_event_from_glfw(joystick_code(j), GLFW_DISCONNECTED) == Some(JoystickConfigEvent::Disconnected(j)),
        joystick_event_code(JoystickConfigEvent::Connected(j)) == GLFW_CONNECTED,
        joystick_event_code(JoystickConfigEvent::Disconnected(j)) == GLFW_DISCONNECTED,
        jid > GLFW_JOYSTICK_LAST ==> joystick_event_from_glfw(jid, evt) is None,
{
    crate::input::gamepad::lemma_joystick_code_round_trip(j, jid);
}

} // verus!
