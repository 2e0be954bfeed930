//! Monitor configuration events and the callbacks that receive them.
use vstd::prelude::*;

use crate::glfw::{GLFW_CONNECTED, GLFW_DISCONNECTED};
use crate::monitor::Monitor;

verus! {

/// Describes a change to a monitor's configuration.
///
/// If a monitor is disconnected, all windows that are full screen on it are
/// switched to windowed mode before the callbacks are called.
#[derive(Copy, Clone, Debug, PartialEq, Eq)]
pub enum MonitorEvent {
    Connected,
    Disconnected,
}

/// The event that GLFW's monitor callback reports with event code `code`;
/// codes of no event are ignored.
pub open spec fn monitor_event_from_code(code: u32) -> Option<MonitorEvent> {
    if code == GLFW_CONNECTED {
        Some(MonitorEvent::Connected)
    } else if code == GLFW_DISCONNECTED {
        Some(MonitorEvent::Disconnected)
    } else {
        None
    }
}

/// The GLFW event code of a monitor event.
pub open spec fn monitor_event_code(e: MonitorEvent) -> u32 {
    match e {
        MonitorEvent::Connected => GLFW_CONNECTED,
        MonitorEvent::Disconnected => GLFW_DISCONNECTED,
    }
}

impl MonitorEvent {
    /// Returns the event for GLFW's event code `code`, or `None` for a code
    /// that stands for no event (such an event is not passed on).
    pub fn from_glfw(code: u32) -> (r: Option<Self>)
        ensures
            r == monitor_event_from_code(code),
    {
        if code == GLFW_CONNECTED {
            Some(MonitorEvent::Connected)
        } else if code == GLFW_DISCONNECTED {
            Some(MonitorEvent::Disconnected)
        } else {
            None
        }
    }

    /// Returns the GLFW event code of this event.
    pub fn as_glfw(&self) -> (r: u32)
        ensures
            r == monitor_event_code(*self),
    {
        match self {
            MonitorEvent::Connected => GLFW_CONNECTED,
            MonitorEvent::Disconnected => GLFW_DISCONNECTED,
        }
    }
}

/// Every monitor event is recognised again from its code.
pub proof fn lemma_monitor_event_round_trip(e: MonitorEvent)
    ensures
        monitor_event_from_code(monitor_event_code(e)) == Some(e),
{
}

/// The registered monitor callbacks, each under the identifier it was given
/// when it was added. They are called in the order they were added.
pub struct MonitorCallbacks<F> {
    entries: Vec<(u64, F)>,
    next_id: u64,
}

impl<F> View for MonitorCallbacks<F> {
    type V = Seq<(u64, F)>;

    closed spec fn view(&self) -> Seq<(u64, F)> {
        self.entries@
    }
}

/// Whether the identifiers in `entries` strictly increase, and so are
/// distinct.
pub open spec fn ids_increasing<F>(entries: Seq<(u64, F)>) -> bool {
    forall|i: int, j: int| 0 <= i < j < entries.len() ==> entries[i].0 < entries[j].0
}

/// Whether some entry has the identifier `id`.
pub open spec fn has_id<F>(entries: Seq<(u64, F)>, id: u64) -> bool {
    exists|k: int| 0 <= k < entries.len() && entries[k].0 == id
}

impl<F> MonitorCallbacks<F> {
    /// Identifiers increase with each addition and every one in use is below
    /// the next to be given.
    #[verifier::type_invariant]
    spec fn wf(self) -> bool {
        &&& ids_increasing(self.entries@)
        &&& forall|i: int| 0 <= i < self.entries@.len() ==> self.entries@[i].0 < self.next_id
    }

    /// The identifier that the next added callback receives.
    pub closed spec fn next_id(self) -> u64 {
        self.next_id
    }

    /// No callbacks.
    pub fn new() -> (r: Self)
        ensures
            r@ == Seq::<(u64, F)>::empty(),
            r.next_id() == 0,
    {
        MonitorCallbacks { entries: Vec::new(), next_id: 0 }
    }

    /// Whether another callback can be added: identifiers are not yet used
    /// up.
    pub fn can_add(&self) -> (r: bool)
        ensures
            r == (self.next_id() < u64::MAX),
    {
        self.next_id < u64::MAX
    }

    /// The registered callbacks, in the order they were added.
    pub fn entries(&self) -> (r: &Vec<(u64, F)>)
        ensures
            r@ == self@,
    {
        &self.entries
    }
}

/// Adds a monitor configuration callback, called when a monitor is
/// connected to or disconnected from the system. Returns the identifier
/// under which it can later be removed with [remove_monitor_callback].
pub fn add_monitor_callback<F>(callbacks: &mut MonitorCallbacks<F>, f: F) -> (id: u64)
    requires
        old(callbacks).next_id() < u64::MAX,
    ensures
        id == old(callbacks).next_id(),
        final(callbacks).next_id() == id + 1,
        final(callbacks)@ == old(callbacks)@.push((id, f)),
        !has_id(old(callbacks)@, id),
        ids_increasing(final(callbacks)@),
{
    proof { use_type_invariant(&*callbacks); }
    let id = callbacks.next_id;
    let mut entries: Vec<(u64, F)> = Vec::new();
    std::mem::swap(&mut entries, &mut callbacks.entries);
    entries.push((id, f));
    *callbacks = MonitorCallbacks { entries, next_id: id + 1 };
    id
}

/// Removes a monitor configuration callback, so that it is no longer called
/// when a monitor is connected or disconnected. Removing an identifier that
/// is not registered changes nothing.
pub fn remove_monitor_callback<F>(callbacks: &mut MonitorCallbacks<F>, id: u64)
    ensures
        final(callbacks).next_id() == old(callbacks).next_id(),
        ids_increasing(final(callbacks)@),
        !has_id(final(callbacks)@, id),
        !has_id(old(callbacks)@, id) ==> final(callbacks)@ == old(callbacks)@,
        forall|k: int|
            0 <= k < old(callbacks)@.len() && old(callbacks)@[k].0 == id ==> final(callbacks)@ == old(callbacks)@.remove(k),
{
    proof { use_type_invariant(&*callbacks); }
    let next_id = callbacks.next_id;
    let mut entries: Vec<(u64, F)> = Vec::new();
    std::mem::swap(&mut entries, &mut callbacks.entries);
    let ghost old_entries = entries@;
    let mut idx: usize = 0;
    while idx < entries.len()
        invariant
            entries@ == old_entries,
            idx <= entries@.len(),
            forall|k: int| 0 <= k < idx ==> entries@[k].0 != id,
        ensures
            entries@ == old_entries,
            idx <= entries@.len(),
            forall|k: int| 0 <= k < idx ==> entries@[k].0 != id,
            idx < entries@.len() ==> entries@[idx as int].0 == id,
        decreases entries.len() - idx,
    {
        if entries[idx].0 == id {
            break;
        }
        idx = idx + 1;
    }
    if idx < entries.len() {
        let _removed = entries.remove(idx);
        assert forall|k: int| 0 <= k < old_entries.len() && old_entries[k].0 == id implies k == idx by {
            if k != idx {
                if k < idx {
                } else {
                    assert(old_entries[idx as int].0 < old_entries[k].0);
                }
            }
        }
        assert forall|i: int, j: int| 0 <= i < j < entries@.len() implies entries@[i].0 < entries@[j].0 by {
            if j < idx {
            } else if i < idx {
                assert(entries@[j] == old_entries[j + 1]);
            } else {
                assert(entries@[i] == old_entries[i + 1]);
                assert(entries@[j] == old_entries[j + 1]);
            }
        }
        assert forall|k: int| 0 <= k < entries@.len() implies entries@[k].0 != id by {
            if k >= idx {
                assert(entries@[k] == old_entries[k + 1]);
                assert(old_entries[idx as int].0 < old_entries[k + 1].0);
            }
        }
    }
    *callbacks = MonitorCallbacks { entries, next_id };
}

/// Adding a callback and then removing it by the identifier it received
/// leaves the registered callbacks as they were.
pub proof fn lemma_add_then_remove<F>(before: Seq<(u64, F)>, id: u64, f: F, after: Seq<(u64, F)>)
    requires
        !has_id(before, id),
        forall|k: int| 0 <= k < before.push((id, f)).len() && before.push((id, f))[k].0 == id ==> after == before.push((id, f)).remove(k),
    ensures
        after == before,
{
    let s = before.push((id, f));
    assert(s[before.len() as int].0 == id);
    assert(s.remove(before.len() as int) =~= before);
}

/// Whether `call` was made once for each of `entries`, in order, with that
/// entry's callback, the monitor `handle` and `event`, the token passed
/// from call to call: `start` goes into the first and `end` comes out of the
/// last.
pub open spec fn callbacks_called<F, T, C: Fn(T, &F, &Monitor, MonitorEvent) -> T>(
    call: C,
    start: T,
    entries: Seq<(u64, F)>,
    handle: usize,
    event: MonitorEvent,
    end: T,
) -> bool
    decreases entries.len(),
{
    if entries.len() == 0 {
        end == start
    } else {
        exists|mid: T, m: &Monitor|
            callbacks_called(call, start, entries.drop_last(), handle, event, mid) && m@ == handle
            && #[trigger] call_ensures(call, (mid, &entries.last().1, m, event), end)
    }
}

/// Handles a monitor configuration event from GLFW: hands every registered
/// callback, in the order they were added, to `call`, which calls it with
/// the monitor `handle` and the event that `code` stands for. `token` is
/// passed from each call to the next, and the last one is returned. A code
/// of no event calls none and gives `token` back.
pub fn run_monitor_callbacks<F, T, C: Fn(T, &F, &Monitor, MonitorEvent) -> T>(
    callbacks: &MonitorCallbacks<F>,
    handle: usize,
    code: u32,
    token: T,
    call: C,
) -> (end: T)
    requires
        forall|t: T, f: &F, m: &Monitor, e: MonitorEvent| call_requires(call, (t, f, m, e)),
    ensures
        monitor_event_from_code(code) is None ==> end == token,
        monitor_event_from_code(code) matches Some(event) ==> callbacks_called(call, token, callbacks@, handle, event, end),
{
    let event = match MonitorEvent::from_glfw(code) {
        Some(e) => e,
        None => {
            return token;
        },
    };
    let monitor = Monitor::from_glfw(handle);
    let entries = callbacks.entries();
    let ghost start = token;
    let mut t = token;
    let mut idx: usize = 0;
    assert(entries@.take(0).len() == 0);
    while idx < entries.len()
        invariant
            entries@ == callbacks@,
            idx <= entries@.len(),
            monitor@ == handle,
            start == token,
            monitor_event_from_code(code) == Some(event),
            callbacks_called(call, start, entries@.take(idx as int), handle, event, t),
            forall|t: T, f: &F, m: &Monitor, e: MonitorEvent| call_requires(call, (t, f, m, e)),
        decreases entries@.len() - idx,
    {
        let f = &entries[idx].1;
        let ghost mid = t;
        t = call(t, f, &monitor, event);
        proof {
            let done = entries@.take(idx + 1);
            assert(done.drop_last() =~= entries@.take(idx as int));
            assert(done.last() == entries@[idx as int]);
            assert(call_ensures(call, (mid, &done.last().1, &monitor, event), t));
            assert(callbacks_called(call, start, done, handle, event, t));
        }
        idx = idx + 1;
    }
    assert(entries@.take(entries@.len() as int) =~= entries@);
    t
}

/// A monitor connection is [GLFW_CONNECTED] and a disconnection
/// [GLFW_DISCONNECTED], both ways.
pub proof fn lemma_monitor_event_glfw_names()
    ensures
        monitor_event_code(MonitorEvent::Connected) == GLFW_CONNECTED,
        monitor_event_code(MonitorEvent::Disconnected) == GLFW_DISCONNECTED,
        monitor_event_from_code(GLFW_CONNECTED) == Some(MonitorEvent::Connected),
        monitor_event_from_code(GLFW_DISCONNECTED) == Some(MonitorEvent::Disconnected),
{
}

} // verus!
