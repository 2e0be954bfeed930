//! The per-window context that GLFW holds for each window: the channels
//! that receive the window's configuration, key, mouse, character and file
//! drop events.
use vstd::prelude::*;
use vstd::string::StringExecFns;

use crate::err::XErr;
use crate::window::Window;
use crate::window::input::WindowInput;

verus! {

/// The per-window state: the channel registered for each kind of event the
/// window reports, if any.
pub struct WindowContext<W, K, M, C, D> {
    ev_tx: Option<W>,
    key_tx: Option<K>,
    mouse_tx: Option<M>,
    char_tx: Option<C>,
    drop_tx: Option<D>,
}

/// The channels of a window context.
pub struct WindowContextView<W, K, M, C, D> {
    pub ev_tx: Option<W>,
    pub key_tx: Option<K>,
    pub mouse_tx: Option<M>,
    pub char_tx: Option<C>,
    pub drop_tx: Option<D>,
}

impl<W, K, M, C, D> View for WindowContext<W, K, M, C, D> {
    type V = WindowContextView<W, K, M, C, D>;

    closed spec fn view(&self) -> WindowContextView<W, K, M, C, D> {
        WindowContextView { ev_tx: self.ev_tx, key_tx: self.key_tx, mouse_tx: self.mouse_tx, char_tx: self.char_tx, drop_tx: self.drop_tx }
    }
}

/// Whether `after` is `before` once `event` has been offered through `send`
/// to the channel `before`: delivered, the channel stays; not delivered,
/// it is removed; with no channel, nothing is delivered.
pub open spec fn posted<T, E, S: FnOnce(&T, E) -> bool>(
    before: Option<T>,
    after: Option<T>,
    event: E,
    send: S,
    delivered: bool,
) -> bool {
    match before {
        Some(tx) => {
            &&& call_ensures(send, (&tx, event), delivered)
            &&& after == if delivered { Some(tx) } else { None::<T> }
        },
        None => !delivered && after is None,
    }
}

/// A channel that could not deliver stays closed: once a post fails, the
/// next post delivers nothing and leaves no channel.
pub proof fn lemma_failed_channel_stays_closed<T, E, S: FnOnce(&T, E) -> bool>(
    before: Option<T>,
    middle: Option<T>,
    after: Option<T>,
    first: E,
    second: E,
    send_first: S,
    send_second: S,
    delivered: bool,
)
    requires
        posted(before, middle, first, send_first, false),
        posted(middle, after, second, send_second, delivered),
    ensures
        !delivered,
        after is None,
{
}

/// Offers `event` to the channel in `slot` through `send`; a channel that
/// can no longer deliver is removed. Returns whether it was delivered.
fn post_to<T, E, S: FnOnce(&T, E) -> bool>(slot: &mut Option<T>, event: E, send: S) -> (delivered: bool)
    requires
        forall|tx: &T| call_requires(send, (tx, event)),
    ensures
        posted(*old(slot), *final(slot), event, send, delivered),
{
    let delivered = match slot {
        Some(tx) => send(tx, event),
        None => false,
    };
    if !delivered {
        *slot = None;
    }
    delivered
}

impl<W, K, M, C, D> WindowContext<W, K, M, C, D> {
    /// A context with no channels.
    pub fn new() -> (r: Self)
        ensures
            r@.ev_tx is None,
            r@.key_tx is None,
            r@.mouse_tx is None,
            r@.char_tx is None,
            r@.drop_tx is None,
    {
        WindowContext { ev_tx: None, key_tx: None, mouse_tx: None, char_tx: None, drop_tx: None }
    }

    /// Registers `tx` as the window's configuration event channel, replacing any other.
    pub fn set_ev_tx(&mut self, tx: W)
        ensures
            final(self)@.ev_tx == Some(tx),
            final(self)@.key_tx == old(self)@.key_tx,
            final(self)@.mouse_tx == old(self)@.mouse_tx,
            final(self)@.char_tx == old(self)@.char_tx,
            final(self)@.drop_tx == old(self)@.drop_tx,
    {
        self.ev_tx = Some(tx);
    }

    /// Removes the window's configuration event channel, if there is one.
    pub fn remove_ev_tx(&mut self)
        ensures
            final(self)@.ev_tx is None,
            final(self)@.key_tx == old(self)@.key_tx,
            final(self)@.mouse_tx == old(self)@.mouse_tx,
            final(self)@.char_tx == old(self)@.char_tx,
            final(self)@.drop_tx == old(self)@.drop_tx,
    {
        self.ev_tx = None;
    }

    /// Passes a configuration event to the registered channel through `send`, which
    /// reports whether it was delivered; a channel that can no longer
    /// deliver is removed. Returns whether the event was delivered.
    pub fn post<E, S: FnOnce(&W, E) -> bool>(&mut self, event: E, send: S) -> (delivered: bool)
        requires
            forall|tx: &W| call_requires(send, (tx, event)),
        ensures
            posted(old(self)@.ev_tx, final(self)@.ev_tx, event, send, delivered),
            final(self)@.key_tx == old(self)@.key_tx,
            final(self)@.mouse_tx == old(self)@.mouse_tx,
            final(self)@.char_tx == old(self)@.char_tx,
            final(self)@.drop_tx == old(self)@.drop_tx,
    {
        let mut slot: Option<W> = None;
        std::mem::swap(&mut slot, &mut self.ev_tx);
        let delivered = post_to(&mut slot, event, send);
        self.ev_tx = slot;
        delivered
    }

    /// Registers `tx` as the window's key event channel, replacing any other.
    pub fn set_key_tx(&mut self, tx: K)
        ensures
            final(self)@.key_tx == Some(tx),
            final(self)@.ev_tx == old(self)@.ev_tx,
            final(self)@.mouse_tx == old(self)@.mouse_tx,
            final(self)@.char_tx == old(self)@.char_tx,
            final(self)@.drop_tx == old(self)@.drop_tx,
    {
        self.key_tx = Some(tx);
    }

    /// Removes the window's key event channel, if there is one.
    pub fn remove_key_tx(&mut self)
        ensures
            final(self)@.key_tx is None,
            final(self)@.ev_tx == old(self)@.ev_tx,
            final(self)@.mouse_tx == old(self)@.mouse_tx,
            final(self)@.char_tx == old(self)@.char_tx,
            final(self)@.drop_tx == old(self)@.drop_tx,
    {
        self.key_tx = None;
    }

    /// Passes a key event to the registered channel through `send`, which
    /// reports whether it was delivered; a channel that can no longer
    /// deliver is removed. Returns whether the event was delivered.
    pub fn post_key<E, S: FnOnce(&K, E) -> bool>(&mut self, event: E, send: S) -> (delivered: bool)
        requires
            forall|tx: &K| call_requires(send, (tx, event)),
        ensures
            posted(old(self)@.key_tx, final(self)@.key_tx, event, send, delivered),
            final(self)@.ev_tx == old(self)@.ev_tx,
            final(self)@.mouse_tx == old(self)@.mouse_tx,
            final(self)@.char_tx == old(self)@.char_tx,
            final(self)@.drop_tx == old(self)@.drop_tx,
    {
        let mut slot: Option<K> = None;
        std::mem::swap(&mut slot, &mut self.key_tx);
        let delivered = post_to(&mut slot, event, send);
        self.key_tx = slot;
        delivered
    }

    /// Registers `tx` as the window's mouse event channel, replacing any other.
    pub fn set_mouse_tx(&mut self, tx: M)
        ensures
            final(self)@.mouse_tx == Some(tx),
            final(self)@.ev_tx == old(self)@.ev_tx,
            final(self)@.key_tx == old(self)@.key_tx,
            final(self)@.char_tx == old(self)@.char_tx,
            final(self)@.drop_tx == old(self)@.drop_tx,
    {
        self.mouse_tx = Some(tx);
    }

    /// Removes the window's mouse event channel, if there is one.
    pub fn remove_mouse_tx(&mut self)
        ensures
            final(self)@.mouse_tx is None,
            final(self)@.ev_tx == old(self)@.ev_tx,
            final(self)@.key_tx == old(self)@.key_tx,
            final(self)@.char_tx == old(self)@.char_tx,
            final(self)@.drop_tx == old(self)@.drop_tx,
    {
        self.mouse_tx = None;
    }

    /// Passes a mouse event to the registered channel through `send`, which
    /// reports whether it was delivered; a channel that can no longer
    /// deliver is removed. Returns whether the event was delivered.
    pub fn post_mouse<E, S: FnOnce(&M, E) -> bool>(&mut self, event: E, send: S) -> (delivered: bool)
        requires
            forall|tx: &M| call_requires(send, (tx, event)),
        ensures
            posted(old(self)@.mouse_tx, final(self)@.mouse_tx, event, send, delivered),
            final(self)@.ev_tx == old(self)@.ev_tx,
            final(self)@.key_tx == old(self)@.key_tx,
            final(self)@.char_tx == old(self)@.char_tx,
            final(self)@.drop_tx == old(self)@.drop_tx,
    {
        let mut slot: Option<M> = None;
        std::mem::swap(&mut slot, &mut self.mouse_tx);
        let delivered = post_to(&mut slot, event, send);
        self.mouse_tx = slot;
        delivered
    }

    /// Registers `tx` as the window's character channel, replacing any other.
    pub fn set_char_tx(&mut self, tx: C)
        ensures
            final(self)@.char_tx == Some(tx),
            final(self)@.ev_tx == old(self)@.ev_tx,
            final(self)@.key_tx == old(self)@.key_tx,
            final(self)@.mouse_tx == old(self)@.mouse_tx,
            final(self)@.drop_tx == old(self)@.drop_tx,
    {
        self.char_tx = Some(tx);
    }

    /// Removes the window's character channel, if there is one.
    pub fn remove_char_tx(&mut self)
        ensures
            final(self)@.char_tx is None,
            final(self)@.ev_tx == old(self)@.ev_tx,
            final(self)@.key_tx == old(self)@.key_tx,
            final(self)@.mouse_tx == old(self)@.mouse_tx,
            final(self)@.drop_tx == old(self)@.drop_tx,
    {
        self.char_tx = None;
    }

    /// Passes a character to the registered channel through `send`, which
    /// reports whether it was delivered; a channel that can no longer
    /// deliver is removed. Returns whether the event was delivered.
    pub fn post_char<E, S: FnOnce(&C, E) -> bool>(&mut self, event: E, send: S) -> (delivered: bool)
        requires
            forall|tx: &C| call_requires(send, (tx, event)),
        ensures
            posted(old(self)@.char_tx, final(self)@.char_tx, event, send, delivered),
            final(self)@.ev_tx == old(self)@.ev_tx,
            final(self)@.key_tx == old(self)@.key_tx,
            final(self)@.mouse_tx == old(self)@.mouse_tx,
            final(self)@.drop_tx == old(self)@.drop_tx,
    {
        let mut slot: Option<C> = None;
        std::mem::swap(&mut slot, &mut self.char_tx);
        let delivered = post_to(&mut slot, event, send);
        self.char_tx = slot;
        delivered
    }

    /// Registers `tx` as the window's file drop channel, replacing any other.
    pub fn set_drop_tx(&mut self, tx: D)
        ensures
            final(self)@.drop_tx == Some(tx),
            final(self)@.ev_tx == old(self)@.ev_tx,
            final(self)@.key_tx == old(self)@.key_tx,
            final(self)@.mouse_tx == old(self)@.mouse_tx,
            final(self)@.char_tx == old(self)@.char_tx,
    {
        self.drop_tx = Some(tx);
    }

    /// Removes the window's file drop channel, if there is one.
    pub fn remove_drop_tx(&mut self)
        ensures
            final(self)@.drop_tx is None,
            final(self)@.ev_tx == old(self)@.ev_tx,
            final(self)@.key_tx == old(self)@.key_tx,
            final(self)@.mouse_tx == old(self)@.mouse_tx,
            final(self)@.char_tx == old(self)@.char_tx,
    {
        self.drop_tx = None;
    }

    /// Passes a file drop to the registered channel through `send`, which
    /// reports whether it was delivered; a channel that can no longer
    /// deliver is removed. Returns whether the event was delivered.
    pub fn post_drop<E, S: FnOnce(&D, E) -> bool>(&mut self, event: E, send: S) -> (delivered: bool)
        requires
            forall|tx: &D| call_requires(send, (tx, event)),
        ensures
            posted(old(self)@.drop_tx, final(self)@.drop_tx, event, send, delivered),
            final(self)@.ev_tx == old(self)@.ev_tx,
            final(self)@.key_tx == old(self)@.key_tx,
            final(self)@.mouse_tx == old(self)@.mouse_tx,
            final(self)@.char_tx == old(self)@.char_tx,
    {
        let mut slot: Option<D> = None;
        std::mem::swap(&mut slot, &mut self.drop_tx);
        let delivered = post_to(&mut slot, event, send);
        self.drop_tx = slot;
        delivered
    }
}

/// Whether `e` is [XErr::NotInitialized] with the description `what`.
pub open spec fn is_context_error(e: XErr, what: Seq<char>) -> bool {
    e matches XErr::NotInitialized(m) && m@ == what
}

impl Window {
    /// Registers `tx` to receive the configuration events of this window, whose context
    /// is `ctx`.
    ///
    /// # Errors
    /// [XErr::NotInitialized] if the window has no context, which happens
    /// only when XWin is not initialized.
    pub fn set_config_channel<W, K, M, C, D>(&mut self, ctx: Option<&mut WindowContext<W, K, M, C, D>>, tx: W) -> (r: Result<(), XErr>)
        ensures
            match ctx {
                Some(c) => r is Ok && final(c)@.ev_tx == Some(tx) && final(c)@.key_tx == c@.key_tx && final(c)@.mouse_tx == c@.mouse_tx && final(c)@.char_tx == c@.char_tx && final(c)@.drop_tx == c@.drop_tx,
                None => r matches Err(e) && is_context_error(e, "Unable to set config channel when XWin is uninitialized"@),
            },
    {
        match ctx {
            Some(c) => {
                c.set_ev_tx(tx);
                Ok(())
            },
            None => Err(XErr::NotInitialized(String::from_str("Unable to set config channel when XWin is uninitialized"))),
        }
    }

    /// Removes the configuration event channel of this window, whose context is `ctx`.
    ///
    /// # Errors
    /// [XErr::NotInitialized] if the window has no context, which happens
    /// only when XWin is not initialized.
    pub fn clear_config_channel<W, K, M, C, D>(&mut self, ctx: Option<&mut WindowContext<W, K, M, C, D>>) -> (r: Result<(), XErr>)
        ensures
            match ctx {
                Some(c) => r is Ok && final(c)@.ev_tx is None && final(c)@.key_tx == c@.key_tx && final(c)@.mouse_tx == c@.mouse_tx && final(c)@.char_tx == c@.char_tx && final(c)@.drop_tx == c@.drop_tx,
                None => r matches Err(e) && is_context_error(e, "Unable to clear config channel when XWin is uninitialized"@),
            },
    {
        match ctx {
            Some(c) => {
                c.remove_ev_tx();
                Ok(())
            },
            None => Err(XErr::NotInitialized(String::from_str("Unable to clear config channel when XWin is uninitialized"))),
        }
    }
}

impl WindowInput {
    /// Registers `tx` to receive the key events of this window, whose context
    /// is `ctx`.
    ///
    /// # Errors
    /// [XErr::NotInitialized] if the window has no context, which happens
    /// only when XWin is not initialized.
    pub fn set_key_channel<W, K, M, C, D>(&mut self, ctx: Option<&mut WindowContext<W, K, M, C, D>>, tx: K) -> (r: Result<(), XErr>)
        ensures
            match ctx {
                Some(c) => r is Ok && final(c)@.key_tx == Some(tx) && final(c)@.ev_tx == c@.ev_tx && final(c)@.mouse_tx == c@.mouse_tx && final(c)@.char_tx == c@.char_tx && final(c)@.drop_tx == c@.drop_tx,
                None => r matches Err(e) && is_context_error(e, "Unable to set event channels when XWin is uninitialized"@),
            },
    {
        match ctx {
            Some(c) => {
                c.set_key_tx(tx);
                Ok(())
            },
            None => Err(XErr::NotInitialized(String::from_str("Unable to set event channels when XWin is uninitialized"))),
        }
    }

    /// Removes the key event channel of this window, whose context is `ctx`.
    ///
    /// # Errors
    /// [XErr::NotInitialized] if the window has no context, which happens
    /// only when XWin is not initialized.
    pub fn clear_key_channel<W, K, M, C, D>(&mut self, ctx: Option<&mut WindowContext<W, K, M, C, D>>) -> (r: Result<(), XErr>)
        ensures
            match ctx {
                Some(c) => r is Ok && final(c)@.key_tx is None && final(c)@.ev_tx == c@.ev_tx && final(c)@.mouse_tx == c@.mouse_tx && final(c)@.char_tx == c@.char_tx && final(c)@.drop_tx == c@.drop_tx,
                None => r matches Err(e) && is_context_error(e, "Unable to set event channels when XWin is uninitialized"@),
            },
    {
        match ctx {
            Some(c) => {
                c.remove_key_tx();
                Ok(())
            },
            None => Err(XErr::NotInitialized(String::from_str("Unable to set event channels when XWin is uninitialized"))),
        }
    }

    /// Registers `tx` to receive the mouse events of this window, whose context
    /// is `ctx`.
    ///
    /// # Errors
    /// [XErr::NotInitialized] if the window has no context, which happens
    /// only when XWin is not initialized.
    pub fn set_mouse_channel<W, K, M, C, D>(&mut self, ctx: Option<&mut WindowContext<W, K, M, C, D>>, tx: M) -> (r: Result<(), XErr>)
        ensures
            match ctx {
                Some(c) => r is Ok && final(c)@.mouse_tx == Some(tx) && final(c)@.ev_tx == c@.ev_tx && final(c)@.key_tx == c@.key_tx && final(c)@.char_tx == c@.char_tx && final(c)@.drop_tx == c@.drop_tx,
                None => r matches Err(e) && is_context_error(e, "Unable to set event channels when XWin is uninitialized"@),
            },
    {
        match ctx {
            Some(c) => {
                c.set_mouse_tx(tx);
                Ok(())
            },
            None => Err(XErr::NotInitialized(String::from_str("Unable to set event channels when XWin is uninitialized"))),
        }
    }

    /// Removes the mouse event channel of this window, whose context is `ctx`.
    ///
    /// # Errors
    /// [XErr::NotInitialized] if the window has no context, which happens
    /// only when XWin is not initialized.
    pub fn clear_mouse_channel<W, K, M, C, D>(&mut self, ctx: Option<&mut WindowContext<W, K, M, C, D>>) -> (r: Result<(), XErr>)
        ensures
            match ctx {
                Some(c) => r is Ok && final(c)@.mouse_tx is None && final(c)@.ev_tx == c@.ev_tx && final(c)@.key_tx == c@.key_tx && final(c)@.char_tx == c@.char_tx && final(c)@.drop_tx == c@.drop_tx,
                None => r matches Err(e) && is_context_error(e, "Unable to set event channels when XWin is uninitialized"@),
            },
    {
        match ctx {
            Some(c) => {
                c.remove_mouse_tx();
                Ok(())
            },
            None => Err(XErr::NotInitialized(String::from_str("Unable to set event channels when XWin is uninitialized"))),
        }
    }

    /// Registers `tx` to receive the characters of this window, whose context
    /// is `ctx`.
    ///
    /// # Errors
    /// [XErr::NotInitialized] if the window has no context, which happens
    /// only when XWin is not initialized.
    pub fn set_char_channel<W, K, M, C, D>(&mut self, ctx: Option<&mut WindowContext<W, K, M, C, D>>, tx: C) -> (r: Result<(), XErr>)
        ensures
            match ctx {
                Some(c) => r is Ok && final(c)@.char_tx == Some(tx) && final(c)@.ev_tx == c@.ev_tx && final(c)@.key_tx == c@.key_tx && final(c)@.mouse_tx == c@.mouse_tx && final(c)@.drop_tx == c@.drop_tx,
                None => r matches Err(e) && is_context_error(e, "Unable to set event channels when XWin is uninitialized"@),
            },
    {
        match ctx {
            Some(c) => {
                c.set_char_tx(tx);
                Ok(())
            },
            None => Err(XErr::NotInitialized(String::from_str("Unable to set event channels when XWin is uninitialized"))),
        }
    }

    /// Removes the character channel of this window, whose context is `ctx`.
    ///
    /// # Errors
    /// [XErr::NotInitialized] if the window has no context, which happens
    /// only when XWin is not initialized.
    pub fn clear_char_channel<W, K, M, C, D>(&mut self, ctx: Option<&mut WindowContext<W, K, M, C, D>>) -> (r: Result<(), XErr>)
        ensures
            match ctx {
                Some(c) => r is Ok && final(c)@.char_tx is None && final(c)@.ev_tx == c@.ev_tx && final(c)@.key_tx == c@.key_tx && final(c)@.mouse_tx == c@.mouse_tx && final(c)@.drop_tx == c@.drop_tx,
                None => r matches Err(e) && is_context_error(e, "Unable to set event channels when XWin is uninitialized"@),
            },
    {
        match ctx {
            Some(c) => {
                c.remove_char_tx();
                Ok(())
            },
            None => Err(XErr::NotInitialized(String::from_str("Unable to set event channels when XWin is uninitialized"))),
        }
    }

    /// Registers `tx` to receive the file drops of this window, whose context
    /// is `ctx`.
    ///
    /// # Errors
    /// [XErr::NotInitialized] if the window has no context, which happens
    /// only when XWin is not initialized.
    pub fn set_drop_channel<W, K, M, C, D>(&mut self, ctx: Option<&mut WindowContext<W, K, M, C, D>>, tx: D) -> (r: Result<(), XErr>)
        ensures
            match ctx {
                Some(c) => r is Ok && final(c)@.drop_tx == Some(tx) && final(c)@.ev_tx == c@.ev_tx && final(c)@.key_tx == c@.key_tx && final(c)@.mouse_tx == c@.mouse_tx && final(c)@.char_tx == c@.char_tx,
                None => r matches Err(e) && is_context_error(e, "Unable to set event channels when XWin is uninitialized"@),
            },
    {
        match ctx {
            Some(c) => {
                c.set_drop_tx(tx);
                Ok(())
            },
            None => Err(XErr::NotInitialized(String::from_str("Unable to set event channels when XWin is uninitialized"))),
        }
    }

    /// Removes the file drop channel of this window, whose context is `ctx`.
    ///
    /// # Errors
    /// [XErr::NotInitialized] if the window has no context, which happens
    /// only when XWin is not initialized.
    pub fn clear_drop_channel<W, K, M, C, D>(&mut self, ctx: Option<&mut WindowContext<W, K, M, C, D>>) -> (r: Result<(), XErr>)
        ensures
            match ctx {
                Some(c) => r is Ok && final(c)@.drop_tx is None && final(c)@.ev_tx == c@.ev_tx && final(c)@.key_tx == c@.key_tx && final(c)@.mouse_tx == c@.mouse_tx && final(c)@.char_tx == c@.char_tx,
                None => r matches Err(e) && is_context_error(e, "Unable to set event channels when XWin is uninitialized"@),
            },
    {
        match ctx {
            Some(c) => {
                c.remove_drop_tx();
                Ok(())
            },
            None => Err(XErr::NotInitialized(String::from_str("Unable to set event channels when XWin is uninitialized"))),
        }
    }
}

} // verus!
