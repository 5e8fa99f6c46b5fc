//! Waking a machine from another thread.
//!
//! A [`Notifier`] pairs a token with the sending end of the loop's wakeup
//! channel.  It carries identity, not ownership: by the time a wakeup
//! arrives, the token may have been recycled, so a machine must treat a
//! `wakeup` event as possibly spurious.

use vstd::prelude::*;

use crate::handler::Notify;
use crate::loop_api::Token;

verus! {

/// Why a wakeup could not be queued.
#[derive(Debug, Clone, Copy, PartialEq, Eq, Structural)]
pub enum WakeupError {
    /// An I/O fault in the wakeup channel itself.
    Io,
    /// The wakeup queue is full; a capacity-planning error, not a
    /// transient.
    Full,
    /// The queue is closed: the loop has already shut down.
    Closed,
}

/// Relies on std::sync::mpsc::SyncSender being the sending end of a
/// bounded channel; the type is opaque here and only carried around.
#[verifier::external_type_specification]
#[verifier::external_body]
#[verifier::reject_recursive_types(T)]
pub struct ExSyncSender<T>(std::sync::mpsc::SyncSender<T>);

/// Relies on std::sync::mpsc::SyncSender::try_send: the message is queued
/// unless the queue is full or the receiving end is gone; the call never
/// blocks.  The two failures are told apart by the error's variant, so a
/// failure is never the I/O kind.
#[verifier::external_body]
fn send_notify(channel: &std::sync::mpsc::SyncSender<Notify>, msg: Notify) -> (r: Result<
    (),
    WakeupError,
>)
    ensures
        r matches Err(e) ==> !(e is Io),
{
    match channel.try_send(msg) {
        Ok(()) => Ok(()),
        Err(std::sync::mpsc::TrySendError::Full(_)) => Err(WakeupError::Full),
        Err(std::sync::mpsc::TrySendError::Disconnected(_)) => Err(WakeupError::Closed),
    }
}

/// Relies on std::sync::mpsc::SyncSender::clone: the clone feeds the same
/// queue as the original.
#[verifier::external_body]
fn clone_sender(channel: &std::sync::mpsc::SyncSender<Notify>) -> (r: std::sync::mpsc::SyncSender<
    Notify,
>) {
    channel.clone()
}

/// A cross-thread capability to wake one machine, named by its token.
#[derive(Debug)]
pub struct Notifier {
    token: Token,
    channel: std::sync::mpsc::SyncSender<Notify>,
}

/// A notifier bound to `token`, feeding the queue behind `channel`.
pub fn create_notifier(token: Token, channel: &std::sync::mpsc::SyncSender<Notify>) -> (r:
    Notifier)
    ensures
        r.target() == token,
{
    Notifier { token, channel: clone_sender(channel) }
}

impl Notifier {
    /// The token this notifier wakes.
    pub closed spec fn target(&self) -> Token {
        self.token
    }

    /// Queue a wakeup for the machine this notifier is bound to.
    ///
    /// Delivery is asynchronous: by the time the loop drains the queue the
    /// token may belong to a new occupant, which then sees a spurious
    /// wakeup.  A failure is the queue being full or closed, never an I/O
    /// fault of this channel.
    pub fn wakeup(&self) -> (r: Result<(), WakeupError>)
        ensures
            r matches Err(e) ==> !(e is Io),
    {
        send_notify(&self.channel, Notify::Fsm(self.token))
    }
}

impl Clone for Notifier {
    /// The clone wakes the same token through the same queue.
    fn clone(&self) -> (r: Notifier)
        ensures
            r.target() == self.target(),
    {
        Notifier { token: self.token, channel: clone_sender(&self.channel) }
    }
}

} // verus!
