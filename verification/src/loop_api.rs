//! The seam between the verified dispatch logic and a concrete poller.
//!
//! The event loop needs four outside services: an I/O readiness poller, a
//! timer wheel, a wakeup channel and a shutdown latch.  The [`LoopApi`]
//! trait captures the calls the dispatch logic makes into them, together
//! with the contracts the logic relies on, stated over three abstract
//! views: the registered interests, the armed timers, and the shutdown
//! flag.  A production implementation adapts a real poller; a test
//! implementation keeps the views in plain maps.

use vstd::prelude::*;

verus! {

/// The identity of one machine slot; dense, recyclable.
#[derive(Debug, Clone, Copy, PartialEq, Eq, PartialOrd, Ord, Hash, Structural)]
pub struct Token(pub usize);

/// The set of readiness interests or delivered readiness bits.
#[derive(Debug, Clone, Copy, PartialEq, Eq, Structural)]
pub struct EventSet {
    pub readable: bool,
    pub writable: bool,
    pub error: bool,
    pub hup: bool,
}

impl EventSet {
    pub fn none() -> (r: EventSet)
        ensures
            r == (EventSet { readable: false, writable: false, error: false, hup: false }),
    {
        EventSet { readable: false, writable: false, error: false, hup: false }
    }

    pub fn readable() -> (r: EventSet)
        ensures
            r == (EventSet { readable: true, writable: false, error: false, hup: false }),
    {
        EventSet { readable: true, writable: false, error: false, hup: false }
    }

    pub fn writable() -> (r: EventSet)
        ensures
            r == (EventSet { readable: false, writable: true, error: false, hup: false }),
    {
        EventSet { readable: false, writable: true, error: false, hup: false }
    }

    pub fn all() -> (r: EventSet)
        ensures
            r == (EventSet { readable: true, writable: true, error: false, hup: false }),
    {
        EventSet { readable: true, writable: true, error: false, hup: false }
    }

    pub fn is_readable(&self) -> (r: bool)
        ensures
            r == self.readable,
    {
        self.readable
    }

    pub fn is_writable(&self) -> (r: bool)
        ensures
            r == self.writable,
    {
        self.writable
    }
}

/// How a registration is triggered by the poller.
#[derive(Debug, Clone, Copy, PartialEq, Eq, Structural)]
pub struct PollOpt {
    pub edge: bool,
    pub oneshot: bool,
}

impl PollOpt {
    pub fn edge() -> (r: PollOpt)
        ensures
            r == (PollOpt { edge: true, oneshot: false }),
    {
        PollOpt { edge: true, oneshot: false }
    }

    pub fn level() -> (r: PollOpt)
        ensures
            r == (PollOpt { edge: false, oneshot: false }),
    {
        PollOpt { edge: false, oneshot: false }
    }
}

/// A ticket for one armed timer, handed out by the timer wheel.
#[derive(Debug, Clone, Copy, PartialEq, Eq, Structural)]
pub struct Timeout(pub u64);

/// A failure reported by the poller on register, reregister or deregister.
#[derive(Debug, Clone, PartialEq, Eq)]
pub struct IoError {
    pub message: String,
}

/// The timer wheel could not arm another timer.
#[derive(Debug, Clone, Copy, PartialEq, Eq, Structural)]
pub struct TimerError;

/// What the dispatch logic asks of the poller, the timer wheel and the
/// shutdown latch.
///
/// The contracts promise exactly how each call moves the three views; the
/// dispatch proofs rest on them.  An implementation backed by a real
/// poller is trusted to move the real world the same way; the test
/// implementation in [`crate::test_util`] is verified against them.
pub trait LoopApi: Sized {
    /// The handle type that registrations are keyed by.
    type Io;

    /// The identity of an I/O handle in the registration view.
    ///
    /// The defaults of the four view functions leave an implementation's
    /// views unconstrained; a verified implementation overrides them with
    /// its real state.
    open spec fn io_key(io: &Self::Io) -> u64 {
        arbitrary()
    }

    /// The poller's interests: handle identity to (token, interests, mode).
    open spec fn registrations(&self) -> Map<u64, (Token, EventSet, PollOpt)> {
        arbitrary()
    }

    /// The timer wheel's armed tickets: each ticket is owed to one token
    /// and was armed with one delay, in milliseconds.
    open spec fn timers(&self) -> Map<u64, (Token, u64)> {
        arbitrary()
    }

    /// Whether the loop has been asked to exit.
    open spec fn shutdown_requested(&self) -> bool {
        arbitrary()
    }

    /// Associate an I/O handle with a token in the poller.
    fn register(&mut self, io: &Self::Io, token: Token, interest: EventSet, opt: PollOpt)
        -> (r: Result<(), IoError>)
        ensures
            final(self).timers() == old(self).timers(),
            final(self).shutdown_requested() == old(self).shutdown_requested(),
            r is Ok ==> final(self).registrations()
                == old(self).registrations().insert(Self::io_key(io), (token, interest, opt)),
            r is Err ==> final(self).registrations() == old(self).registrations(),
    ;

    /// Change interests or mode of an already registered handle.
    fn reregister(&mut self, io: &Self::Io, token: Token, interest: EventSet, opt: PollOpt)
        -> (r: Result<(), IoError>)
        ensures
            final(self).timers() == old(self).timers(),
            final(self).shutdown_requested() == old(self).shutdown_requested(),
            r is Ok ==> final(self).registrations()
                == old(self).registrations().insert(Self::io_key(io), (token, interest, opt)),
            r is Err ==> final(self).registrations() == old(self).registrations(),
    ;

    /// Detach an I/O handle from the poller.
    fn deregister(&mut self, io: &Self::Io) -> (r: Result<(), IoError>)
        ensures
            final(self).timers() == old(self).timers(),
            final(self).shutdown_requested() == old(self).shutdown_requested(),
            r is Ok ==> final(self).registrations()
                == old(self).registrations().remove(Self::io_key(io)),
            r is Err ==> final(self).registrations() == old(self).registrations(),
    ;

    /// Arm a timer that will deliver a timeout for `token` after `delay`
    /// milliseconds.  A returned ticket is not among the armed ones.
    fn timeout_ms(&mut self, token: Token, delay: u64) -> (r: Result<Timeout, TimerError>)
        ensures
            final(self).registrations() == old(self).registrations(),
            final(self).shutdown_requested() == old(self).shutdown_requested(),
            match r {
                Ok(tk) => !old(self).timers().contains_key(tk.0)
                    && final(self).timers() == old(self).timers().insert(tk.0, (token, delay)),
                Err(_) => final(self).timers() == old(self).timers(),
            },
    ;

    /// Cancel an armed timer; reports whether the ticket was still armed.
    fn clear_timeout(&mut self, tk: Timeout) -> (hit: bool)
        ensures
            final(self).registrations() == old(self).registrations(),
            final(self).shutdown_requested() == old(self).shutdown_requested(),
            hit == old(self).timers().contains_key(tk.0),
            final(self).timers() == old(self).timers().remove(tk.0),
    ;

    /// Ask the loop to exit once the current dispatch returns.
    fn shutdown(&mut self)
        ensures
            final(self).registrations() == old(self).registrations(),
            final(self).timers() == old(self).timers(),
            final(self).shutdown_requested(),
    ;
}

/// Registering a handle and then deregistering it leaves no residual
/// interest: the poller's view returns to its prior state, exactly when
/// the handle was not registered before.
pub proof fn lemma_register_deregister_restores(
    regs: Map<u64, (Token, EventSet, PollOpt)>,
    key: u64,
    entry: (Token, EventSet, PollOpt),
)
    ensures
        regs.insert(key, entry).remove(key) == regs.remove(key),
        !regs.contains_key(key) ==> regs.insert(key, entry).remove(key) == regs,
{
    assert(regs.insert(key, entry).remove(key) =~= regs.remove(key));
    if !regs.contains_key(key) {
        assert(regs.remove(key) =~= regs);
    }
}

} // verus!
