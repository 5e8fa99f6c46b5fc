//! The per-event capability handle passed to every machine method.
//!
//! A scope binds a token and the sampled loop time; through it a machine
//! registers I/O under its own token, mints a [`Notifier`] for itself,
//! reads the loop time, and reaches the shared context.  The poller and
//! timer are reached through a separate [`LoopApi`] value, handed to the
//! machine next to the scope, so that the dispatch proofs can track what
//! each call does to the poller's state.

use vstd::prelude::*;

use crate::handler::Notify;
use crate::loop_api::{EventSet, IoError, LoopApi, PollOpt, Token};
use crate::loop_time::{estimate_system_time, Time};
use crate::notify::{create_notifier, Notifier};

verus! {

/// The capability handle for one event dispatch.
///
/// All operations act on the enclosed machine: the one whose method was
/// called with this scope.  The only way to reach another machine is to
/// mint a notifier here, hand it over, and have its holder call wakeup.
pub struct Scope<'a, C: Sized> {
    token: Token,
    time: Time,
    /// The loop-wide shared context.
    pub ctx: &'a mut C,
    channel: &'a std::sync::mpsc::SyncSender<Notify>,
}

/// A scope available before the context exists.
///
/// Root machines may be installed before the loop's context is built, so
/// that their notifiers can be placed into the context as it is being
/// constructed.  Such machines see this scope, which lacks the context.
pub struct EarlyScope<'a> {
    token: Token,
    channel: &'a std::sync::mpsc::SyncSender<Notify>,
}

/// The part common to `Scope` and `EarlyScope`, so machine constructors
/// can be generic over which one they get.
pub trait GenericScope: Sized {
    /// The token of the enclosed machine.
    spec fn spec_token(&self) -> Token;

    /// The loop time this scope observes.
    spec fn spec_now(&self) -> Time;

    /// Associate an I/O handle with the enclosed machine's token.
    fn register<L: LoopApi>(
        &self,
        api: &mut L,
        io: &L::Io,
        interest: EventSet,
        opt: PollOpt,
    ) -> (r: Result<(), IoError>)
        ensures
            final(api).timers() == old(api).timers(),
            final(api).shutdown_requested() == old(api).shutdown_requested(),
            r is Ok ==> final(api).registrations() == old(api).registrations().insert(
                L::io_key(io),
                (self.spec_token(), interest, opt),
            ),
            r is Err ==> final(api).registrations() == old(api).registrations(),
    ;

    /// Change interests or mode for an already registered handle.
    fn reregister<L: LoopApi>(
        &self,
        api: &mut L,
        io: &L::Io,
        interest: EventSet,
        opt: PollOpt,
    ) -> (r: Result<(), IoError>)
        ensures
            final(api).timers() == old(api).timers(),
            final(api).shutdown_requested() == old(api).shutdown_requested(),
            r is Ok ==> final(api).registrations() == old(api).registrations().insert(
                L::io_key(io),
                (self.spec_token(), interest, opt),
            ),
            r is Err ==> final(api).registrations() == old(api).registrations(),
    ;

    /// Detach an I/O handle from the poller.
    fn deregister<L: LoopApi>(&self, api: &mut L, io: &L::Io) -> (r: Result<(), IoError>)
        ensures
            final(api).timers() == old(api).timers(),
            final(api).shutdown_requested() == old(api).shutdown_requested(),
            r is Ok ==> final(api).registrations() == old(api).registrations().remove(
                L::io_key(io),
            ),
            r is Err ==> final(api).registrations() == old(api).registrations(),
    ;

    /// A notifier able to wake the enclosed machine.
    fn notifier(&self) -> (r: Notifier)
        ensures
            r.target() == self.spec_token(),
    ;

    /// The time of the current loop iteration; sampled once per dispatch.
    fn now(&self) -> (r: Time)
        ensures
            r == self.spec_now(),
    ;
}

impl<'a, C: Sized> Scope<'a, C> {
    pub closed spec fn stoken(&self) -> Token {
        self.token
    }

    pub closed spec fn snow(&self) -> Time {
        self.time
    }

    /// Associate an I/O handle with the enclosed machine's token.
    pub fn register<L: LoopApi>(
        &self,
        api: &mut L,
        io: &L::Io,
        interest: EventSet,
        opt: PollOpt,
    ) -> (r: Result<(), IoError>)
        ensures
            final(api).timers() == old(api).timers(),
            final(api).shutdown_requested() == old(api).shutdown_requested(),
            r is Ok ==> final(api).registrations() == old(api).registrations().insert(
                L::io_key(io),
                (self.stoken(), interest, opt),
            ),
            r is Err ==> final(api).registrations() == old(api).registrations(),
    {
        api.register(io, self.token, interest, opt)
    }

    /// Change interests or mode for an already registered handle.
    pub fn reregister<L: LoopApi>(
        &self,
        api: &mut L,
        io: &L::Io,
        interest: EventSet,
        opt: PollOpt,
    ) -> (r: Result<(), IoError>)
        ensures
            final(api).timers() == old(api).timers(),
            final(api).shutdown_requested() == old(api).shutdown_requested(),
            r is Ok ==> final(api).registrations() == old(api).registrations().insert(
                L::io_key(io),
                (self.stoken(), interest, opt),
            ),
            r is Err ==> final(api).registrations() == old(api).registrations(),
    {
        api.reregister(io, self.token, interest, opt)
    }

    /// Detach an I/O handle from the poller.
    ///
    /// Call this before dropping a handle that duplicates one installed
    /// elsewhere, so no events arrive against a freed slot.
    pub fn deregister<L: LoopApi>(&self, api: &mut L, io: &L::Io) -> (r: Result<(), IoError>)
        ensures
            final(api).timers() == old(api).timers(),
            final(api).shutdown_requested() == old(api).shutdown_requested(),
            r is Ok ==> final(api).registrations() == old(api).registrations().remove(
                L::io_key(io),
            ),
            r is Err ==> final(api).registrations() == old(api).registrations(),
    {
        api.deregister(io)
    }

    /// A notifier able to wake the enclosed machine.
    pub fn notifier(&self) -> (r: Notifier)
        ensures
            r.target() == self.stoken(),
    {
        create_notifier(self.token, self.channel)
    }

    /// Ask the event loop to exit after the current dispatch returns.
    pub fn shutdown_loop<L: LoopApi>(&self, api: &mut L)
        ensures
            final(api).registrations() == old(api).registrations(),
            final(api).timers() == old(api).timers(),
            final(api).shutdown_requested(),
    {
        api.shutdown()
    }

    /// The time of the current loop iteration; sampled once per dispatch.
    pub fn now(&self) -> (r: Time)
        ensures
            r == self.snow(),
    {
        self.time
    }

    /// The wall-clock point estimated to correspond to the loop time
    /// `time`; an estimate, unfit to rely on in code.
    pub fn estimate_system_time(&self, time: Time) -> (r: Option<std::time::SystemTime>)
        requires
            self.snow().0 <= time.0,
    {
        estimate_system_time(self.time, time)
    }
}

impl<'a, C: Sized> GenericScope for Scope<'a, C> {
    open spec fn spec_token(&self) -> Token {
        self.stoken()
    }

    open spec fn spec_now(&self) -> Time {
        self.snow()
    }

    fn register<L: LoopApi>(
        &self,
        api: &mut L,
        io: &L::Io,
        interest: EventSet,
        opt: PollOpt,
    ) -> (r: Result<(), IoError>) {
        self.register(api, io, interest, opt)
    }

    fn reregister<L: LoopApi>(
        &self,
        api: &mut L,
        io: &L::Io,
        interest: EventSet,
        opt: PollOpt,
    ) -> (r: Result<(), IoError>) {
        self.reregister(api, io, interest, opt)
    }

    fn deregister<L: LoopApi>(&self, api: &mut L, io: &L::Io) -> (r: Result<(), IoError>) {
        self.deregister(api, io)
    }

    fn notifier(&self) -> (r: Notifier) {
        let n = Scope::notifier(self);
        n
    }

    fn now(&self) -> (r: Time) {
        let t = Scope::now(self);
        t
    }
}

impl<'a> EarlyScope<'a> {
    pub closed spec fn stoken(&self) -> Token {
        self.token
    }

    /// Associate an I/O handle with the enclosed machine's token.
    pub fn register<L: LoopApi>(
        &self,
        api: &mut L,
        io: &L::Io,
        interest: EventSet,
        opt: PollOpt,
    ) -> (r: Result<(), IoError>)
        ensures
            final(api).timers() == old(api).timers(),
            final(api).shutdown_requested() == old(api).shutdown_requested(),
            r is Ok ==> final(api).registrations() == old(api).registrations().insert(
                L::io_key(io),
                (self.stoken(), interest, opt),
            ),
            r is Err ==> final(api).registrations() == old(api).registrations(),
    {
        api.register(io, self.token, interest, opt)
    }

    /// Change interests or mode for an already registered handle.
    pub fn reregister<L: LoopApi>(
        &self,
        api: &mut L,
        io: &L::Io,
        interest: EventSet,
        opt: PollOpt,
    ) -> (r: Result<(), IoError>)
        ensures
            final(api).timers() == old(api).timers(),
            final(api).shutdown_requested() == old(api).shutdown_requested(),
            r is Ok ==> final(api).registrations() == old(api).registrations().insert(
                L::io_key(io),
                (self.stoken(), interest, opt),
            ),
            r is Err ==> final(api).registrations() == old(api).registrations(),
    {
        api.reregister(io, self.token, interest, opt)
    }

    /// Detach an I/O handle from the poller.
    pub fn deregister<L: LoopApi>(&self, api: &mut L, io: &L::Io) -> (r: Result<(), IoError>)
        ensures
            final(api).timers() == old(api).timers(),
            final(api).shutdown_requested() == old(api).shutdown_requested(),
            r is Ok ==> final(api).registrations() == old(api).registrations().remove(
                L::io_key(io),
            ),
            r is Err ==> final(api).registrations() == old(api).registrations(),
    {
        api.deregister(io)
    }

    /// A notifier able to wake the enclosed machine.
    pub fn notifier(&self) -> (r: Notifier)
        ensures
            r.target() == self.stoken(),
    {
        create_notifier(self.token, self.channel)
    }

    /// The loop time an early scope observes: the very start of things.
    pub fn now(&self) -> (r: Time)
        ensures
            r.0 == 1,
    {
        Time::zero()
    }

    /// The wall-clock point estimated to correspond to the loop time
    /// `time`; an estimate, unfit to rely on in code.
    pub fn estimate_system_time(&self, time: Time) -> (r: Option<std::time::SystemTime>)
        requires
            time.0 >= 1,
    {
        let now = Time::zero();
        estimate_system_time(now, time)
    }
}

impl<'a> GenericScope for EarlyScope<'a> {
    open spec fn spec_token(&self) -> Token {
        self.stoken()
    }

    open spec fn spec_now(&self) -> Time {
        Time(1)
    }

    fn register<L: LoopApi>(
        &self,
        api: &mut L,
        io: &L::Io,
        interest: EventSet,
        opt: PollOpt,
    ) -> (r: Result<(), IoError>) {
        self.register(api, io, interest, opt)
    }

    fn reregister<L: LoopApi>(
        &self,
        api: &mut L,
        io: &L::Io,
        interest: EventSet,
        opt: PollOpt,
    ) -> (r: Result<(), IoError>) {
        self.reregister(api, io, interest, opt)
    }

    fn deregister<L: LoopApi>(&self, api: &mut L, io: &L::Io) -> (r: Result<(), IoError>) {
        self.deregister(api, io)
    }

    fn notifier(&self) -> (r: Notifier) {
        let n = EarlyScope::notifier(self);
        n
    }

    fn now(&self) -> (r: Time) {
        let t = EarlyScope::now(self);
        t
    }
}

/// A scope bound to `token`, observing `time`, over the given context and
/// wakeup channel.
pub fn scope<'x, C>(
    time: Time,
    token: Token,
    ctx: &'x mut C,
    channel: &'x std::sync::mpsc::SyncSender<Notify>,
) -> (r: Scope<'x, C>)
    ensures
        r.stoken() == token,
        r.snow() == time,
{
    Scope { token, time, ctx, channel }
}

/// An early scope bound to `token`, over the given wakeup channel.
pub fn early_scope<'x>(
    token: Token,
    channel: &'x std::sync::mpsc::SyncSender<Notify>,
) -> (r: EarlyScope<'x>)
    ensures
        r.stoken() == token,
{
    EarlyScope { token, channel }
}

} // verus!
