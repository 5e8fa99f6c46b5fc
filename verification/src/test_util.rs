//! A verified in-memory stand-in for the loop services, for tests.

use vstd::prelude::*;
use std::collections::HashMap;

use crate::Response;
use crate::loop_api::{EventSet, IoError, LoopApi, PollOpt, TimerError, Timeout, Token};
use crate::machine::Machine;
use crate::scope::Scope;

verus! {

/// A machine that declines every event; a placeholder for tests.
pub struct Stub;

impl<L: LoopApi> Machine<L> for Stub {
    type Context = ();

    type Seed = ();

    fn create(
        _seed: (),
        _scope: &mut Scope<'_, ()>,
        _api: &mut L,
    ) -> (r: Response<Stub, ()>) {
        Response::done()
    }

    fn ready(
        self,
        _events: EventSet,
        _scope: &mut Scope<'_, ()>,
        _api: &mut L,
    ) -> (r: Response<Stub, ()>) {
        Response::done()
    }

    fn spawned(self, _scope: &mut Scope<'_, ()>, _api: &mut L) -> (r: Response<
        Stub,
        (),
    >) {
        Response::done()
    }

    fn timeout(self, _scope: &mut Scope<'_, ()>, _api: &mut L) -> (r: Response<
        Stub,
        (),
    >) {
        Response::done()
    }

    fn wakeup(self, _scope: &mut Scope<'_, ()>, _api: &mut L) -> (r: Response<
        Stub,
        (),
    >) {
        Response::done()
    }
}

/// Loop services kept in plain maps: registrations and armed timers are
/// recorded, tickets are handed out from a counter, and nothing fires by
/// itself.  Every [`LoopApi`] contract is proved, so a dispatch driven
/// against this value exercises the same obligations as a real loop.
pub struct TestApi {
    regs: HashMap<u64, (Token, EventSet, PollOpt)>,
    timers: HashMap<u64, (Token, u64)>,
    next_ticket: u64,
    shutdown: bool,
}

impl TestApi {
    /// Fresh services: nothing registered, nothing armed.
    pub fn new() -> (r: TestApi)
        ensures
            r.registrations() == Map::<u64, (Token, EventSet, PollOpt)>::empty(),
            r.timers() == Map::<u64, (Token, u64)>::empty(),
            !r.shutdown_requested(),
    {
        TestApi { regs: HashMap::new(), timers: HashMap::new(), next_ticket: 0, shutdown: false }
    }

    /// How many timers are currently armed.
    pub fn armed_count(&self) -> (r: usize)
        ensures
            r == self.timers().len(),
    {
        self.timers.len()
    }

    /// Whether the ticket is still armed.
    pub fn is_armed(&self, tk: Timeout) -> (r: bool)
        ensures
            r == self.timers().contains_key(tk.0),
    {
        self.timers.contains_key(&tk.0)
    }

    /// Whether the loop was asked to exit.
    pub fn is_shutdown(&self) -> (r: bool)
        ensures
            r == self.shutdown_requested(),
    {
        self.shutdown
    }

    /// The token and delay an armed ticket was armed with.
    pub fn armed_for(&self, tk: Timeout) -> (r: Option<(Token, u64)>)
        ensures
            r == (if self.timers().contains_key(tk.0) {
                Some(self.timers()[tk.0])
            } else {
                None
            }),
    {
        match self.timers.get(&tk.0) {
            Some(v) => Some(*v),
            None => None,
        }
    }

    /// Whether a handle is registered in the poller.
    pub fn is_registered(&self, io: u64) -> (r: bool)
        ensures
            r == self.registrations().contains_key(io),
    {
        self.regs.contains_key(&io)
    }
}

impl LoopApi for TestApi {
    type Io = u64;

    open spec fn io_key(io: &u64) -> u64 {
        *io
    }

    closed spec fn registrations(&self) -> Map<u64, (Token, EventSet, PollOpt)> {
        self.regs@
    }

    closed spec fn timers(&self) -> Map<u64, (Token, u64)> {
        self.timers@
    }

    closed spec fn shutdown_requested(&self) -> bool {
        self.shutdown
    }

    fn register(&mut self, io: &u64, token: Token, interest: EventSet, opt: PollOpt) -> (r: Result<
        (),
        IoError,
    >) {
        self.regs.insert(*io, (token, interest, opt));
        Ok(())
    }

    fn reregister(&mut self, io: &u64, token: Token, interest: EventSet, opt: PollOpt) -> (r:
        Result<(), IoError>) {
        self.regs.insert(*io, (token, interest, opt));
        Ok(())
    }

    fn deregister(&mut self, io: &u64) -> (r: Result<(), IoError>) {
        self.regs.remove(io);
        Ok(())
    }

    fn timeout_ms(&mut self, token: Token, delay: u64) -> (r: Result<Timeout, TimerError>) {
        let tk = self.next_ticket;
        if tk == u64::MAX || self.timers.contains_key(&tk) {
            return Err(TimerError);
        }
        self.next_ticket = tk + 1;
        self.timers.insert(tk, (token, delay));
        Ok(Timeout(tk))
    }

    fn clear_timeout(&mut self, tk: Timeout) -> (hit: bool) {
        let hit = self.timers.contains_key(&tk.0);
        self.timers.remove(&tk.0);
        hit
    }

    fn shutdown(&mut self) {
        self.shutdown = true;
    }
}

} // verus!
