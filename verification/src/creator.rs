//! Two-phase construction of an event loop.
//!
//! First a [`LoopCreator`] allocates the machine pool, before any
//! context exists; root machines whose notifiers should live inside the
//! context are added here.  Then [`LoopCreator::instantiate`] binds the
//! context, yielding a [`LoopInstance`] whose handler a driver feeds
//! with poller events.

use vstd::prelude::*;

use crate::config::{create_slab, Config};
use crate::error::SpawnError;
use crate::handler::{add_to_slab, cells_coupled, create_handler, Cell, Handler, Notify};
use crate::loop_api::{LoopApi, Token};
use crate::loop_time::Time;
use crate::machine::Machine;
use crate::slab::Slab;

verus! {

/// The first stage: a machine pool and a wakeup channel, no context yet.
pub struct LoopCreator<M: Machine<L>, L: LoopApi> {
    slab: Slab<Cell<M>>,
    channel: std::sync::mpsc::SyncSender<Notify>,
    services: core::marker::PhantomData<L>,
}

/// The second stage: the context is bound and events can be dispatched.
pub struct LoopInstance<M: Machine<L>, L: LoopApi> {
    /// The handler a driver feeds with readiness, timer and wakeup
    /// events.
    pub handler: Handler<M, L>,
}

impl<M: Machine<L>, L: LoopApi> LoopCreator<M, L> {
    /// The pool's contents, one optional cell per token.
    pub closed spec fn cells(&self) -> Seq<Option<Cell<M>>> {
        self.slab@
    }

    /// An empty loop of the configured capacity, over the sending end of
    /// the loop's wakeup channel.
    pub fn new(cfg: &Config, channel: std::sync::mpsc::SyncSender<Notify>) -> (r: LoopCreator<
        M,
        L,
    >)
        ensures
            r.cells().len() == cfg.spec_slab_capacity(),
            forall|i: int| 0 <= i < r.cells().len() ==> r.cells()[i] is None,
    {
        LoopCreator { slab: create_slab(cfg), channel, services: core::marker::PhantomData }
    }

    /// The sending end of this loop's wakeup channel.
    pub fn channel(&self) -> &std::sync::mpsc::SyncSender<Notify> {
        &self.channel
    }

    /// The first token whose slot is vacant, if the pool is not full.
    ///
    /// A root machine that must know its token before it exists — to
    /// register I/O or mint a notifier through an early scope — is built
    /// against this token and then installed with `add_machine`.
    pub fn vacant_token(&self) -> (r: Option<Token>)
        ensures
            match r {
                Some(t) => t.0 < self.cells().len() && self.cells()[t.0 as int] is None
                    && forall|j: int| 0 <= j < t.0 ==> self.cells()[j] is Some,
                None => forall|j: int| 0 <= j < self.cells().len() ==> self.cells()[j] is Some,
            },
    {
        match self.slab.find_vacant() {
            Some(i) => Some(Token(i)),
            None => None,
        }
    }

    /// Install a root machine into the first vacant slot.
    ///
    /// A bootstrap machine observes the loop's starting time; a deadline
    /// it asks for is armed against that time.
    pub fn add_machine(
        &mut self,
        api: &mut L,
        m: M,
        deadline: Option<Time>,
    ) -> (r: Result<Token, SpawnError<()>>)
        requires
            cells_coupled(old(self).cells(), old(api).timers()),
        ensures
            cells_coupled(final(self).cells(), final(api).timers()),
            final(self).cells().len() == old(self).cells().len(),
            final(api).registrations() == old(api).registrations(),
            final(api).shutdown_requested() == old(api).shutdown_requested(),
            match r {
                Ok(t) => t.0 < old(self).cells().len() && old(self).cells()[t.0 as int] is None
                    && (final(self).cells()[t.0 as int] matches Some(c) && c.1 == m
                        && (match (deadline, c.0) {
                        (Some(d), Some((_, td))) => td == d,
                        (None, None) => true,
                        _ => false,
                    }))
                    && (forall|j: int|
                        0 <= j < old(self).cells().len() && j != t.0
                            ==> final(self).cells()[j] == old(self).cells()[j]),
                Err(e) => *final(self) == *old(self) && final(api).timers() == old(api).timers()
                    && (e is NoSlabSpace ==> forall|j: int|
                        0 <= j < old(self).cells().len() ==> old(self).cells()[j] is Some) && (e
                    is UserError ==> deadline is Some),
            },
            deadline is None && (exists|j: int|
                0 <= j < old(self).cells().len() && old(self).cells()[j] is None) ==> r is Ok,
    {
        let now = Time::zero();
        add_to_slab(&mut self.slab, api, m, deadline, now)
    }

    /// Bind the context, moving to the second stage.
    pub fn instantiate(self, context: M::Context) -> (r: LoopInstance<M, L>)
        ensures
            r.handler.cells() == self.cells(),
            r.handler.spec_context() == context,
            r.handler.failure_log().len() == 0,
    {
        let LoopCreator { slab, channel, services: _ } = self;
        LoopInstance { handler: create_handler(slab, context, channel) }
    }
}

impl<M: Machine<L>, L: LoopApi> LoopInstance<M, L> {
    /// Install a further machine into the first vacant slot.
    pub fn add_machine(
        &mut self,
        api: &mut L,
        m: M,
        deadline: Option<Time>,
        now: Time,
    ) -> (r: Result<Token, SpawnError<()>>)
        requires
            now.0 >= 1,
            cells_coupled(old(self).handler.cells(), old(api).timers()),
        ensures
            cells_coupled(final(self).handler.cells(), final(api).timers()),
            final(self).handler.cells().len() == old(self).handler.cells().len(),
            final(api).registrations() == old(api).registrations(),
            final(api).shutdown_requested() == old(api).shutdown_requested(),
            match r {
                Ok(t) => t.0 < old(self).handler.cells().len()
                    && old(self).handler.cells()[t.0 as int] is None
                    && (forall|j: int| 0 <= j < t.0 ==> old(self).handler.cells()[j] is Some)
                    && (final(self).handler.cells()[t.0 as int] matches Some(c) && c.1 == m
                        && (match (deadline, c.0) {
                        (Some(d), Some((_, td))) => td == d,
                        (None, None) => true,
                        _ => false,
                    }))
                    && (forall|j: int|
                        0 <= j < old(self).handler.cells().len() && j != t.0
                            ==> final(self).handler.cells()[j] == old(self).handler.cells()[j]),
                Err(e) => final(self).handler.cells() == old(self).handler.cells()
                    && final(api).timers() == old(api).timers()
                    && (e is NoSlabSpace ==> forall|j: int|
                        0 <= j < old(self).handler.cells().len()
                            ==> old(self).handler.cells()[j] is Some) && (e is UserError
                    ==> deadline is Some),
            },
            deadline is None && (exists|j: int|
                0 <= j < old(self).handler.cells().len() && old(self).handler.cells()[j] is None)
                ==> r is Ok,
    {
        self.handler.add_machine(api, m, deadline, now)
    }
}

} // verus!
