//! The contract every state machine on the loop implements.

use vstd::prelude::*;

use crate::Response;
use crate::error::SpawnError;
use crate::loop_api::{EventSet, LoopApi};
use crate::scope::Scope;

verus! {

/// A state machine driven by the event loop.
///
/// The trait is generic over the loop services `L`, so a machine built
/// for a concrete poller can register its own handle type through them.
/// Every method consumes the machine and returns a [`Response`] carrying
/// its successor.  Each method also promises to leave the timer wheel's
/// armed set as it found it: deadlines are managed only through the
/// response, so the loop's timer bookkeeping stays sound whatever a
/// machine does with its scope.
pub trait Machine<L: LoopApi>: Sized {
    /// The loop-wide shared state all machines see through their scope.
    type Context;

    /// What a parent hands the loop to construct a child machine.
    type Seed: Sized;

    /// Build a machine from a seed; called by the loop itself when a
    /// parent's response carried one.
    ///
    /// A construction may fail (`error`) or decline (`done`), but it may
    /// not spawn: chains of spawns begin only after the first event.
    fn create(
        seed: Self::Seed,
        scope: &mut Scope<'_, Self::Context>,
        api: &mut L,
    ) -> (r: Response<Self, Self::Seed>)
        ensures
            final(api).timers() == old(api).timers(),
            !r.is_spawn(),
    ;

    /// Readiness was reported for an interest registered under this
    /// machine's token.
    fn ready(
        self,
        events: EventSet,
        scope: &mut Scope<'_, Self::Context>,
        api: &mut L,
    ) -> (r: Response<Self, Self::Seed>)
        ensures
            final(api).timers() == old(api).timers(),
    ;

    /// The loop installed the child this machine's last response asked
    /// for; a listening machine may immediately ask for another.
    fn spawned(self, scope: &mut Scope<'_, Self::Context>, api: &mut L) -> (r:
        Response<Self, Self::Seed>)
        ensures
            final(api).timers() == old(api).timers(),
    ;

    /// The child this machine asked for could not be installed.
    ///
    /// A capacity failure hands the seed back untouched; the parent may
    /// keep it and retry later, once a slot is free again.  Spawning
    /// again right away would only fail the same way, so a response from
    /// here never spawns.  The default policy is to terminate the parent.
    fn spawn_error(
        self,
        _scope: &mut Scope<'_, Self::Context>,
        _api: &mut L,
        _error: SpawnError<Self::Seed>,
    ) -> (r: Response<Self, Self::Seed>)
        ensures
            final(_api).timers() == old(_api).timers(),
            !r.is_spawn(),
    {
        Response::done()
    }

    /// This machine's deadline fired.
    fn timeout(self, scope: &mut Scope<'_, Self::Context>, api: &mut L) -> (r:
        Response<Self, Self::Seed>)
        ensures
            final(api).timers() == old(api).timers(),
    ;

    /// A wakeup was delivered for this machine's token.
    ///
    /// Tokens are reused quickly and wakeups travel asynchronously, so a
    /// wakeup may be spurious; an implementation must tolerate that.
    fn wakeup(self, scope: &mut Scope<'_, Self::Context>, api: &mut L) -> (r:
        Response<Self, Self::Seed>)
        ensures
            final(api).timers() == old(api).timers(),
    ;
}

} // verus!
