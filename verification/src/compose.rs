//! Composing two machines under one dispatch.
//!
//! Two sibling machine kinds may share a loop by embedding them in a
//! tagged union.  The wrapper dispatches each method to the active
//! variant and relabels the returned response: the machine keeps its
//! variant, and a carried seed gets the correspondingly tagged seed
//! variant, so the two seed types stay disjoint.

use vstd::prelude::*;

use crate::Response;
use crate::error::SpawnError;
use crate::loop_api::{EventSet, LoopApi};
use crate::machine::Machine;
use crate::response::ResponseImpl;
use crate::scope::Scope;

verus! {

/// Two state machines mounted under one token namespace.
pub enum Compose2<A: Sized, B: Sized> {
    A(A),
    B(B),
}

/// The seed of a composed machine: tagged with the variant it creates.
pub enum Compose2Seed<A: Sized, B: Sized> {
    As(A),
    Bs(B),
}

/// A response of the composed machine stays in the first variant: the
/// carried machine is `A`-tagged and a carried seed is `As`-tagged.
pub open spec fn stays_a<AM, BM, AS, BS>(
    r: ResponseImpl<Compose2<AM, BM>, Compose2Seed<AS, BS>>,
) -> bool {
    &&& (r matches ResponseImpl::Normal(m) ==> m is A)
    &&& (r matches ResponseImpl::Deadline(m, _) ==> m is A)
    &&& (r matches ResponseImpl::Spawn(m, s) ==> m is A && s is As)
}

/// A response of the composed machine stays in the second variant.
pub open spec fn stays_b<AM, BM, AS, BS>(
    r: ResponseImpl<Compose2<AM, BM>, Compose2Seed<AS, BS>>,
) -> bool {
    &&& (r matches ResponseImpl::Normal(m) ==> m is B)
    &&& (r matches ResponseImpl::Deadline(m, _) ==> m is B)
    &&& (r matches ResponseImpl::Spawn(m, s) ==> m is B && s is Bs)
}

impl<X, L: LoopApi, AA, BB> Machine<L> for Compose2<AA, BB> where
    AA: Machine<L, Context = X>,
    BB: Machine<L, Context = X>,
 {
    type Context = X;

    type Seed = Compose2Seed<AA::Seed, BB::Seed>;

    fn create(
        seed: Self::Seed,
        scope: &mut Scope<'_, X>,
        api: &mut L,
    ) -> (r: Response<Self, Self::Seed>)
        ensures
            seed is As ==> stays_a(r.0),
            seed is Bs ==> stays_b(r.0),
    {
        match seed {
            Compose2Seed::As(s) => AA::create(s, scope, api).map(
                (|m: AA| -> (t: Compose2<AA, BB>)
                    ensures
                        t == Compose2::<AA, BB>::A(m),
                    { Compose2::A(m) }),
                (|n: AA::Seed| -> (t: Compose2Seed<AA::Seed, BB::Seed>)
                    ensures
                        t == Compose2Seed::<AA::Seed, BB::Seed>::As(n),
                    { Compose2Seed::As(n) }),
            ),
            Compose2Seed::Bs(s) => BB::create(s, scope, api).map(
                (|m: BB| -> (t: Compose2<AA, BB>)
                    ensures
                        t == Compose2::<AA, BB>::B(m),
                    { Compose2::B(m) }),
                (|n: BB::Seed| -> (t: Compose2Seed<AA::Seed, BB::Seed>)
                    ensures
                        t == Compose2Seed::<AA::Seed, BB::Seed>::Bs(n),
                    { Compose2Seed::Bs(n) }),
            ),
        }
    }

    fn ready(
        self,
        events: EventSet,
        scope: &mut Scope<'_, X>,
        api: &mut L,
    ) -> (r: Response<Self, Self::Seed>)
        ensures
            self is A ==> stays_a(r.0),
            self is B ==> stays_b(r.0),
    {
        match self {
            Compose2::A(m) => m.ready(events, scope, api).map(
                (|m2: AA| -> (t: Compose2<AA, BB>)
                    ensures
                        t == Compose2::<AA, BB>::A(m2),
                    { Compose2::A(m2) }),
                (|n: AA::Seed| -> (t: Compose2Seed<AA::Seed, BB::Seed>)
                    ensures
                        t == Compose2Seed::<AA::Seed, BB::Seed>::As(n),
                    { Compose2Seed::As(n) }),
            ),
            Compose2::B(m) => m.ready(events, scope, api).map(
                (|m2: BB| -> (t: Compose2<AA, BB>)
                    ensures
                        t == Compose2::<AA, BB>::B(m2),
                    { Compose2::B(m2) }),
                (|n: BB::Seed| -> (t: Compose2Seed<AA::Seed, BB::Seed>)
                    ensures
                        t == Compose2Seed::<AA::Seed, BB::Seed>::Bs(n),
                    { Compose2Seed::Bs(n) }),
            ),
        }
    }

    fn spawned(self, scope: &mut Scope<'_, X>, api: &mut L) -> (r: Response<
        Self,
        Self::Seed,
    >)
        ensures
            self is A ==> stays_a(r.0),
            self is B ==> stays_b(r.0),
    {
        match self {
            Compose2::A(m) => m.spawned(scope, api).map(
                (|m2: AA| -> (t: Compose2<AA, BB>)
                    ensures
                        t == Compose2::<AA, BB>::A(m2),
                    { Compose2::A(m2) }),
                (|n: AA::Seed| -> (t: Compose2Seed<AA::Seed, BB::Seed>)
                    ensures
                        t == Compose2Seed::<AA::Seed, BB::Seed>::As(n),
                    { Compose2Seed::As(n) }),
            ),
            Compose2::B(m) => m.spawned(scope, api).map(
                (|m2: BB| -> (t: Compose2<AA, BB>)
                    ensures
                        t == Compose2::<AA, BB>::B(m2),
                    { Compose2::B(m2) }),
                (|n: BB::Seed| -> (t: Compose2Seed<AA::Seed, BB::Seed>)
                    ensures
                        t == Compose2Seed::<AA::Seed, BB::Seed>::Bs(n),
                    { Compose2Seed::Bs(n) }),
            ),
        }
    }

    /// A spawn failure is delivered to the active variant with its seed
    /// relabelled back to the variant's own seed type.  A capacity error
    /// carrying the other variant's seed cannot come back from the loop
    /// (each variant spawns only its own seeds); on such a call the
    /// composed machine ends.
    fn spawn_error(
        self,
        scope: &mut Scope<'_, X>,
        api: &mut L,
        error: SpawnError<Self::Seed>,
    ) -> (r: Response<Self, Self::Seed>)
        ensures
            self is A ==> stays_a(r.0),
            self is B ==> stays_b(r.0),
    {
        match (self, error) {
            (Compose2::A(m), SpawnError::NoSlabSpace(Compose2Seed::As(s))) => m.spawn_error(
                scope,
                api,
                SpawnError::NoSlabSpace(s),
            ).map(
                (|m2: AA| -> (t: Compose2<AA, BB>)
                    ensures
                        t == Compose2::<AA, BB>::A(m2),
                    { Compose2::A(m2) }),
                (|n: AA::Seed| -> (t: Compose2Seed<AA::Seed, BB::Seed>)
                    ensures
                        t == Compose2Seed::<AA::Seed, BB::Seed>::As(n),
                    { Compose2Seed::As(n) }),
            ),
            (Compose2::A(m), SpawnError::UserError(e)) => m.spawn_error(
                scope,
                api,
                SpawnError::UserError(e),
            ).map(
                (|m2: AA| -> (t: Compose2<AA, BB>)
                    ensures
                        t == Compose2::<AA, BB>::A(m2),
                    { Compose2::A(m2) }),
                (|n: AA::Seed| -> (t: Compose2Seed<AA::Seed, BB::Seed>)
                    ensures
                        t == Compose2Seed::<AA::Seed, BB::Seed>::As(n),
                    { Compose2Seed::As(n) }),
            ),
            (Compose2::B(m), SpawnError::NoSlabSpace(Compose2Seed::Bs(s))) => m.spawn_error(
                scope,
                api,
                SpawnError::NoSlabSpace(s),
            ).map(
                (|m2: BB| -> (t: Compose2<AA, BB>)
                    ensures
                        t == Compose2::<AA, BB>::B(m2),
                    { Compose2::B(m2) }),
                (|n: BB::Seed| -> (t: Compose2Seed<AA::Seed, BB::Seed>)
                    ensures
                        t == Compose2Seed::<AA::Seed, BB::Seed>::Bs(n),
                    { Compose2Seed::Bs(n) }),
            ),
            (Compose2::B(m), SpawnError::UserError(e)) => m.spawn_error(
                scope,
                api,
                SpawnError::UserError(e),
            ).map(
                (|m2: BB| -> (t: Compose2<AA, BB>)
                    ensures
                        t == Compose2::<AA, BB>::B(m2),
                    { Compose2::B(m2) }),
                (|n: BB::Seed| -> (t: Compose2Seed<AA::Seed, BB::Seed>)
                    ensures
                        t == Compose2Seed::<AA::Seed, BB::Seed>::Bs(n),
                    { Compose2Seed::Bs(n) }),
            ),
            (Compose2::A(_), SpawnError::NoSlabSpace(Compose2Seed::Bs(_))) => Response::done(),
            (Compose2::B(_), SpawnError::NoSlabSpace(Compose2Seed::As(_))) => Response::done(),
        }
    }

    fn timeout(self, scope: &mut Scope<'_, X>, api: &mut L) -> (r: Response<
        Self,
        Self::Seed,
    >)
        ensures
            self is A ==> stays_a(r.0),
            self is B ==> stays_b(r.0),
    {
        match self {
            Compose2::A(m) => m.timeout(scope, api).map(
                (|m2: AA| -> (t: Compose2<AA, BB>)
                    ensures
                        t == Compose2::<AA, BB>::A(m2),
                    { Compose2::A(m2) }),
                (|n: AA::Seed| -> (t: Compose2Seed<AA::Seed, BB::Seed>)
                    ensures
                        t == Compose2Seed::<AA::Seed, BB::Seed>::As(n),
                    { Compose2Seed::As(n) }),
            ),
            Compose2::B(m) => m.timeout(scope, api).map(
                (|m2: BB| -> (t: Compose2<AA, BB>)
                    ensures
                        t == Compose2::<AA, BB>::B(m2),
                    { Compose2::B(m2) }),
                (|n: BB::Seed| -> (t: Compose2Seed<AA::Seed, BB::Seed>)
                    ensures
                        t == Compose2Seed::<AA::Seed, BB::Seed>::Bs(n),
                    { Compose2Seed::Bs(n) }),
            ),
        }
    }

    fn wakeup(self, scope: &mut Scope<'_, X>, api: &mut L) -> (r: Response<
        Self,
        Self::Seed,
    >)
        ensures
            self is A ==> stays_a(r.0),
            self is B ==> stays_b(r.0),
    {
        match self {
            Compose2::A(m) => m.wakeup(scope, api).map(
                (|m2: AA| -> (t: Compose2<AA, BB>)
                    ensures
                        t == Compose2::<AA, BB>::A(m2),
                    { Compose2::A(m2) }),
                (|n: AA::Seed| -> (t: Compose2Seed<AA::Seed, BB::Seed>)
                    ensures
                        t == Compose2Seed::<AA::Seed, BB::Seed>::As(n),
                    { Compose2Seed::As(n) }),
            ),
            Compose2::B(m) => m.wakeup(scope, api).map(
                (|m2: BB| -> (t: Compose2<AA, BB>)
                    ensures
                        t == Compose2::<AA, BB>::B(m2),
                    { Compose2::B(m2) }),
                (|n: BB::Seed| -> (t: Compose2Seed<AA::Seed, BB::Seed>)
                    ensures
                        t == Compose2Seed::<AA::Seed, BB::Seed>::Bs(n),
                    { Compose2Seed::Bs(n) }),
            ),
        }
    }
}

} // verus!
