//! The algebra of machine responses.
//!
//! Every event handler of a machine returns exactly one [`Response`]; the
//! dispatch loop consumes it atomically with the slot mutation.

use vstd::prelude::*;

use crate::Response;
use crate::error::Diagnostic;
use crate::loop_api::Token;
use crate::loop_time::Time;

verus! {

/// The five ways a machine may continue after an event.
#[derive(Debug)]
pub enum ResponseImpl<M, N> {
    /// Continue with this machine; clear any deadline.
    Normal(M),
    /// Continue with this machine; the deadline becomes this time.
    Deadline(M, Time),
    /// Continue with this machine and synchronously spawn a sibling from
    /// the seed.
    Spawn(M, N),
    /// Terminate with a diagnostic; the slot is freed.
    Error(Box<Diagnostic>),
    /// Terminate normally; the slot is freed.
    Done,
}

/// What `deadline` turns a response into: a continuation's deadline is
/// rewritten to `time`; the other shapes are out of its domain and kept.
pub open spec fn with_deadline<M, N>(r: ResponseImpl<M, N>, time: Time) -> ResponseImpl<M, N> {
    match r {
        ResponseImpl::Normal(m) => ResponseImpl::Deadline(m, time),
        ResponseImpl::Deadline(m, _) => ResponseImpl::Deadline(m, time),
        other => other,
    }
}

/// Rewriting a deadline is idempotent: setting the same time twice is the
/// same as setting it once.
pub proof fn lemma_deadline_idempotent<M, N>(r: ResponseImpl<M, N>, time: Time)
    ensures
        with_deadline(with_deadline(r, time), time) == with_deadline(r, time),
{
}

/// Every response is exactly one of the five shapes.
pub proof fn lemma_response_exclusive<M, N>(r: Response<M, N>)
    ensures
        (if r.is_normal() { 1int } else { 0 }) + (if r.is_deadline() { 1int } else { 0 })
            + (if r.is_spawn() { 1int } else { 0 }) + (if r.is_done() { 1int } else { 0 })
            + (if r.is_error() { 1int } else { 0 }) == 1,
{
}

impl<M: Sized, N: Sized> Response<M, N> {
    pub open spec fn is_normal(&self) -> bool {
        self.0 is Normal
    }

    pub open spec fn is_deadline(&self) -> bool {
        self.0 is Deadline
    }

    pub open spec fn is_spawn(&self) -> bool {
        self.0 is Spawn
    }

    pub open spec fn is_done(&self) -> bool {
        self.0 is Done
    }

    pub open spec fn is_error(&self) -> bool {
        self.0 is Error
    }

    /// Continue with `machine` and no deadline.
    pub fn ok(machine: M) -> (r: Response<M, N>)
        ensures
            r.0 == ResponseImpl::<M, N>::Normal(machine),
    {
        Response(ResponseImpl::Normal(machine))
    }

    /// Continue with `machine` and hand `result` to the loop as the seed
    /// of a sibling machine.
    pub fn spawn(machine: M, result: N) -> (r: Response<M, N>)
        ensures
            r.0 == ResponseImpl::<M, N>::Spawn(machine, result),
    {
        Response(ResponseImpl::Spawn(machine, result))
    }

    /// Terminate normally.
    pub fn done() -> (r: Response<M, N>)
        ensures
            r.0 == ResponseImpl::<M, N>::Done,
    {
        Response::<M, N>(ResponseImpl::Done)
    }

    /// Terminate with a diagnostic.
    pub fn error(e: Box<Diagnostic>) -> (r: Response<M, N>)
        ensures
            r.0 == ResponseImpl::<M, N>::Error(e),
    {
        Response::<M, N>(ResponseImpl::Error(e))
    }

    /// Attach a deadline to a continuation.
    ///
    /// Attaching one to a spawn or a termination is a usage error and is
    /// ruled out by the precondition: a timeout could never be delivered.
    pub fn deadline(self, time: Time) -> (r: Response<M, N>)
        requires
            self.is_normal() || self.is_deadline(),
        ensures
            r.0 == with_deadline(self.0, time),
    {
        let imp = match self.0 {
            ResponseImpl::Normal(x) => ResponseImpl::Deadline(x, time),
            ResponseImpl::Deadline(x, _) => ResponseImpl::Deadline(x, time),
            other => other,
        };
        Response(imp)
    }

    /// Maps the carried machine and the carried seed, if any, keeping the
    /// shape of the response.
    ///
    /// A composition wrapper delegates to a child and relabels the result
    /// through this; the wrapper's constructors are the usual mappers.
    pub fn map<T, U, S, R>(self, self_mapper: S, result_mapper: R) -> (r: Response<T, U>) where
        S: FnOnce(M) -> T,
        R: FnOnce(N) -> U,

        requires
            match self.0 {
                ResponseImpl::Normal(m) => call_requires(self_mapper, (m,)),
                ResponseImpl::Deadline(m, _) => call_requires(self_mapper, (m,)),
                ResponseImpl::Spawn(m, n) => call_requires(self_mapper, (m,))
                    && call_requires(result_mapper, (n,)),
                _ => true,
            },
        ensures
            match (self.0, r.0) {
                (ResponseImpl::Normal(m), ResponseImpl::Normal(m2)) =>
                    call_ensures(self_mapper, (m,), m2),
                (ResponseImpl::Deadline(m, t), ResponseImpl::Deadline(m2, t2)) =>
                    call_ensures(self_mapper, (m,), m2) && t2 == t,
                (ResponseImpl::Spawn(m, n), ResponseImpl::Spawn(m2, n2)) =>
                    call_ensures(self_mapper, (m,), m2) && call_ensures(result_mapper, (n,), n2),
                (ResponseImpl::Error(e), ResponseImpl::Error(e2)) => e2 == e,
                (ResponseImpl::Done, ResponseImpl::Done) => true,
                _ => false,
            },
    {
        let imp = match self.0 {
            ResponseImpl::Normal(m) => ResponseImpl::Normal(self_mapper(m)),
            ResponseImpl::Deadline(m, time) => ResponseImpl::Deadline(self_mapper(m), time),
            ResponseImpl::Spawn(m, n) => ResponseImpl::Spawn(self_mapper(m), result_mapper(n)),
            ResponseImpl::Done => ResponseImpl::Done,
            ResponseImpl::Error(e) => ResponseImpl::Error(e),
        };
        Response(imp)
    }

    /// Like `map`, but only the machine is relabelled; a carried seed is
    /// kept as it is.
    pub fn wrap<T, S>(self, self_mapper: S) -> (r: Response<T, N>) where S: FnOnce(M) -> T
        requires
            match self.0 {
                ResponseImpl::Normal(m) => call_requires(self_mapper, (m,)),
                ResponseImpl::Deadline(m, _) => call_requires(self_mapper, (m,)),
                ResponseImpl::Spawn(m, _) => call_requires(self_mapper, (m,)),
                _ => true,
            },
        ensures
            match (self.0, r.0) {
                (ResponseImpl::Normal(m), ResponseImpl::Normal(m2)) =>
                    call_ensures(self_mapper, (m,), m2),
                (ResponseImpl::Deadline(m, t), ResponseImpl::Deadline(m2, t2)) =>
                    call_ensures(self_mapper, (m,), m2) && t2 == t,
                (ResponseImpl::Spawn(m, n), ResponseImpl::Spawn(m2, n2)) =>
                    call_ensures(self_mapper, (m,), m2) && n2 == n,
                (ResponseImpl::Error(e), ResponseImpl::Error(e2)) => e2 == e,
                (ResponseImpl::Done, ResponseImpl::Done) => true,
                _ => false,
            },
    {
        let imp = match self.0 {
            ResponseImpl::Normal(m) => ResponseImpl::Normal(self_mapper(m)),
            ResponseImpl::Deadline(m, time) => ResponseImpl::Deadline(self_mapper(m), time),
            ResponseImpl::Spawn(m, n) => ResponseImpl::Spawn(self_mapper(m), n),
            ResponseImpl::Done => ResponseImpl::Done,
            ResponseImpl::Error(e) => ResponseImpl::Error(e),
        };
        Response(imp)
    }
}

/// Splits a response into what the loop stores back, what it spawns, and
/// the deadline it arms.
///
/// A termination comes out as `Err`: `Err(None)` for a normal end,
/// `Err(Some(_))` with the diagnostic for an error end.
pub fn decompose<M, N>(_token: Token, res: Response<M, N>) -> (r: (
    Result<M, Option<Box<Diagnostic>>>,
    Option<N>,
    Option<Time>,
))
    ensures
        match res.0 {
            ResponseImpl::Normal(m) => r == (Ok::<M, Option<Box<Diagnostic>>>(m), None::<N>, None::<Time>),
            ResponseImpl::Deadline(m, time) => r == (Ok::<M, Option<Box<Diagnostic>>>(m), None::<N>, Some(time)),
            ResponseImpl::Spawn(m, n) => r == (Ok::<M, Option<Box<Diagnostic>>>(m), Some(n), None::<Time>),
            ResponseImpl::Done => r == (Err::<M, Option<Box<Diagnostic>>>(None), None::<N>, None::<Time>),
            ResponseImpl::Error(e) => r == (Err::<M, Option<Box<Diagnostic>>>(Some(e)), None::<N>, None::<Time>),
        },
{
    match res.0 {
        ResponseImpl::Normal(m) => (Ok(m), None, None),
        ResponseImpl::Deadline(m, time) => (Ok(m), None, Some(time)),
        ResponseImpl::Spawn(m, n) => (Ok(m), Some(n), None),
        ResponseImpl::Done => (Err(None), None, None),
        ResponseImpl::Error(e) => (Err(Some(e)), None, None),
    }
}

/// The shape-preserving map on the response algebra, at the level of
/// mathematical functions.
pub open spec fn map_response<M, N, T, U>(
    r: ResponseImpl<M, N>,
    f: spec_fn(M) -> T,
    g: spec_fn(N) -> U,
) -> ResponseImpl<T, U> {
    match r {
        ResponseImpl::Normal(m) => ResponseImpl::Normal(f(m)),
        ResponseImpl::Deadline(m, t) => ResponseImpl::Deadline(f(m), t),
        ResponseImpl::Spawn(m, n) => ResponseImpl::Spawn(f(m), g(n)),
        ResponseImpl::Error(e) => ResponseImpl::Error(e),
        ResponseImpl::Done => ResponseImpl::Done,
    }
}

/// Mapping with the identity on both components is the identity: the map
/// on responses is a functor.
pub proof fn lemma_map_response_identity<M, N>(r: ResponseImpl<M, N>)
    ensures
        map_response(r, |m: M| m, |n: N| n) == r,
{
}

/// Mapping with composed functions equals mapping twice, inner functions
/// first: the map on responses is a functor.
pub proof fn lemma_map_response_compose<M, N, T, U, V, W>(
    r: ResponseImpl<M, N>,
    f: spec_fn(T) -> V,
    g: spec_fn(M) -> T,
    s: spec_fn(U) -> W,
    q: spec_fn(N) -> U,
)
    ensures
        map_response(map_response(r, g, q), f, s)
            == map_response(r, |m: M| f(g(m)), |n: N| s(q(n))),
{
}

} // verus!
