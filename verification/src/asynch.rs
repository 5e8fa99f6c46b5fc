//! A small combinator for handlers that may send, yield or stop.

use vstd::prelude::*;

verus! {

/// The outcome of a handler that may hand a value on (`Send`), yield a
/// piece of state (`Yield`), do both (`Return`), keep going unchanged
/// (`Ignore`) or end (`Stop`).
#[derive(PartialEq, Eq, Debug)]
#[must_use]
pub enum Async<M: Sized, V: Sized, S: Sized> {
    Send(M, V),
    Yield(M, S),
    Return(M, V, S),
    Ignore(M),
    Stop,
}

impl<M: Sized, V: Sized, S: Sized> Async<M, V, S> {
    /// Applies `f` to the carried machine, keeping the shape.
    pub fn map<T, F: FnOnce(M) -> T>(self, f: F) -> (r: Async<T, V, S>)
        requires
            match self {
                Async::Send(m, _) => call_requires(f, (m,)),
                Async::Yield(m, _) => call_requires(f, (m,)),
                Async::Return(m, _, _) => call_requires(f, (m,)),
                Async::Ignore(m) => call_requires(f, (m,)),
                Async::Stop => true,
            },
        ensures
            match (self, r) {
                (Async::Send(m, v), Async::Send(m2, v2)) => call_ensures(f, (m,), m2) && v2 == v,
                (Async::Yield(m, s), Async::Yield(m2, s2)) => call_ensures(f, (m,), m2) && s2 == s,
                (Async::Return(m, v, s), Async::Return(m2, v2, s2)) => call_ensures(f, (m,), m2)
                    && v2 == v && s2 == s,
                (Async::Ignore(m), Async::Ignore(m2)) => call_ensures(f, (m,), m2),
                (Async::Stop, Async::Stop) => true,
                _ => false,
            },
    {
        match self {
            Async::Send(m, v) => Async::Send(f(m), v),
            Async::Yield(m, s) => Async::Yield(f(m), s),
            Async::Return(m, v, s) => Async::Return(f(m), v, s),
            Async::Ignore(m) => Async::Ignore(f(m)),
            Async::Stop => Async::Stop,
        }
    }

    /// Applies `f` to the carried value, keeping the shape.
    pub fn map_result<R, F: FnOnce(V) -> R>(self, f: F) -> (r: Async<M, R, S>)
        requires
            match self {
                Async::Send(_, v) => call_requires(f, (v,)),
                Async::Return(_, v, _) => call_requires(f, (v,)),
                _ => true,
            },
        ensures
            match (self, r) {
                (Async::Send(m, v), Async::Send(m2, v2)) => m2 == m && call_ensures(f, (v,), v2),
                (Async::Yield(m, s), Async::Yield(m2, s2)) => m2 == m && s2 == s,
                (Async::Return(m, v, s), Async::Return(m2, v2, s2)) => m2 == m && call_ensures(
                    f,
                    (v,),
                    v2,
                ) && s2 == s,
                (Async::Ignore(m), Async::Ignore(m2)) => m2 == m,
                (Async::Stop, Async::Stop) => true,
                _ => false,
            },
    {
        match self {
            Async::Send(m, v) => Async::Send(m, f(v)),
            Async::Yield(m, s) => Async::Yield(m, s),
            Async::Return(m, v, s) => Async::Return(m, f(v), s),
            Async::Ignore(m) => Async::Ignore(m),
            Async::Stop => Async::Stop,
        }
    }

    /// Applies `f` to the carried machine and keeps only its result;
    /// nothing when the handler stopped.
    pub fn done<R, F: FnOnce(M) -> R>(self, f: F) -> (r: Option<R>)
        requires
            match self {
                Async::Send(m, _) => call_requires(f, (m,)),
                Async::Yield(m, _) => call_requires(f, (m,)),
                Async::Return(m, _, _) => call_requires(f, (m,)),
                Async::Ignore(m) => call_requires(f, (m,)),
                Async::Stop => true,
            },
        ensures
            match (self, r) {
                (Async::Send(m, _), Some(x)) => call_ensures(f, (m,), x),
                (Async::Yield(m, _), Some(x)) => call_ensures(f, (m,), x),
                (Async::Return(m, _, _), Some(x)) => call_ensures(f, (m,), x),
                (Async::Ignore(m), Some(x)) => call_ensures(f, (m,), x),
                (Async::Stop, None) => true,
                _ => false,
            },
    {
        match self {
            Async::Send(m, _) => Some(f(m)),
            Async::Yield(m, _) => Some(f(m)),
            Async::Return(m, _, _) => Some(f(m)),
            Async::Ignore(m) => Some(f(m)),
            Async::Stop => None,
        }
    }
}

} // verus!
