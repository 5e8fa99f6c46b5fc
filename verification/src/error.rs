//! Errors surfaced when a child machine cannot be installed.

use vstd::prelude::*;

verus! {

/// A diagnostic message reported by user code when a machine fails.
#[derive(Debug, Clone, PartialEq, Eq)]
pub struct Diagnostic {
    pub message: String,
}

impl Diagnostic {
    pub fn new(message: String) -> (r: Diagnostic)
        ensures
            r.message == message,
    {
        Diagnostic { message }
    }

    pub fn description(&self) -> (r: &str)
        ensures
            r@ == self.message@,
    {
        self.message.as_str()
    }
}

/// Why a requested child machine could not be installed.
#[derive(Debug)]
pub enum SpawnError<S: Sized> {
    /// The machine slab is at capacity.
    ///
    /// The item is the seed that was meant to create the machine, handed
    /// back unconsumed so the parent may retry later.
    NoSlabSpace(S),
    /// The machine's own constructor reported failure.
    UserError(Box<Diagnostic>),
}

impl<S> SpawnError<S> {
    pub fn description(&self) -> (r: &str)
        ensures
            self is NoSlabSpace ==> r@ == "state machine slab capacity limit is reached"@,
            forall|e: Box<Diagnostic>| *self == SpawnError::<S>::UserError(e) ==> r@ == e.message@,
    {
        match self {
            SpawnError::NoSlabSpace(_) => "state machine slab capacity limit is reached",
            SpawnError::UserError(err) => err.description(),
        }
    }

    pub fn cause(&self) -> (r: Option<&Diagnostic>)
        ensures
            self is NoSlabSpace ==> r is None,
            forall|e: Box<Diagnostic>| *self == SpawnError::<S>::UserError(e) ==> r == Some(&*e),
    {
        match self {
            SpawnError::NoSlabSpace(_) => None,
            SpawnError::UserError(err) => Some(&**err),
        }
    }

    /// Applies `fun` to the held seed, keeping a user error as it is.
    ///
    /// A slab-capacity error keeps carrying the (mapped) seed: no seed is
    /// lost by relabelling the error.
    pub fn map<T: Sized, F: FnOnce(S) -> T>(self, fun: F) -> (r: SpawnError<T>)
        requires
            forall|s: S| self == SpawnError::<S>::NoSlabSpace(s) ==> call_requires(fun, (s,)),
        ensures
            match (self, r) {
                (SpawnError::NoSlabSpace(s), SpawnError::NoSlabSpace(t)) => call_ensures(fun, (s,), t),
                (SpawnError::UserError(e), SpawnError::UserError(e2)) => e2 == e,
                _ => false,
            },
    {
        match self {
            SpawnError::NoSlabSpace(x) => SpawnError::NoSlabSpace(fun(x)),
            SpawnError::UserError(e) => SpawnError::UserError(e),
        }
    }
}

} // verus!
