//! Feeding machines into a loop from outside of it.

use vstd::prelude::*;

verus! {

/// Something that can accept a machine asynchronously, handing it back
/// when the receiving loop cannot take it.
pub trait AsyncAddMachine<M: Send>: Sized {
    fn async_add_machine(&mut self, m: M) -> Result<(), M>;
}

} // verus!
