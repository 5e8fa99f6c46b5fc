//! Event-loop configuration.

use vstd::prelude::*;

use crate::slab::Slab;

verus! {

/// Tunables for one event loop.
#[derive(Debug, Clone)]
pub struct Config {
    slab_capacity: usize,
}

impl Config {
    /// The configured bound on concurrent machines.
    pub closed spec fn spec_slab_capacity(&self) -> usize {
        self.slab_capacity
    }

    /// A configuration with default options.
    pub fn new() -> (r: Config)
        ensures
            r.spec_slab_capacity() == 4096,
    {
        Config { slab_capacity: 4096 }
    }

    /// Bound the number of machines the loop can hold at once.
    pub fn slab_capacity(&mut self, capacity: usize)
        ensures
            final(self).spec_slab_capacity() == capacity,
    {
        self.slab_capacity = capacity;
    }
}

impl Default for Config {
    fn default() -> (r: Config)
        ensures
            r.spec_slab_capacity() == 4096,
    {
        Config::new()
    }
}

/// An empty machine pool of the configured capacity.
pub fn create_slab<M: Sized>(cfg: &Config) -> (r: Slab<M>)
    ensures
        r@.len() == cfg.spec_slab_capacity(),
        forall|i: int| 0 <= i < r@.len() ==> r@[i] is None,
{
    Slab::with_capacity(cfg.slab_capacity)
}

} // verus!
