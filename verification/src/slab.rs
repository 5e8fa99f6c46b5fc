//! A bounded pool of machine cells, keyed by dense tokens.
//!
//! The pool's length is fixed at creation; a token is an index.  Each
//! slot holds at most one cell, so a token can never denote two machines
//! at once.  A freed slot may be reused by a later insertion.

use vstd::prelude::*;

verus! {

/// A bounded, array-backed pool of cells.
pub struct Slab<A> {
    entries: Vec<Option<A>>,
}

/// How many slots of a pool are vacant.
pub open spec fn vacancies<A>(s: Seq<Option<A>>) -> nat
    decreases s.len(),
{
    if s.len() == 0 {
        0
    } else {
        vacancies(s.drop_last()) + if s.last() is None { 1nat } else { 0nat }
    }
}

pub proof fn lemma_vacancies_update<A>(s: Seq<Option<A>>, i: int, v: Option<A>)
    requires
        0 <= i < s.len(),
    ensures
        s[i] is None && v is Some ==> vacancies(s.update(i, v)) == vacancies(s) - 1,
        s[i] is Some && v is None ==> vacancies(s.update(i, v)) == vacancies(s) + 1,
        (s[i] is None) == (v is None) ==> vacancies(s.update(i, v)) == vacancies(s),
    decreases s.len(),
{
    if s.len() > 0 {
        if i == s.len() - 1 {
            assert(s.update(i, v).drop_last() =~= s.drop_last());
        } else {
            lemma_vacancies_update(s.drop_last(), i, v);
            assert(s.update(i, v).drop_last() =~= s.drop_last().update(i, v));
        }
    }
}

impl<A> Slab<A> {
    pub closed spec fn view(&self) -> Seq<Option<A>> {
        self.entries@
    }

    /// A pool of `capacity` slots, all vacant.
    pub fn with_capacity(capacity: usize) -> (r: Slab<A>)
        ensures
            r@.len() == capacity,
            forall|i: int| 0 <= i < capacity ==> r@[i] is None,
    {
        let mut entries: Vec<Option<A>> = Vec::new();
        let mut k: usize = 0;
        while k < capacity
            invariant
                entries@.len() == k,
                k <= capacity,
                forall|i: int| 0 <= i < k ==> entries@[i] is None,
            decreases capacity - k,
        {
            entries.push(None);
            k = k + 1;
        }
        Slab { entries }
    }

    pub fn capacity(&self) -> (r: usize)
        ensures
            r == self@.len(),
    {
        self.entries.len()
    }

    /// Whether the slot at `i` holds a cell.
    pub fn is_occupied(&self, i: usize) -> (r: bool)
        requires
            i < self@.len(),
        ensures
            r == (self@[i as int] is Some),
    {
        self.entries[i].is_some()
    }

    /// A borrow of the cell at `i`, if one is there.
    pub fn get(&self, i: usize) -> (r: Option<&A>)
        requires
            i < self@.len(),
        ensures
            match r {
                Some(a) => self@[i as int] == Some(*a),
                None => self@[i as int] is None,
            },
    {
        self.entries[i].as_ref()
    }

    /// Move the cell at `i` out, leaving the slot vacant.
    pub fn take(&mut self, i: usize) -> (r: Option<A>)
        requires
            i < old(self)@.len(),
        ensures
            r == old(self)@[i as int],
            final(self)@ == old(self)@.update(i as int, None::<A>),
    {
        self.entries[i].take()
    }

    /// Put a cell into the vacant slot at `i`.
    pub fn put(&mut self, i: usize, a: A)
        requires
            i < old(self)@.len(),
            old(self)@[i as int] is None,
        ensures
            final(self)@ == old(self)@.update(i as int, Some(a)),
            vacancies(final(self)@) == vacancies(old(self)@) - 1,
    {
        proof {
            lemma_vacancies_update(self@, i as int, Some(a));
        }
        self.entries[i] = Some(a);
    }

    /// Put a cell back into the slot at `i`, whatever the slot held.
    pub fn replace(&mut self, i: usize, a: A)
        requires
            i < old(self)@.len(),
        ensures
            final(self)@ == old(self)@.update(i as int, Some(a)),
    {
        self.entries[i] = Some(a);
    }

    /// The first vacant slot, if the pool is not at capacity.
    pub fn find_vacant(&self) -> (r: Option<usize>)
        ensures
            match r {
                Some(i) => i < self@.len() && self@[i as int] is None
                    && forall|j: int| 0 <= j < i ==> self@[j] is Some,
                None => forall|j: int| 0 <= j < self@.len() ==> self@[j] is Some,
            },
    {
        let n = self.entries.len();
        let mut k: usize = 0;
        while k < n
            invariant
                k <= n,
                n == self@.len(),
                forall|j: int| 0 <= j < k ==> self@[j] is Some,
            decreases n - k,
        {
            if self.entries[k].is_none() {
                return Some(k);
            }
            k = k + 1;
        }
        None
    }

    /// How many slots hold a cell.
    pub fn count(&self) -> (r: usize)
        ensures
            r == self@.len() - vacancies(self@),
    {
        let n = self.entries.len();
        let mut k: usize = 0;
        let mut c: usize = 0;
        proof {
            assert(vacancies(self@.take(0)) == 0);
        }
        while k < n
            invariant
                k <= n,
                n == self@.len(),
                c == k - vacancies(self@.take(k as int)),
                c <= k,
            decreases n - k,
        {
            proof {
                assert(self@.take(k as int + 1).drop_last() =~= self@.take(k as int));
                assert(self@.take(k as int + 1).last() == self@[k as int]);
            }
            if self.entries[k].is_some() {
                c = c + 1;
            }
            k = k + 1;
        }
        proof {
            assert(self@.take(n as int) =~= self@);
        }
        c
    }
}

} // verus!
