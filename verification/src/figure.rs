//! Figures and figure-id allocation.
//!
//! A figure is identified by a monotonically increasing integer id that is
//! assigned at creation and never reused, even after the figure is deleted.
//! The drawable payload itself is opaque to the room core: it is carried as
//! bytes and never interpreted here.

use vstd::prelude::*;

verus! {

/// Opaque drawable payload of one figure. The room core stores and relays
/// these bytes; only the drawing layer outside the library interprets them.
#[derive(Debug, Clone, PartialEq, Eq)]
pub struct FigureData {
    pub payload: Vec<u8>,
}

impl View for FigureData {
    type V = Seq<u8>;

    open spec fn view(&self) -> Seq<u8> {
        self.payload@
    }
}

impl FigureData {
    pub fn new(payload: Vec<u8>) -> (r: FigureData)
        ensures
            r@ == payload@,
    {
        FigureData { payload }
    }

    /// An owned copy carrying the same payload bytes.
    pub fn duplicate(&self) -> (r: FigureData)
        ensures
            r@ == self@,
    {
        let mut payload: Vec<u8> = Vec::new();
        let n = self.payload.len();
        let mut i: usize = 0;
        while i < n
            invariant
                n == self.payload.len(),
                i <= n,
                payload@ == self.payload@.take(i as int),
            decreases n - i,
        {
            payload.push(self.payload[i]);
            proof {
                assert(payload@ =~= self.payload@.take(i + 1 as int));
            }
            i = i + 1;
        }
        proof {
            assert(payload@ =~= self.payload@);
        }
        FigureData { payload }
    }
}

/// Allocates figure ids: a monotonic counter, initialized once and never
/// reset, so that ids are unique for the allocator's whole lifetime and a
/// deleted figure's id is never revived.
pub struct FigureIdAllocator {
    next_id: usize,
}

impl FigureIdAllocator {
    /// The id the allocator will hand out next; every id allocated earlier
    /// is strictly below it.
    pub closed spec fn next(self) -> int {
        self.next_id as int
    }

    pub fn new() -> (r: FigureIdAllocator)
        ensures
            r.next() == 1,
    {
        FigureIdAllocator { next_id: 1 }
    }

    /// The id the next allocation will return, without advancing.
    pub fn peek_next(&self) -> (id: usize)
        ensures
            id == self.next(),
    {
        self.next_id
    }

    /// Hands out the next figure id and advances the counter, so no later
    /// call can return the same id again.
    pub fn allocate(&mut self) -> (id: usize)
        requires
            old(self).next() < usize::MAX,
        ensures
            id == old(self).next(),
            final(self).next() == old(self).next() + 1,
    {
        let id = self.next_id;
        self.next_id = self.next_id + 1;
        id
    }
}

} // verus!
