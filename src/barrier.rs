//! A model of the barrier that separates prefilling from the measured
//! phase. The benchmark binary relies on bustle's own barrier for its runs.

use vstd::prelude::*;

verus! {

/// The start line of a run's measured phase. Each worker arrives once it
/// has finished prefilling; the barrier releases only when all have arrived.
#[derive(Debug)]
pub struct StartBarrier {
    arrived: Vec<bool>,
}

impl StartBarrier {
    /// The number of workers that must arrive.
    pub closed spec fn parties(&self) -> nat {
        self.arrived@.len()
    }

    /// Whether worker `w` has arrived.
    pub closed spec fn has_arrived(&self, w: int) -> bool {
        self.arrived@[w]
    }

    /// Every worker has arrived.
    pub open spec fn all_arrived(&self) -> bool {
        forall|w: int| 0 <= w < self.parties() ==> #[trigger] self.has_arrived(w)
    }

    /// A barrier for `threads` workers, none of which has arrived.
    pub fn new(threads: usize) -> (r: StartBarrier)
        ensures
            r.parties() == threads,
            forall|w: int| 0 <= w < threads ==> !#[trigger] r.has_arrived(w),
    {
        let mut arrived: Vec<bool> = Vec::new();
        let mut i: usize = 0;
        while i < threads
            invariant
                i <= threads,
                arrived@.len() == i,
                forall|w: int| 0 <= w < i ==> !arrived@[w],
            decreases threads - i,
        {
            arrived.push(false);
            i = i + 1;
        }
        StartBarrier { arrived }
    }

    /// Worker `w` has finished prefilling.
    pub fn arrive(&mut self, w: usize)
        requires
            w < old(self).parties(),
        ensures
            final(self).parties() == old(self).parties(),
            final(self).has_arrived(w as int),
            forall|v: int| 0 <= v < old(self).parties() && v != w ==> #[trigger] final(self).has_arrived(v)
                == old(self).has_arrived(v),
    {
        self.arrived.set(w, true);
    }

    /// Whether the measured phase may begin: true exactly when every
    /// worker has finished prefilling.
    pub fn released(&self) -> (r: bool)
        ensures
            r == self.all_arrived(),
    {
        let mut i: usize = 0;
        while i < self.arrived.len()
            invariant
                i <= self.parties(),
                forall|w: int| 0 <= w < i ==> #[trigger] self.has_arrived(w),
            decreases self.parties() - i,
        {
            if !self.arrived[i] {
                assert(!self.has_arrived(i as int));
                return false;
            }
            i = i + 1;
        }
        true
    }
}

} // verus!
