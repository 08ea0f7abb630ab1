//! A record of released descriptors, in the order in which they were closed.
use vstd::prelude::*;

verus! {

/// The descriptors released so far, oldest first.
pub struct ReleaseLog<R> {
    entries: Vec<R>,
}

impl<R> View for ReleaseLog<R> {
    type V = Seq<R>;

    closed spec fn view(&self) -> Seq<R> {
        self.entries@
    }
}

impl<R: Copy> ReleaseLog<R> {
    /// A log in which nothing has been released.
    pub fn new() -> (log: Self)
        ensures
            log@ == Seq::<R>::empty(),
    {
        ReleaseLog { entries: Vec::new() }
    }

    /// How many releases have been recorded.
    pub fn len(&self) -> (n: usize)
        ensures
            n == self@.len(),
    {
        self.entries.len()
    }

    /// The `i`-th release, oldest first.
    pub fn entry(&self, i: usize) -> (r: R)
        requires
            i < self@.len(),
        ensures
            r == self@[i as int],
    {
        self.entries[i]
    }

    /// Records that `raw` was released.
    pub(crate) fn record(&mut self, raw: R)
        ensures
            final(self)@ == old(self)@.push(raw),
    {
        self.entries.push(raw);
    }
}

} // verus!
