//! The pool of idle backend handles.

use std::collections::VecDeque;
use vstd::prelude::*;

verus! {

/// Idle handles, handed out first-in, first-out: the handle that was released
/// longest ago is reused first, which spreads reuse evenly and brings a stale
/// handle to light sooner.
///
/// The pool never creates a handle and never looks inside one. Creation is the
/// caller's business; the pool only says when it is needed. It has no upper
/// bound of its own: whoever admits the borrowers bounds it.
pub struct ResourcePool<H> {
    idle: VecDeque<H>,
}

impl<H> View for ResourcePool<H> {
    type V = Seq<H>;

    /// The idle handles, the one released longest ago first.
    closed spec fn view(&self) -> Seq<H> {
        self.idle@
    }
}

impl<H> ResourcePool<H> {
    /// A pool with no idle handle.
    pub fn new() -> (pool: Self)
        ensures
            pool@ == Seq::<H>::empty(),
    {
        ResourcePool { idle: VecDeque::new() }
    }

    /// Hands out the idle handle that was released longest ago. `None` means
    /// that no handle is idle and the borrower has to create one.
    pub fn acquire(&mut self) -> (handle: Option<H>)
        ensures
            match handle {
                Some(h) => old(self)@.len() > 0 && h == old(self)@.first() && final(self)@ == old(
                    self,
                )@.drop_first(),
                None => old(self)@.len() == 0 && final(self)@ == old(self)@,
            },
    {
        self.idle.pop_front()
    }

    /// Takes a handle back; it is handed out again after all that are idle now.
    /// A handle that failed in a way that makes it unusable must be dropped by
    /// the borrower instead.
    pub fn release(&mut self, handle: H)
        ensures
            final(self)@ == old(self)@.push(handle),
    {
        self.idle.push_back(handle);
    }

    /// The number of idle handles.
    pub fn idle_count(&self) -> (n: usize)
        ensures
            n == self@.len(),
    {
        self.idle.len()
    }
}

} // verus!
