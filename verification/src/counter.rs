use vstd::prelude::*;
use core::marker::PhantomData;

verus! {

/// The per-request-type sequence counter. One instance exists per distinct
/// request type on the issuing side; it starts at zero, is incremented exactly
/// once per issued request of that type, and is never reset or decremented.
pub struct RequestCounter<R>(pub(crate) usize, pub(crate) PhantomData<R>);

impl<R> RequestCounter<R> {
    /// The index the next issued request of this type will receive, which is
    /// also how many requests of this type have been issued so far.
    pub open(crate) spec fn next_index(&self) -> usize {
        self.0
    }
}

impl<R> Default for RequestCounter<R> {
    /// A fresh counter: the first request of this type gets index zero.
    fn default() -> (c: Self)
        ensures
            c.next_index() == 0,
    {
        RequestCounter(0, PhantomData)
    }
}

} // verus!
