use vstd::prelude::*;
use crate::counter::RequestCounter;
use crate::events::Request;
use crate::events::RequestEvent;

verus! {

/// The client-side request issuer for one request type. It owns that type's
/// sequence counter and a buffer of envelopes awaiting transmission; the
/// surrounding application hands the buffered envelopes to the transport with
/// `take_outgoing` and keeps the sender alive for the life of the connection.
pub struct RequestSender<R: Request> {
    counter: RequestCounter<R>,
    outgoing: Vec<RequestEvent<R>>,
    issued: Ghost<Seq<usize>>,
}

impl<R: Request> RequestSender<R> {
    /// How many requests this sender has issued over its lifetime.
    pub closed spec fn issued_count(&self) -> usize {
        self.counter.0
    }

    /// Every correlation index this sender has returned, in issuance order.
    pub closed spec fn issued_log(&self) -> Seq<usize> {
        self.issued@
    }

    /// The envelopes buffered for transmission, oldest first.
    pub closed spec fn pending(&self) -> Seq<RequestEvent<R>> {
        self.outgoing@
    }

    /// The sender's invariant: the indices returned so far are exactly
    /// 0, 1, ..., N-1 in issuance order, and the buffered envelopes are the
    /// most recently issued ones, still in issuance order, ending at N-1.
    pub open spec fn wf(&self) -> bool {
        &&& self.issued_log().len() == self.issued_count()
        &&& (forall|i: int| 0 <= i < self.issued_log().len() ==> self.issued_log()[i] == i)
        &&& self.pending().len() <= self.issued_count()
        &&& (forall|i: int| 0 <= i < self.pending().len()
                ==> #[trigger] self.pending()[i].idx()
                    == self.issued_count() - self.pending().len() + i)
    }

    /// A fresh sender for one request type: nothing issued, nothing buffered.
    pub fn new() -> (s: Self)
        ensures
            s.wf(),
            s.issued_count() == 0,
            s.pending().len() == 0,
            s.issued_log().len() == 0,
    {
        RequestSender {
            counter: RequestCounter::default(),
            outgoing: Vec::new(),
            issued: Ghost(Seq::empty()),
        }
    }

    /// How many requests this sender has issued so far, which is also the
    /// index the next issued request will receive.
    pub fn issued(&self) -> (n: usize)
        ensures
            n == self.issued_count(),
    {
        self.counter.0
    }

    /// Issues one request: allocates the next correlation index, buffers the
    /// envelope that wraps the payload with that index, and returns the index
    /// as the caller's correlation token. Indices are assigned in strict
    /// issuance order; they promise nothing about delivery or response order.
    pub fn send(&mut self, request: R) -> (index: usize)
        requires
            old(self).wf(),
            old(self).issued_count() < usize::MAX,
        ensures
            final(self).wf(),
            index == old(self).issued_count(),
            final(self).issued_count() == old(self).issued_count() + 1,
            final(self).issued_log() == old(self).issued_log().push(index),
            final(self).pending().len() == old(self).pending().len() + 1,
            (forall|i: int| 0 <= i < old(self).pending().len()
                ==> final(self).pending()[i] == old(self).pending()[i]),
            final(self).pending().last().payload() == request,
            final(self).pending().last().idx() == index,
    {
        let index: usize = self.counter.0;
        self.counter.0 = index + 1;
        let envelope = RequestEvent::new(request, index);
        self.outgoing.push(envelope);
        proof {
            self.issued@ = self.issued@.push(index);
        }
        index
    }

    /// Hands every buffered envelope to the caller for transmission, oldest
    /// first, leaving the buffer empty. The counter and the issuance log are
    /// untouched.
    pub fn take_outgoing(&mut self) -> (batch: Vec<RequestEvent<R>>)
        requires
            old(self).wf(),
        ensures
            final(self).wf(),
            batch@ == old(self).pending(),
            final(self).pending().len() == 0,
            final(self).issued_count() == old(self).issued_count(),
            final(self).issued_log() == old(self).issued_log(),
    {
        let mut batch: Vec<RequestEvent<R>> = Vec::new();
        core::mem::swap(&mut self.outgoing, &mut batch);
        batch
    }
}

} // verus!
