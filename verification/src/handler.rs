use vstd::prelude::*;
use bevy_replicon::prelude::ClientId;
use crate::events::Request;
use crate::events::RequestEvent;
use crate::events::ResponseEvent;

verus! {

/// The server-side responder for one request type. It owns a buffer of
/// inbound request envelopes, each tagged with the identity of the peer that
/// sent it, and a buffer of outbound responses, each addressed to a single
/// peer. The surrounding application fills the inbox from the transport with
/// `push_request` and hands the outbox to the transport with
/// `take_responses`; a response is only ever paired with one recipient, so
/// nothing this type produces can be broadcast.
pub struct RequestHandler<R: Request> {
    pub(crate) incoming: Vec<(ClientId, RequestEvent<R>)>,
    pub(crate) outgoing: Vec<(ClientId, ResponseEvent<R>)>,
}

impl<R: Request> RequestHandler<R> {
    /// The buffered inbound requests, in delivery order, each with its
    /// sender's identity.
    pub open(crate) spec fn inbox(&self) -> Seq<(ClientId, RequestEvent<R>)> {
        self.incoming@
    }

    /// The buffered outbound responses, in the order they were produced,
    /// each with the identity of the one peer it is addressed to.
    pub open(crate) spec fn outbox(&self) -> Seq<(ClientId, ResponseEvent<R>)> {
        self.outgoing@
    }

    /// A fresh handler with empty buffers.
    pub fn new() -> (h: Self)
        ensures
            h.inbox().len() == 0,
            h.outbox().len() == 0,
    {
        RequestHandler { incoming: Vec::new(), outgoing: Vec::new() }
    }

    /// Buffers one inbound request envelope, tagged with the identity of the
    /// peer that sent it, behind the requests already waiting.
    pub fn push_request(&mut self, sender: ClientId, event: RequestEvent<R>)
        ensures
            final(self).inbox() == old(self).inbox().push((sender, event)),
            final(self).outbox() == old(self).outbox(),
    {
        self.incoming.push((sender, event));
    }

    /// Drains every buffered request and answers each of them exactly once:
    /// for each inbound envelope, in delivery order, the handler `f` computes
    /// a response from the request payload, and the response envelope —
    /// carrying the request's correlation index unchanged — is buffered,
    /// addressed only to the peer that sent the request.
    pub fn handle_requests<F: Fn(&R) -> R::Response>(&mut self, f: F)
        requires
            forall|i: int| 0 <= i < old(self).inbox().len()
                ==> call_requires(f, (&old(self).inbox()[i].1.payload(),)),
        ensures
            final(self).inbox().len() == 0,
            final(self).outbox().len() == old(self).outbox().len() + old(self).inbox().len(),
            (forall|i: int| 0 <= i < old(self).outbox().len()
                ==> final(self).outbox()[i] == old(self).outbox()[i]),
            (forall|j: int| old(self).outbox().len() <= j < final(self).outbox().len()
                ==> (#[trigger] final(self).outbox()[j]).0
                    == old(self).inbox()[j - old(self).outbox().len()].0),
            (forall|j: int| old(self).outbox().len() <= j < final(self).outbox().len()
                ==> (#[trigger] final(self).outbox()[j]).1.idx()
                    == old(self).inbox()[j - old(self).outbox().len()].1.idx()),
            (forall|j: int| old(self).outbox().len() <= j < final(self).outbox().len()
                ==> call_ensures(
                    f,
                    (&old(self).inbox()[j - old(self).outbox().len()].1.payload(),),
                    (#[trigger] final(self).outbox()[j]).1.payload(),
                )),
    {
        let ghost inbox0 = self.incoming@;
        let ghost outbox0 = self.outgoing@;
        proof {
            assert(inbox0 == old(self).inbox());
        }
        let mut batch: Vec<(ClientId, RequestEvent<R>)> = Vec::new();
        core::mem::swap(&mut self.incoming, &mut batch);
        let n: usize = batch.len();
        let mut k: usize = 0;
        while k < n
            invariant
                n == inbox0.len(),
                batch@ == inbox0,
                0 <= k <= n,
                self.incoming@.len() == 0,
                self.outgoing@.len() == outbox0.len() + k,
                forall|i: int| 0 <= i < inbox0.len()
                    ==> call_requires(f, (&inbox0[i].1.payload(),)),
                forall|i: int| 0 <= i < outbox0.len()
                    ==> self.outgoing@[i] == outbox0[i],
                forall|j: int| outbox0.len() <= j < outbox0.len() + k
                    ==> (#[trigger] self.outgoing@[j]).0 == inbox0[j - outbox0.len()].0,
                forall|j: int| outbox0.len() <= j < outbox0.len() + k
                    ==> (#[trigger] self.outgoing@[j]).1.idx()
                        == inbox0[j - outbox0.len()].1.idx(),
                forall|j: int| outbox0.len() <= j < outbox0.len() + k
                    ==> call_ensures(
                        f,
                        (&inbox0[j - outbox0.len()].1.payload(),),
                        (#[trigger] self.outgoing@[j]).1.payload(),
                    ),
            decreases n - k,
        {
            let sender: ClientId = batch[k].0;
            let response = f(&batch[k].1.request);
            let envelope = ResponseEvent::new(response, batch[k].1.index());
            self.outgoing.push((sender, envelope));
            k = k + 1;
        }
    }

    /// Hands every buffered response to the caller for transmission, in the
    /// order they were produced, leaving the outbox empty. Each response is
    /// paired with the one peer it must be delivered to. The inbox is
    /// untouched.
    pub fn take_responses(&mut self) -> (batch: Vec<(ClientId, ResponseEvent<R>)>)
        ensures
            batch@ == old(self).outbox(),
            final(self).outbox().len() == 0,
            final(self).inbox() == old(self).inbox(),
    {
        let mut batch: Vec<(ClientId, ResponseEvent<R>)> = Vec::new();
        core::mem::swap(&mut self.outgoing, &mut batch);
        batch
    }
}

} // verus!
