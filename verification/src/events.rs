use vstd::prelude::*;

verus! {

/// A request payload type, tied at compile time to the type of response it
/// elicits. The association is fixed for the lifetime of the program: one
/// request type always answers with the same response type.
pub trait Request {
    type Response;
}

/// A request payload together with the correlation index the issuer assigned
/// to it. The index is unique within one request type and one sending peer;
/// it is the sole piece of data that later ties a response back to this
/// request.
pub struct RequestEvent<R: Request> {
    /// The application's request payload.
    pub request: R,
    pub(crate) index: usize,
}

impl<R: Request> RequestEvent<R> {
    /// The request payload carried by this envelope.
    pub open(crate) spec fn payload(&self) -> R {
        self.request
    }

    /// The correlation index carried by this envelope.
    pub open(crate) spec fn idx(&self) -> usize {
        self.index
    }

    /// Wraps a payload with the correlation index the issuer allocated for it.
    pub fn new(request: R, index: usize) -> (e: RequestEvent<R>)
        ensures
            e.payload() == request,
            e.idx() == index,
    {
        RequestEvent { request, index }
    }

    /// The correlation index carried by this envelope.
    pub fn index(&self) -> (i: usize)
        ensures
            i == self.idx(),
    {
        self.index
    }

    /// Computes the response to this request with the supplied handler and
    /// wraps it in an envelope that carries this request's index unchanged,
    /// whatever the handler returned.
    pub fn respond<F: FnOnce(&R) -> R::Response>(&self, f: F) -> (resp: ResponseEvent<R>)
        requires
            call_requires(f, (&self.payload(),)),
        ensures
            resp.idx() == self.idx(),
            call_ensures(f, (&self.payload(),), resp.payload()),
    {
        ResponseEvent { response: f(&self.request), index: self.index }
    }
}

/// A response payload together with the correlation index copied verbatim
/// from the request it answers. Index equality is the sole correlation
/// mechanism between the two envelopes.
pub struct ResponseEvent<R: Request> {
    /// The application's response payload, which may itself encode a
    /// success or a failure; this layer forwards it untouched.
    pub response: R::Response,
    pub(crate) index: usize,
}

impl<R: Request> ResponseEvent<R> {
    /// The response payload carried by this envelope.
    pub open(crate) spec fn payload(&self) -> R::Response {
        self.response
    }

    /// The correlation index carried by this envelope.
    pub open(crate) spec fn idx(&self) -> usize {
        self.index
    }

    /// Wraps a response payload with the index of the request it answers.
    pub fn new(response: R::Response, index: usize) -> (e: ResponseEvent<R>)
        ensures
            e.payload() == response,
            e.idx() == index,
    {
        ResponseEvent { response, index }
    }

    /// The correlation index, to be matched against the tokens the issuer
    /// returned.
    pub fn index(&self) -> (i: usize)
        ensures
            i == self.idx(),
    {
        self.index
    }
}

} // verus!
