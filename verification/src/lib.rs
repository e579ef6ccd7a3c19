//! A typed request/response layer over a client-server replication transport.
//!
//! A client issues a typed request and gets back a correlation index; the
//! server drains buffered requests, computes one response per request with an
//! application handler, and addresses each response to the peer that sent the
//! request, carrying the request's index unchanged. Matching a response's
//! index against previously returned tokens is left to application code.

mod counter;
mod events;
mod handler;
mod identity;
mod laws;
mod sender;

pub use counter::RequestCounter;
pub use events::Request;
pub use events::RequestEvent;
pub use events::ResponseEvent;
pub use handler::RequestHandler;
pub use laws::Lane;
pub use laws::indices_on;
pub use laws::lemma_counters_independent;
pub use laws::lemma_issued_indices_unique;
pub use laws::sends_on;
pub use sender::RequestSender;
