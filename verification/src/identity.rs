use vstd::prelude::*;

verus! {

/// Relies on bevy_replicon's `ClientId`: the transport's opaque identifier
/// for the peer that sent an inbound message. This library never looks inside
/// such a value; it only copies the identity of a request's sender onto the
/// matching response, so the type stays opaque here.
#[verifier::external_type_specification]
#[verifier::external_body]
pub struct ExClientId(bevy_replicon::prelude::ClientId);

} // verus!
