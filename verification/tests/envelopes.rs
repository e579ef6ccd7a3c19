use bevy_replicon_request::{Request, RequestEvent, ResponseEvent};

struct Sum(u32, u32);

impl Request for Sum {
    type Response = u32;
}

#[test]
fn request_envelope_exposes_payload_and_index() {
    let envelope = RequestEvent::new(Sum(2, 3), 41);
    assert_eq!(envelope.index(), 41);
    assert_eq!(envelope.request.0, 2);
    assert_eq!(envelope.request.1, 3);
}

#[test]
fn respond_computes_with_the_handler_and_copies_the_index() {
    let envelope = RequestEvent::new(Sum(2, 3), 41);
    let response = envelope.respond(|s: &Sum| s.0 + s.1);
    assert_eq!(response.index(), 41);
    assert_eq!(response.response, 5);
}

#[test]
fn response_envelope_exposes_payload_and_index() {
    let envelope: ResponseEvent<Sum> = ResponseEvent::new(7, 13);
    assert_eq!(envelope.index(), 13);
    assert_eq!(envelope.response, 7);
}
