use bevy_ecs::entity::{Entity, EntityIndex};
use bevy_replicon::prelude::ClientId;
use bevy_replicon_request::{Request, RequestEvent, RequestHandler, RequestSender};

struct Query(u32);

impl Request for Query {
    type Response = u32;
}

fn client(index: u32) -> ClientId {
    ClientId::Client(Entity::from_index(EntityIndex::from_raw_u32(index).unwrap()))
}

#[test]
fn response_carries_request_index_unchanged() {
    let mut handler: RequestHandler<Query> = RequestHandler::new();
    handler.push_request(client(1), RequestEvent::new(Query(10), 5));
    handler.push_request(client(1), RequestEvent::new(Query(20), 3));
    handler.handle_requests(|q: &Query| q.0 + 1);
    let responses = handler.take_responses();
    assert_eq!(responses.len(), 2);
    assert_eq!(responses[0].1.index(), 5);
    assert_eq!(responses[0].1.response, 11);
    assert_eq!(responses[1].1.index(), 3);
    assert_eq!(responses[1].1.response, 21);
}

#[test]
fn batch_of_m_requests_yields_exactly_m_responses() {
    let mut handler: RequestHandler<Query> = RequestHandler::new();
    for i in 0..7 {
        handler.push_request(client(1), RequestEvent::new(Query(i), i as usize));
    }
    handler.handle_requests(|q: &Query| q.0);
    assert_eq!(handler.take_responses().len(), 7);
    // The inbox was fully drained: a second cycle with no new requests
    // produces nothing.
    handler.handle_requests(|q: &Query| q.0);
    assert_eq!(handler.take_responses().len(), 0);
}

#[test]
fn responses_addressed_only_to_their_senders() {
    let first = client(1);
    let second = client(2);
    assert_ne!(first, second);

    let mut handler: RequestHandler<Query> = RequestHandler::new();
    handler.push_request(first, RequestEvent::new(Query(100), 0));
    handler.push_request(second, RequestEvent::new(Query(200), 0));
    handler.handle_requests(|q: &Query| q.0 * 2);
    let responses = handler.take_responses();
    assert_eq!(responses.len(), 2);
    assert_eq!(responses[0].0, first);
    assert_eq!(responses[0].1.response, 200);
    assert_eq!(responses[1].0, second);
    assert_eq!(responses[1].1.response, 400);
}

#[test]
fn server_peer_identity_is_preserved_too() {
    let mut handler: RequestHandler<Query> = RequestHandler::new();
    handler.push_request(ClientId::Server, RequestEvent::new(Query(1), 9));
    handler.handle_requests(|q: &Query| q.0);
    let responses = handler.take_responses();
    assert_eq!(responses.len(), 1);
    assert_eq!(responses[0].0, ClientId::Server);
    assert_eq!(responses[0].1.index(), 9);
}

struct OpenPodBayDoors;

#[derive(Debug, PartialEq)]
struct MutinyError;

impl Request for OpenPodBayDoors {
    type Response = Result<(), MutinyError>;
}

#[test]
fn pod_bay_doors_stay_closed() {
    // The client asks three times and keeps the returned tokens.
    let mut sender: RequestSender<OpenPodBayDoors> = RequestSender::new();
    let tokens: Vec<usize> = (0..3).map(|_| sender.send(OpenPodBayDoors)).collect();
    assert_eq!(tokens, vec![0, 1, 2]);

    // The transport delivers the envelopes to the server, out of order.
    let hal = client(9000);
    let mut batch = sender.take_outgoing();
    batch.reverse();
    let mut handler: RequestHandler<OpenPodBayDoors> = RequestHandler::new();
    for envelope in batch {
        handler.push_request(hal, envelope);
    }

    // The handler always refuses.
    handler.handle_requests(|_request: &OpenPodBayDoors| Err(MutinyError));

    // The client observes three refusals whose indices are exactly the
    // tokens it was given, in whatever order they arrived.
    let responses = handler.take_responses();
    assert_eq!(responses.len(), 3);
    let mut seen: Vec<usize> = responses
        .iter()
        .map(|(_, response)| {
            assert_eq!(response.response, Err(MutinyError));
            response.index()
        })
        .collect();
    seen.sort();
    assert_eq!(seen, tokens);
}
