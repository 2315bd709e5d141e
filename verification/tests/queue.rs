use stream_gate::admission::Client;
use stream_gate::heartbeat::{Frame, FrameAction};
use stream_gate::queue::{
    sort_latest_first, Handle, NewRecipient, QueueActor, QueueBeat, QueueWebSocket, QueuedRequest,
    RecipientDisconnected,
};

const SECOND: u128 = 1_000_000_000;

fn client(port: u16) -> Client {
    Client { address: "192.0.2.1".to_string(), port, user_agent: None }
}

fn request(instant: u128, sender: u64) -> QueuedRequest {
    QueuedRequest { instant, sender }
}

/// A queue in which three clients wait for the stream "live".
fn waiting() -> QueueActor {
    let mut actor = QueueActor::new(&vec!["live".to_string(), "other".to_string()]);
    let mut data = actor.streams.remove(&"live".to_string()).unwrap();
    data.queue.insert(client(1), request(100, 11));
    data.queue.insert(client(2), request(300, 12));
    data.queue.insert(client(3), request(200, 13));
    actor.streams.insert("live".to_string(), data);
    actor
}

fn decision(port: u16, allow: bool) -> Handle {
    Handle { client: client(port), allow, stream: "live".to_string() }
}

#[test]
fn a_new_queue_knows_the_named_streams() {
    let actor = QueueActor::new(&vec!["a".to_string(), "a".to_string()]);
    assert!(actor.has_stream(&"a".to_string()));
    assert!(!actor.has_stream(&"b".to_string()));
}

#[test]
fn requests_are_sorted_latest_first() {
    let list = vec![
        (client(1), request(100, 11)),
        (client(2), request(300, 12)),
        (client(3), request(200, 13)),
        (client(4), request(300, 14)),
    ];
    let sorted = sort_latest_first(&list);
    let instants: Vec<u128> = sorted.iter().map(|entry| entry.1.instant).collect();
    assert_eq!(instants, vec![300, 300, 200, 100]);
    let mut ports: Vec<u16> = sorted.iter().map(|entry| entry.0.port).collect();
    ports.sort();
    assert_eq!(ports, vec![1, 2, 3, 4]);
    assert!(sort_latest_first(&Vec::new()).is_empty());
}

#[test]
fn a_decision_answers_the_request_and_tells_the_dashboards() {
    let mut actor = waiting();
    actor.handle_new_recipient(NewRecipient { stream: "live".to_string(), recipient: 5 });
    actor.handle_new_recipient(NewRecipient { stream: "live".to_string(), recipient: 4 });
    let handled = actor.handle(decision(1, false)).unwrap();
    assert_eq!(handled.sender, 11);
    assert!(!handled.allow);
    assert_eq!(handled.broadcast.recipients, vec![5, 4]);
    let senders: Vec<u64> =
        handled.broadcast.refresh.0.iter().map(|entry| entry.1.sender).collect();
    assert_eq!(senders, vec![12, 13]);
    assert!(actor.handle(decision(1, true)).is_none());
    assert!(actor.handle(decision(2, true)).unwrap().allow);
}

#[test]
fn a_client_that_does_not_wait_is_ignored() {
    let mut actor = waiting();
    assert!(actor.handle(decision(9, true)).is_none());
    assert!(actor
        .handle(Handle { client: client(1), allow: true, stream: "other".to_string() })
        .is_none());
    assert_eq!(actor.handle(decision(3, true)).unwrap().sender, 13);
}

#[test]
fn a_dashboard_of_the_queue_comes_and_goes() {
    let mut actor = waiting();
    let socket = QueueWebSocket::new(5, "live".to_string(), 0);
    actor.handle_new_recipient(socket.started());
    actor.handle_new_recipient(NewRecipient { stream: "live".to_string(), recipient: 4 });
    actor.handle_recipient_disconnected(RecipientDisconnected {
        stream: "live".to_string(),
        recipient: 5,
    });
    assert_eq!(actor.handle(decision(1, true)).unwrap().broadcast.recipients, vec![4]);
}

#[test]
fn a_silent_dashboard_of_the_queue_leaves() {
    let mut socket = QueueWebSocket::new(5, "live".to_string(), 0);
    assert!(matches!(socket.hb(10 * SECOND), QueueBeat::Ping));
    match socket.hb(11 * SECOND) {
        QueueBeat::Leave(msg) => {
            assert_eq!(msg.recipient, 5);
            assert_eq!(msg.stream, "live");
        }
        QueueBeat::Ping => panic!("a ping"),
    }
    match socket.handle(Frame::Ping(vec![7]), 9 * SECOND) {
        FrameAction::Pong(msg) => assert_eq!(msg, vec![7]),
        other => panic!("{:?}", other),
    }
    assert!(matches!(socket.hb(19 * SECOND), QueueBeat::Ping));
    assert!(matches!(socket.handle(Frame::Other, SECOND), FrameAction::Stop));
}
