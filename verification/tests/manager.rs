use stream_gate::manager::{
    Broadcast, Handle, IsAuthorized, Manager, NewRecipient, PlayerConnect, PlayerDisconnect,
    RecipientDisconnected, StreamCreated, StreamRemoved,
};
use stream_gate::player;

fn names(streams: &[&str]) -> Vec<String> {
    streams.iter().map(|stream| stream.to_string()).collect()
}

fn connect(manager: &mut Manager, stream: &str, uuid: u128, addr: u64) -> Option<Broadcast> {
    manager.handle_player_connect(PlayerConnect {
        uuid,
        ip_addr: format!("192.0.2.{}", addr),
        addr,
        stream: stream.to_string(),
    })
}

fn disconnect(manager: &mut Manager, stream: &str, uuid: u128) -> Option<Broadcast> {
    manager.handle_player_disconnect(PlayerDisconnect { uuid, stream: stream.to_string() })
}

fn look_on(manager: &mut Manager, stream: &str, recipient: u64) -> Vec<u128> {
    let refresh =
        manager.handle_new_recipient(NewRecipient { stream: stream.to_string(), recipient });
    assert_eq!(refresh.new, None);
    let mut uuids: Vec<u128> = refresh.queue.iter().map(|entry| entry.0).collect();
    uuids.sort();
    uuids
}

fn look_away(manager: &mut Manager, stream: &str, recipient: u64) {
    manager.handle_recipient_disconnected(RecipientDisconnected {
        stream: stream.to_string(),
        recipient,
    });
}

fn may_watch(manager: &Manager, stream: &str, uuid: u128) -> bool {
    manager.handle_is_authorized(&IsAuthorized { uuid, stream: stream.to_string() })
}

fn decision(stream: &str, uuid: u128, allow: bool) -> Handle {
    Handle { uuid, allow, stream: stream.to_string() }
}

fn queue_of(broadcast: &Broadcast) -> Vec<(u128, String, u64)> {
    let mut queue: Vec<(u128, String, u64)> = broadcast
        .refresh
        .queue
        .iter()
        .map(|entry| (entry.0, entry.1.ip_addr.clone(), entry.1.addr))
        .collect();
    queue.sort();
    queue
}

#[test]
fn a_new_manager_knows_the_named_streams() {
    let manager = Manager::new(&names(&["a", "b", "a"]));
    assert!(manager.has_stream(&"a".to_string()));
    assert!(manager.has_stream(&"b".to_string()));
    assert!(!manager.has_stream(&"c".to_string()));
    assert!(!may_watch(&manager, "a", 1));
}

#[test]
fn a_player_waits_is_allowed_and_watches() {
    let mut manager = Manager::new(&names(&["a"]));
    let broadcast = connect(&mut manager, "a", 1, 10).unwrap();
    assert_eq!(broadcast.refresh.new, Some(1));
    assert_eq!(queue_of(&broadcast), vec![(1, "192.0.2.10".to_string(), 10)]);
    assert!(!may_watch(&manager, "a", 1));
    let handled = manager.handle(decision("a", 1, true)).unwrap();
    assert_eq!(handled.addr, 10);
    assert_eq!(handled.notice, player::Handle(true));
    assert_eq!(handled.broadcast.refresh.new, None);
    assert!(handled.broadcast.refresh.queue.is_empty());
    assert!(may_watch(&manager, "a", 1));
    assert!(!may_watch(&manager, "a", 2));
}

#[test]
fn a_denied_player_waits_no_more_and_does_not_watch() {
    let mut manager = Manager::new(&names(&["a"]));
    connect(&mut manager, "a", 1, 10);
    connect(&mut manager, "a", 2, 20);
    let handled = manager.handle(decision("a", 1, false)).unwrap();
    assert_eq!(handled.addr, 10);
    assert_eq!(handled.notice, player::Handle(false));
    assert_eq!(queue_of(&handled.broadcast), vec![(2, "192.0.2.20".to_string(), 20)]);
    assert!(!may_watch(&manager, "a", 1));
}

#[test]
fn a_second_decision_is_void() {
    let mut manager = Manager::new(&names(&["a"]));
    connect(&mut manager, "a", 1, 10);
    assert!(manager.handle(decision("a", 1, true)).is_some());
    assert!(manager.handle(decision("a", 1, false)).is_none());
    assert!(may_watch(&manager, "a", 1));
    assert!(manager.handle(decision("a", 2, true)).is_none());
    assert!(!may_watch(&manager, "a", 2));
}

#[test]
fn going_away_takes_queue_place_and_permission() {
    let mut manager = Manager::new(&names(&["a"]));
    connect(&mut manager, "a", 1, 10);
    connect(&mut manager, "a", 2, 20);
    manager.handle(decision("a", 1, true));
    let broadcast = disconnect(&mut manager, "a", 1).unwrap();
    assert_eq!(broadcast.refresh.new, None);
    assert!(!may_watch(&manager, "a", 1));
    let broadcast = disconnect(&mut manager, "a", 2).unwrap();
    assert!(broadcast.refresh.queue.is_empty());
    assert!(manager.handle(decision("a", 2, true)).is_none());
}

#[test]
fn an_unknown_stream_is_ignored_where_it_may_be() {
    let mut manager = Manager::new(&names(&["a"]));
    assert!(connect(&mut manager, "b", 1, 10).is_none());
    assert!(disconnect(&mut manager, "b", 1).is_none());
    look_away(&mut manager, "b", 5);
    assert!(!may_watch(&manager, "b", 1));
    assert!(!manager.has_stream(&"b".to_string()));
}

#[test]
fn connecting_again_keeps_the_latest() {
    let mut manager = Manager::new(&names(&["a"]));
    connect(&mut manager, "a", 1, 10);
    let broadcast = connect(&mut manager, "a", 1, 11).unwrap();
    assert_eq!(queue_of(&broadcast), vec![(1, "192.0.2.11".to_string(), 11)]);
    assert_eq!(manager.handle(decision("a", 1, true)).unwrap().addr, 11);
}

#[test]
fn dashboards_are_told_in_the_order_in_which_they_came() {
    let mut manager = Manager::new(&names(&["a", "b"]));
    assert!(look_on(&mut manager, "a", 5).is_empty());
    connect(&mut manager, "a", 1, 10);
    connect(&mut manager, "a", 2, 20);
    assert_eq!(look_on(&mut manager, "a", 3), vec![1, 2]);
    look_on(&mut manager, "b", 9);
    let broadcast = connect(&mut manager, "a", 7, 70).unwrap();
    assert_eq!(broadcast.recipients, vec![5, 3]);
    assert_eq!(queue_of(&broadcast).len(), 3);
    assert_eq!(broadcast.refresh.new, Some(7));
}

#[test]
fn a_dashboard_that_goes_is_told_no_more() {
    let mut manager = Manager::new(&names(&["a"]));
    look_on(&mut manager, "a", 5);
    look_on(&mut manager, "a", 3);
    look_on(&mut manager, "a", 5);
    look_away(&mut manager, "a", 5);
    assert_eq!(connect(&mut manager, "a", 1, 10).unwrap().recipients, vec![3]);
    look_away(&mut manager, "a", 4);
    assert_eq!(disconnect(&mut manager, "a", 1).unwrap().recipients, vec![3]);
}

#[test]
fn streams_do_not_meddle() {
    let mut manager = Manager::new(&names(&["a", "b"]));
    connect(&mut manager, "a", 1, 10);
    connect(&mut manager, "b", 1, 11);
    manager.handle(decision("a", 1, true));
    assert!(may_watch(&manager, "a", 1));
    assert!(!may_watch(&manager, "b", 1));
    disconnect(&mut manager, "b", 1);
    assert!(may_watch(&manager, "a", 1));
}

#[test]
fn a_stream_that_is_created_again_starts_anew() {
    let mut manager = Manager::new(&names(&["a"]));
    connect(&mut manager, "a", 1, 10);
    connect(&mut manager, "a", 2, 20);
    manager.handle(decision("a", 1, true));
    look_on(&mut manager, "a", 5);
    manager.handle_stream_created(StreamCreated { stream: "a".to_string() });
    assert!(!may_watch(&manager, "a", 1));
    assert!(manager.handle(decision("a", 2, true)).is_none());
    assert!(connect(&mut manager, "a", 3, 30).unwrap().recipients.is_empty());
}

#[test]
fn a_stream_that_is_removed_is_gone() {
    let mut manager = Manager::new(&names(&["a", "b"]));
    connect(&mut manager, "a", 1, 10);
    manager.handle(decision("a", 1, true));
    manager.handle_stream_removed(StreamRemoved { stream: "a".to_string() });
    assert!(!manager.has_stream(&"a".to_string()));
    assert!(manager.has_stream(&"b".to_string()));
    assert!(!may_watch(&manager, "a", 1));
    manager.handle_stream_removed(StreamRemoved { stream: "a".to_string() });
    manager.handle_stream_created(StreamCreated { stream: "c".to_string() });
    assert!(manager.has_stream(&"c".to_string()));
}

#[test]
fn a_player_leaves_no_trace() {
    let mut manager = Manager::new(&names(&["a"]));
    connect(&mut manager, "a", 1, 10);
    for allow in [true, false] {
        connect(&mut manager, "a", 2, 20);
        manager.handle(decision("a", 2, allow));
        let broadcast = disconnect(&mut manager, "a", 2).unwrap();
        assert_eq!(queue_of(&broadcast), vec![(1, "192.0.2.10".to_string(), 10)]);
        assert!(!may_watch(&manager, "a", 2));
        assert!(!may_watch(&manager, "a", 1));
    }
}
