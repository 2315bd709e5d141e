use stream_gate::admin;
use stream_gate::admin::{
    auth_as_admin, create_stream, create_stream_menu, dashboard_inner, new_stream, remove_stream,
    stream_ids, try_auth_as_admin, AdminError, CreateStreamQuery, StreamIdQuery,
};
use stream_gate::config::{auth_as_streamer, Config, Credentials, Error, StreamConfig};
use stream_gate::dashboard::{
    dashboard, queue, statistics, statistics_page, QueueAction, QueueBeat, QueueFrame, QueueWebSocket, Refresh,
    StatisticsBeat, StatisticsWebSocket,
};
use stream_gate::heartbeat::{
    beat, is_timed_out, Beat, Frame, FrameAction, CLIENT_TIMEOUT, INTERVAL,
};
use stream_gate::keys::{check_key, hash_key};
use stream_gate::manager::{Handle, Manager, PlayerConnect, QueuedPlayer};
use stream_gate::player;
use stream_gate::static_files::{haroldium, killmeplz, notification};
use stream_gate::statistics::{
    ome_statistics, statistics_request, OmeStatistics, OmeStatisticsResponse, StatisticsReply,
};

const SALT: &str = "AAAAAAAAAAAAAAAAAAAAAA";
const SECOND: u128 = 1_000_000_000;

fn config(admin_key_hash: String) -> Config {
    Config {
        db_url: "mysql://localhost/streams".to_string(),
        bind: "127.0.0.1:8080".to_string(),
        ome_host: "media.example.org".to_string(),
        ome_api_host: "http://media.example.org:8081".to_string(),
        ome_api_credentials: "Basic dG9rZW4=".to_string(),
        admin_id: "admin".to_string(),
        admin_key_hash,
    }
}

fn report() -> OmeStatisticsResponse {
    OmeStatisticsResponse {
        created_time: "2022-03-01".to_string(),
        total_connections: 3,
        total_bytes_in: 4,
        total_bytes_out: 5,
    }
}

fn credentials() -> Credentials {
    Credentials { id: "live".to_string(), key: "secret".to_string() }
}

#[test]
fn admin_needs_name_and_key() {
    let config = config(hash_key("root", SALT));
    assert_eq!(auth_as_admin(&config, "admin", "root"), Ok(()));
    assert_eq!(auth_as_admin(&config, "Admin", "root"), Err(AdminError::InvalidId));
    assert_eq!(auth_as_admin(&config, "admin", "toor"), Err(AdminError::InvalidKey));
    assert_eq!(auth_as_admin(&config, "", ""), Err(AdminError::InvalidId));
    assert_eq!(try_auth_as_admin(&config, "admin", "root"), Some(Ok(())));
    assert_eq!(AdminError::InvalidId.message(), "Invalid admin ID");
    assert_eq!(AdminError::InvalidKey.message(), "Invalid admin key");
    assert_eq!(AdminError::InvalidId.status(), 401);
    assert_eq!(AdminError::InvalidKey.status(), 401);
}

#[test]
fn malformed_admin_hash_is_noticed_first() {
    let config = config("root".to_string());
    assert_eq!(try_auth_as_admin(&config, "admin", "root"), None);
    assert_eq!(try_auth_as_admin(&config, "nobody", "root"), None);
}

#[test]
fn a_created_stream_opens_with_its_key() {
    let form = CreateStreamQuery { stream_id: "live".to_string(), stream_key: "secret".to_string() };
    let new = create_stream(Ok(()), &form).unwrap();
    assert_eq!(new.row.id, "live");
    assert_eq!(new.message.stream, "live");
    assert_ne!(new.row.key_hash, "secret");
    assert_eq!(check_key(&new.row.key_hash, "secret"), Some(true));
    let row = Some(new.row);
    assert_eq!(auth_as_streamer(&row, "secret"), Ok(()));
    assert_eq!(auth_as_streamer(&row, "other"), Err(Error::Unauthorized));
}

#[test]
fn two_streams_with_one_key_have_different_hashes() {
    let form = CreateStreamQuery { stream_id: "live".to_string(), stream_key: "secret".to_string() };
    let one = create_stream(Ok(()), &form).unwrap();
    let two = create_stream(Ok(()), &form).unwrap();
    assert_ne!(one.row.key_hash, two.row.key_hash);
}

#[test]
fn a_stream_is_stored_with_the_hash_of_its_key() {
    let form = CreateStreamQuery { stream_id: "live".to_string(), stream_key: "secret".to_string() };
    assert_eq!(new_stream(&form, SALT).row.key_hash, hash_key("secret", SALT));
}

#[test]
fn nobody_else_creates_or_removes_a_stream() {
    let form = CreateStreamQuery { stream_id: "live".to_string(), stream_key: "secret".to_string() };
    assert_eq!(
        create_stream(Err(AdminError::InvalidKey), &form).unwrap_err(),
        AdminError::InvalidKey
    );
    let query = StreamIdQuery { stream_id: "live".to_string() };
    assert_eq!(
        remove_stream(Err(AdminError::InvalidId), &query).unwrap_err(),
        AdminError::InvalidId
    );
}

#[test]
fn a_stream_is_removed() {
    let query = StreamIdQuery { stream_id: "live".to_string() };
    let gone = remove_stream(Ok(()), &query).unwrap();
    assert_eq!(gone.id, "live");
    assert_eq!(gone.message.stream, "live");
}

#[test]
fn admin_pages() {
    let credentials = credentials();
    let menu = create_stream_menu(&credentials);
    assert_eq!((menu.id, menu.key), ("live", "secret"));
    let streams = vec![
        StreamConfig { id: "b".to_string(), key_hash: "1".to_string() },
        StreamConfig { id: "a".to_string(), key_hash: "2".to_string() },
    ];
    let ids = stream_ids(&streams);
    let page = dashboard_inner(&ids, &credentials);
    assert_eq!(page.streams, ["b".to_string(), "a".to_string()]);
    assert_eq!((page.id, page.key), ("live", "secret"));
    let page = admin::dashboard(Ok(()), &ids, &credentials).unwrap();
    assert_eq!(page.streams, ["b".to_string(), "a".to_string()]);
    assert_eq!((page.id, page.key), ("live", "secret"));
}

#[test]
fn nobody_else_sees_the_streams() {
    let config = config(hash_key("root", SALT));
    let ids = vec!["live".to_string()];
    let credentials = credentials();
    let auth = auth_as_admin(&config, "admin", "toor");
    let refused = admin::dashboard(auth, &ids, &credentials);
    assert_eq!(refused.unwrap_err(), AdminError::InvalidKey);
    let auth = auth_as_admin(&config, "nobody", "root");
    let refused = admin::dashboard(auth, &ids, &credentials);
    assert_eq!(refused.unwrap_err(), AdminError::InvalidId);
}

#[test]
fn streamer_page() {
    let credentials = credentials();
    let page = dashboard(Ok(()), &credentials).unwrap();
    assert_eq!((page.id, page.key), ("live", "secret"));
    let socket = queue(Ok(()), &credentials, 9, SECOND).unwrap();
    assert_eq!((socket.id, socket.hb, socket.stream.as_str()), (9, SECOND, "live"));
    let socket = statistics(Ok(()), &credentials, SECOND).unwrap();
    assert_eq!((socket.hb, socket.stream.as_str()), (SECOND, "live"));
}

#[test]
fn nobody_else_follows_a_stream() {
    let credentials = credentials();
    let stream = Some(StreamConfig { id: "live".to_string(), key_hash: hash_key("other", SALT) });
    let auth = auth_as_streamer(&stream, &credentials.key);
    assert_eq!(dashboard(auth, &credentials).unwrap_err(), Error::Unauthorized);
    assert_eq!(queue(auth, &credentials, 9, SECOND).unwrap_err(), Error::Unauthorized);
    assert_eq!(statistics(auth, &credentials, SECOND).unwrap_err(), Error::Unauthorized);
}

#[test]
fn the_queue_is_shown_with_its_buttons() {
    let socket = QueueWebSocket::new(9, "live".to_string(), 0);
    let refresh = Refresh {
        queue: vec![
            (1, QueuedPlayer { ip_addr: "192.0.2.1".to_string(), addr: 10 }),
            (2, QueuedPlayer { ip_addr: "192.0.2.2".to_string(), addr: 20 }),
        ],
        new: Some(2),
    };
    let page = socket.handle_refresh(&refresh);
    assert_eq!(page.queue.len(), 2);
    assert_eq!(page.queue[0].address, "192.0.2.1");
    assert_eq!(page.queue[0].uuid, 1);
    assert!(!page.queue[0].new);
    assert!(page.queue[1].new);
    assert!(page.queue[0].allow.allow);
    assert!(!page.queue[0].deny.allow);
    assert_eq!(page.queue[0].allow.uuid, 1);
    assert_eq!(page.queue[1].deny.uuid, 2);
    assert_eq!(page.queue[1].deny.stream, "live");
    let page = socket.refresh(&refresh.queue, None);
    assert!(page.queue.iter().all(|connection| !connection.new));
}

#[test]
fn the_buttons_decide() {
    let mut manager = Manager::new(&vec!["live".to_string()]);
    let socket = QueueWebSocket::new(9, "live".to_string(), 0);
    manager.handle_new_recipient(socket.started());
    let broadcast = manager
        .handle_player_connect(PlayerConnect {
            uuid: 1,
            ip_addr: "192.0.2.1".to_string(),
            addr: 10,
            stream: "live".to_string(),
        })
        .unwrap();
    assert_eq!(broadcast.recipients, vec![9]);
    let page = socket.handle_refresh(&broadcast.refresh);
    let allow = page.queue.into_iter().next().unwrap().allow;
    assert_eq!(manager.handle(allow).unwrap().notice, player::Handle(true));
    manager.handle_recipient_disconnected(socket.stopped());
    assert!(manager.handle_new_recipient(socket.started()).queue.is_empty());
}

#[test]
fn silence_of_ten_seconds_is_too_long() {
    assert_eq!(INTERVAL, SECOND);
    assert_eq!(CLIENT_TIMEOUT, 10 * SECOND);
    assert!(!is_timed_out(5, 5));
    assert!(!is_timed_out(5, 5 + 10 * SECOND));
    assert!(is_timed_out(5, 5 + 10 * SECOND + 1));
    assert!(!is_timed_out(u128::MAX, 0));
    assert_eq!(beat(0, SECOND), Beat::Ping);
    assert_eq!(beat(0, 11 * SECOND), Beat::Stop);
}

#[test]
fn a_silent_dashboard_leaves() {
    let socket = QueueWebSocket::new(9, "live".to_string(), 0);
    assert!(matches!(socket.hb(10 * SECOND), QueueBeat::Ping));
    match socket.hb(11 * SECOND) {
        QueueBeat::Leave(msg) => {
            assert_eq!(msg.recipient, 9);
            assert_eq!(msg.stream, "live");
        }
        QueueBeat::Ping => panic!("a ping"),
    }
}

#[test]
fn ping_and_pong_keep_a_dashboard() {
    let mut socket = QueueWebSocket::new(9, "live".to_string(), 0);
    match socket.handle(QueueFrame::Ping(vec![1, 2]), 8 * SECOND) {
        QueueAction::Pong(msg) => assert_eq!(msg, vec![1, 2]),
        other => panic!("{:?}", other),
    }
    assert!(matches!(socket.hb(18 * SECOND), QueueBeat::Ping));
    assert!(matches!(socket.handle(QueueFrame::Pong, 17 * SECOND), QueueAction::Nothing));
    assert!(matches!(socket.hb(27 * SECOND), QueueBeat::Ping));
    assert!(matches!(socket.hb(28 * SECOND), QueueBeat::Leave(_)));
}

#[test]
fn a_decision_is_handed_on_and_no_sign_of_life() {
    let mut socket = QueueWebSocket::new(9, "live".to_string(), 0);
    let decision = Handle { uuid: 1, allow: true, stream: "other".to_string() };
    match socket.handle(QueueFrame::Text(decision), 8 * SECOND) {
        QueueAction::Decide(msg) => {
            assert_eq!(msg.uuid, 1);
            assert!(msg.allow);
            assert_eq!(msg.stream, "other");
        }
        other => panic!("{:?}", other),
    }
    assert!(matches!(socket.hb(11 * SECOND), QueueBeat::Leave(_)));
    assert!(matches!(socket.handle(QueueFrame::Other, SECOND), QueueAction::Stop));
}

#[test]
fn statistics_are_requested_every_beat() {
    let config = config(String::new());
    let mut socket = StatisticsWebSocket::new("live".to_string(), 0);
    match socket.hb(&config, SECOND) {
        StatisticsBeat::Report(request) => assert_eq!(
            request.url,
            "http://media.example.org:8081/v1/stats/current/vhosts/default/apps/app/streams/live"
        ),
        StatisticsBeat::Stop => panic!("a stop"),
    }
    assert!(matches!(socket.hb(&config, 11 * SECOND), StatisticsBeat::Stop));
    assert!(matches!(socket.handle(Frame::Pong, 5 * SECOND), FrameAction::Nothing));
    assert!(matches!(socket.hb(&config, 11 * SECOND), StatisticsBeat::Report(_)));
    assert!(matches!(socket.handle(Frame::Other, 6 * SECOND), FrameAction::Stop));
}

#[test]
fn statistics_request_is_authorized() {
    let request = statistics_request(&config(String::new()), "live");
    assert_eq!(request.header, "Authorization");
    assert_eq!(request.value, "Basic dG9rZW4=");
}

#[test]
fn statistics_are_shown_if_they_can_be_had() {
    let reported = ome_statistics(StatisticsReply::Report(OmeStatistics { response: report() }));
    let page = statistics_page(reported);
    let shown = page.statistics.unwrap();
    assert_eq!(shown.created_time, "2022-03-01");
    assert_eq!(shown.total_connections, 3);
    assert_eq!(shown.total_bytes_in, 4);
    assert_eq!(shown.total_bytes_out, 5);
    let failed = ome_statistics(StatisticsReply::Failed);
    assert!(matches!(failed, Err(Error::InternalError)));
    assert!(matches!(ome_statistics(StatisticsReply::Unreadable), Err(Error::InternalError)));
    assert!(statistics_page(failed).statistics.is_none());
}

#[test]
fn streams_on_air_are_listed() {
    let stream =
        |id: &str| StreamConfig { id: id.to_string(), key_hash: String::new() };
    let streams = vec![stream("a"), stream("b"), stream("c")];
    let replies = vec![Ok(report()), Err(Error::InternalError), Ok(report())];
    let names = player::index(&streams, &replies);
    let page = player::index_page(&names);
    assert_eq!(page.streams, [&"a".to_string(), &"c".to_string()]);
    assert!(player::index(&Vec::new(), &Vec::new()).is_empty());
}

#[test]
fn a_player_waits_for_the_stream_that_it_asked_for() {
    let query = player::StreamQuery { stream: "live".to_string() };
    assert_eq!(player::enqueue(&query).stream, "live");
}

#[test]
fn the_address_of_a_player() {
    let text = |text: &str| Some(text.to_string());
    assert_eq!(player::client_address(text("a"), text("b")), "a");
    assert_eq!(player::client_address(None, text("b")), "b");
    assert_eq!(player::client_address(None, None), "N/A");
}

#[test]
fn a_player_connects_and_disconnects() {
    let socket = player::QueueWebSocket::new(
        7,
        "media.example.org".to_string(),
        "192.0.2.1".to_string(),
        "live".to_string(),
        0,
    );
    let mut manager = Manager::new(&vec!["live".to_string()]);
    let broadcast = manager.handle_player_connect(socket.started()).unwrap();
    assert_eq!(broadcast.refresh.queue[0].0, socket.uuid);
    assert_eq!(broadcast.refresh.queue[0].1.ip_addr, "192.0.2.1");
    assert_eq!(broadcast.refresh.queue[0].1.addr, 7);
    let broadcast = manager.handle_player_disconnect(socket.stopped()).unwrap();
    assert!(broadcast.refresh.queue.is_empty());
    assert_eq!(socket.hb(10 * SECOND), Beat::Ping);
    assert_eq!(socket.hb(11 * SECOND), Beat::Stop);
    assert_eq!(socket.handle_stop(player::Stop), player::StopAction::Close);
}

#[test]
fn an_allowed_player_is_shown_the_stream() {
    let mut socket = player::QueueWebSocket::new(
        7,
        "media.example.org".to_string(),
        "192.0.2.1".to_string(),
        "live".to_string(),
        0,
    );
    match socket.handle(player::Handle(true)) {
        player::Verdict::Show(page) => {
            assert_eq!(page.stream, "live");
            assert_eq!(page.host, "media.example.org");
            assert_eq!(page.uuid, uuid::Uuid::from_u128(socket.uuid).to_string());
        }
        player::Verdict::Dismiss(_) => panic!("dismissed"),
    }
    assert!(matches!(socket.handle(player::Handle(false)), player::Verdict::Dismiss(_)));
    match socket.handle_frame(Frame::Ping(vec![3]), 5 * SECOND) {
        FrameAction::Pong(msg) => assert_eq!(msg, vec![3]),
        other => panic!("{:?}", other),
    }
    assert_eq!(socket.hb(15 * SECOND), Beat::Ping);
    assert!(matches!(socket.handle_frame(Frame::Other, SECOND), FrameAction::Stop));
    assert_eq!(socket.hb, 5 * SECOND);
}

#[test]
fn static_files_have_their_types() {
    assert_eq!(notification().status, 200);
    assert_eq!(haroldium().status, 200);
    assert_eq!(killmeplz().status, 200);
    assert_eq!(notification().content_type, "audio/wav");
    assert_eq!(notification().path, "res/Oi.wav");
    assert_eq!(haroldium().content_type, "image/gif");
    assert_eq!(haroldium().path, "res/haroldium.gif");
    assert_eq!(killmeplz().content_type, "image/webp");
    assert_eq!(killmeplz().path, "res/killmeplz.webp");
}
