use stream_gate::admission::{
    answer_player, answer_streamer, auth, is_complete, AdmissionRequest, AuthResponse, AuthStep,
    Client, Request, Response, ResponseBody,
};
use stream_gate::config::{auth_as_streamer, try_auth_as_streamer, Config, Error, Html, StreamConfig};
use stream_gate::keys::hash_key;
use stream_gate::manager::{player_query, Handle, Manager, PlayerConnect, PlayerDisconnect};
use stream_gate::table::Key;
use stream_gate::uuids::{uuid_text, InvalidUuid};

const UUID: &str = "67e55044-10b1-426f-9247-bb680e5fe0c8";
const UUID_NUMBER: u128 = 0x67e5504410b1426f9247bb680e5fe0c8;

fn request(status: &str, direction: &str, url: &str) -> Request {
    Request {
        direction: direction.to_string(),
        status: status.to_string(),
        url: url.to_string(),
    }
}

fn config() -> Config {
    Config {
        db_url: "mysql://localhost/streams".to_string(),
        bind: "127.0.0.1:8080".to_string(),
        ome_host: "media.example.org".to_string(),
        ome_api_host: "http://media.example.org:8081".to_string(),
        ome_api_credentials: "Basic dG9rZW4=".to_string(),
        admin_id: "admin".to_string(),
        admin_key_hash: String::new(),
    }
}

fn opening(answer: AuthResponse) -> Response {
    match answer {
        AuthResponse::Opening(response) => response,
        AuthResponse::Closing => panic!("a closing"),
    }
}

#[test]
fn publishing_asks_for_the_key_of_the_stream() {
    match auth(&request("opening", "incoming", "rtmp://media.example.org/app/live/secret")) {
        Ok(AuthStep::Streamer { id, key }) => {
            assert_eq!(id, "app");
            assert_eq!(key, "live");
        }
        other => panic!("{:?}", other),
    }
    match auth(&request("opening", "incoming", "rtmp://media.example.org/live/secret")) {
        Ok(AuthStep::Streamer { id, key }) => {
            assert_eq!(id, "live");
            assert_eq!(key, "secret");
        }
        other => panic!("{:?}", other),
    }
}

#[test]
fn publishing_without_name_or_key_is_a_bad_request() {
    for url in ["", "rtmp://media.example.org", "rtmp://media.example.org/live"] {
        let step = auth(&request("opening", "incoming", url));
        assert!(matches!(step, Err(Error::BadRequest)), "{}", url);
    }
}

#[test]
fn publishing_with_an_empty_key_is_checked() {
    match auth(&request("opening", "incoming", "rtmp://media.example.org/live/")) {
        Ok(AuthStep::Streamer { id, key }) => {
            assert_eq!(id, "live");
            assert_eq!(key, "");
        }
        other => panic!("{:?}", other),
    }
}

#[test]
fn watching_asks_for_the_permission_of_the_player() {
    let url = format!("ws://media.example.org/app/live/{}", UUID);
    let request = request("opening", "outgoing", &url);
    assert!(is_complete(&request));
    match auth(&request) {
        Ok(AuthStep::Player { stream, uuid }) => {
            assert_eq!(stream, "live");
            assert_eq!(uuid, UUID);
            let query = player_query(stream, &uuid).unwrap();
            assert_eq!(query.uuid, UUID_NUMBER);
            assert_eq!(query.stream, "live");
        }
        other => panic!("{:?}", other),
    }
}

#[test]
fn watching_without_a_player_is_incomplete() {
    assert!(!is_complete(&request("opening", "outgoing", "ws://media.example.org/app/live")));
    assert!(is_complete(&request("opening", "incoming", "")));
    assert!(is_complete(&request("closing", "outgoing", "")));
    assert!(is_complete(&request("opening", "sideways", "")));
}

#[test]
fn unknown_status_or_direction_is_a_bad_request() {
    let url = format!("ws://media.example.org/app/live/{}", UUID);
    assert!(matches!(auth(&request("opening", "sideways", &url)), Err(Error::BadRequest)));
    assert!(matches!(auth(&request("Opening", "incoming", &url)), Err(Error::BadRequest)));
    assert!(matches!(auth(&request("", "", &url)), Err(Error::BadRequest)));
}

#[test]
fn closing_is_acknowledged() {
    match auth(&request("closing", "incoming", "")) {
        Ok(AuthStep::Answer(answer)) => {
            let reply = answer.respond_to();
            assert_eq!(reply.status, 200);
            match reply.body {
                ResponseBody::Text(text) => assert_eq!(text, "{}"),
                other => panic!("{:?}", other),
            }
        }
        other => panic!("{:?}", other),
    }
}

#[test]
fn a_text_that_is_no_uuid_is_no_player() {
    assert_eq!(player_query("live".to_string(), "nobody").unwrap_err(), InvalidUuid);
}

#[test]
fn an_accepted_streamer_is_sent_to_the_stream() {
    let response = opening(answer_streamer(&config(), "live", Ok(())));
    assert!(response.allowed);
    assert_eq!(response.new_url.as_deref(), Some("rtmp://media.example.org/app/live"));
    assert_eq!(response.lifetime, None);
    assert_eq!(response.reason, None);
    let url = response.new_url.unwrap();
    assert_eq!(url.split('/').nth(4), Some("live"));
}

#[test]
fn a_refused_streamer_is_told_why() {
    let response = opening(answer_streamer(&config(), "live", Err(Error::Unauthorized)));
    assert!(!response.allowed);
    assert_eq!(response.new_url, None);
    assert_eq!(response.lifetime, None);
    assert_eq!(response.reason.as_deref(), Some("Invalid API key"));
}

#[test]
fn an_accepted_player_watches_without_its_segment() {
    let url = format!("ws://media.example.org/app/live/{}", UUID);
    let response = opening(answer_player(&url, UUID, true));
    assert!(response.allowed);
    assert_eq!(response.new_url.as_deref(), Some("ws://media.example.org/app/live"));
    assert_eq!(response.reason, None);
}

#[test]
fn what_stands_behind_the_player_is_kept() {
    let url = format!("ws://media.example.org/app/live/{}/low", UUID);
    match auth(&request("opening", "outgoing", &url)) {
        Ok(AuthStep::Player { stream, uuid }) => {
            assert_eq!(stream, "live");
            assert_eq!(uuid, UUID);
        }
        other => panic!("{:?}", other),
    }
    let response = opening(answer_player(&url, UUID, true));
    assert_eq!(response.new_url.as_deref(), Some("ws://media.example.org/app/live/low"));
}

#[test]
fn every_match_of_the_segment_is_cut() {
    let response = opening(answer_player("a/b/c/d/b/bb", "b", true));
    assert_eq!(response.new_url.as_deref(), Some("a/c/db"));
}

#[test]
fn a_refused_player_is_told_why() {
    let response = opening(answer_player("ws://h/app/live/x", "x", false));
    assert!(!response.allowed);
    assert_eq!(response.new_url, None);
    assert_eq!(response.reason.as_deref(), Some("Unauthorized"));
}

#[test]
fn an_opening_is_answered_in_json() {
    let reply = answer_player("a/x", "x", true).respond_to();
    assert_eq!(reply.status, 200);
    match reply.body {
        ResponseBody::Json(response) => {
            assert!(response.allowed);
            assert_eq!(response.new_url.as_deref(), Some("a"));
        }
        other => panic!("{:?}", other),
    }
}

#[test]
fn a_denial_is_no_http_error() {
    let reply = answer_player("a/x", "x", false).respond_to();
    assert_eq!(reply.status, 200);
    match reply.body {
        ResponseBody::Json(response) => {
            assert!(!response.allowed);
            assert_eq!(response.new_url, None);
            assert_eq!(response.lifetime, None);
            assert_eq!(response.reason.as_deref(), Some("Unauthorized"));
        }
        other => panic!("{:?}", other),
    }
}

#[test]
fn an_allowed_player_is_let_in_until_it_goes() {
    let mut manager = Manager::new(&vec!["live".to_string()]);
    manager.handle_player_connect(PlayerConnect {
        uuid: UUID_NUMBER,
        ip_addr: "192.0.2.1".to_string(),
        addr: 4,
        stream: "live".to_string(),
    });
    let url = format!("ws://media.example.org/app/live/{}", uuid_text(UUID_NUMBER));
    let (stream, uuid) = match auth(&request("opening", "outgoing", &url)) {
        Ok(AuthStep::Player { stream, uuid }) => (stream, uuid),
        other => panic!("{:?}", other),
    };
    let query = player_query(stream, &uuid).unwrap();
    assert!(!manager.handle_is_authorized(&query));
    manager.handle(Handle { uuid: UUID_NUMBER, allow: true, stream: "live".to_string() });
    let authorized = manager.handle_is_authorized(&query);
    assert!(opening(answer_player(&url, &uuid, authorized)).allowed);
    manager.handle_player_disconnect(PlayerDisconnect {
        uuid: UUID_NUMBER,
        stream: "live".to_string(),
    });
    let authorized = manager.handle_is_authorized(&query);
    assert!(!opening(answer_player(&url, &uuid, authorized)).allowed);
}

#[test]
fn streamer_is_let_in_with_the_key_of_the_stream() {
    let stream = Some(StreamConfig {
        id: "live".to_string(),
        key_hash: hash_key("secret", "AAAAAAAAAAAAAAAAAAAAAA"),
    });
    assert_eq!(auth_as_streamer(&stream, "secret"), Ok(()));
    assert_eq!(auth_as_streamer(&stream, "Secret"), Err(Error::Unauthorized));
    assert_eq!(try_auth_as_streamer(&stream, "secret"), Some(Ok(())));
}

#[test]
fn streamer_of_an_unknown_stream_is_refused() {
    assert_eq!(auth_as_streamer(&None, "secret"), Err(Error::Unauthorized));
    assert_eq!(try_auth_as_streamer(&None, "secret"), Some(Err(Error::Unauthorized)));
}

#[test]
fn malformed_stored_hash_is_noticed() {
    let stream = Some(StreamConfig { id: "live".to_string(), key_hash: "secret".to_string() });
    assert_eq!(try_auth_as_streamer(&stream, "secret"), None);
}

#[test]
fn error_messages() {
    assert_eq!(Error::Unauthorized.message(), "Unauthorized");
    assert_eq!(Error::BadRequest.message(), "Bad request");
    assert_eq!(Error::InternalError.message(), "Internal server error");
    for error in [Error::Unauthorized, Error::BadRequest, Error::InternalError] {
        assert_eq!(error.status(), 500);
    }
}

#[test]
fn a_configuration_is_copied_whole() {
    let copy = config().clone();
    assert_eq!(copy.db_url, "mysql://localhost/streams");
    assert_eq!(copy.bind, "127.0.0.1:8080");
    assert_eq!(copy.ome_host, "media.example.org");
    assert_eq!(copy.ome_api_host, "http://media.example.org:8081");
    assert_eq!(copy.ome_api_credentials, "Basic dG9rZW4=");
    assert_eq!(copy.admin_id, "admin");
    assert_eq!(copy.admin_key_hash, "");
}

#[test]
fn a_page_is_sent_as_html() {
    let response = Html("<p>hello</p>".to_string()).respond_to();
    assert_eq!(response.status, 200);
    assert_eq!(response.content_type, "text/html; charset=utf-8");
    assert_eq!(response.body, "<p>hello</p>");
}

#[test]
fn clients_are_the_same_if_all_fields_are() {
    let client = Client {
        address: "192.0.2.1".to_string(),
        port: 1935,
        user_agent: Some("OBS".to_string()),
    };
    let other = Client { user_agent: None, ..client.clone() };
    assert!(client.same_key(&client.clone()));
    assert!(!client.same_key(&other));
    assert!(!client.same_key(&Client { port: 1936, ..client.clone() }));
    assert!(!client.same_key(&Client { address: "192.0.2.2".to_string(), ..client.clone() }));
    let request = AdmissionRequest { client, request: request("opening", "incoming", "a") };
    let copy = request.clone();
    assert_eq!(copy.client, request.client);
    assert_eq!(copy.request.url, "a");
}
