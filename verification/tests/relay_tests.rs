use gemini_castnow::relay::{relay_response, RelayAction, RelayEvent, RelaySession};

#[test]
fn root_request_serves_the_file_bytes() {
    let reply = relay_response("/", Some(b"Hello, world!".to_vec()));
    assert_eq!(reply.status, 200);
    assert_eq!(reply.body, b"Hello, world!".to_vec());
    assert_eq!(reply.content_type, Some("video/mp4".to_string()));
}

#[test]
fn other_paths_are_not_found() {
    let reply = relay_response("/nope", Some(b"Hello, world!".to_vec()));
    assert_eq!(reply.status, 404);
    assert_eq!(reply.body, b"Not Found".to_vec());
    assert_eq!(reply.content_type, None);
}

#[test]
fn failed_file_read_is_a_server_error() {
    let reply = relay_response("/", None);
    assert_eq!(reply.status, 500);
    assert_eq!(reply.body, b"Internal Server Error".to_vec());
    assert_eq!(reply.content_type, None);
}

#[test]
fn empty_file_is_served_with_an_empty_body() {
    let reply = relay_response("/", Some(Vec::new()));
    assert_eq!(reply.status, 200);
    assert_eq!(reply.body, Vec::<u8>::new());
}

#[test]
fn shutdown_stops_the_relay_and_later_connections_are_refused() {
    let mut relay = RelaySession::new();
    assert!(relay.running);
    assert_eq!(relay.on_event(RelayEvent::Connection), RelayAction::Serve);
    assert_eq!(relay.on_event(RelayEvent::Shutdown), RelayAction::Stop);
    assert!(!relay.running);
    assert_eq!(relay.on_event(RelayEvent::Connection), RelayAction::Refuse);
}

#[test]
fn firing_the_shutdown_signal_twice_is_a_no_op() {
    let mut relay = RelaySession::new();
    assert_eq!(relay.on_event(RelayEvent::Shutdown), RelayAction::Stop);
    assert_eq!(relay.on_event(RelayEvent::Shutdown), RelayAction::Nothing);
    assert!(!relay.running);
}
