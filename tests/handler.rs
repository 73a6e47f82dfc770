use gooberproxy_plus::{
    Action, Config, ConnectionHandler, DisconnectOutcome, Event, HandlerError, Hello, Intention,
    Phase, PublicKeyData, Route, kick_reason, route_for, status_response, STATUS_MAX_PLAYERS,
    STATUS_ONLINE_PLAYERS,
};

fn config() -> Config {
    Config::default()
}

fn hello(name: &str) -> Hello {
    Hello {
        username: name.to_string(),
        public_key: Some(PublicKeyData {
            expires_at: 1_700_000_000,
            key: vec![1, 2, 3],
            key_signature: vec![9, 8],
        }),
        profile_id: Some(0x1234_5678_9abc_def0_1234_5678_9abc_def0),
    }
}

fn relaying() -> ConnectionHandler {
    let cfg = config();
    let mut h = ConnectionHandler::new();
    assert_eq!(h.step(&cfg, Event::Handshake(Intention::Login)), Action::Idle);
    let a = h.step(&cfg, Event::Hello(hello("LiveOvergoober")));
    assert!(matches!(a, Action::Solicit(_)));
    assert_eq!(h.phase, Phase::Relaying);
    h
}

#[test]
fn route_for_status_and_login() {
    assert_eq!(route_for(Intention::Status), Ok(Route::Status));
    assert_eq!(route_for(Intention::Login), Ok(Route::Login));
}

#[test]
fn route_for_rejects_other_intentions() {
    for i in [Intention::Game, Intention::Handshake] {
        assert_eq!(route_for(i), Err(HandlerError::UnsupportedIntention(i)));
    }
}

#[test]
fn unsupported_intention_closes_without_backend() {
    let cfg = config();
    for i in [Intention::Game, Intention::Handshake] {
        let mut h = ConnectionHandler::new();
        let a = h.step(&cfg, Event::Handshake(i));
        assert_eq!(a, Action::Fail(HandlerError::UnsupportedIntention(i)));
        assert!(h.is_closed());
        let later = h.step(&cfg, Event::Hello(hello("LiveOvergoober")));
        assert_eq!(later, Action::Idle);
    }
}

#[test]
fn first_packet_must_be_handshake() {
    let cfg = config();
    let mut h = ConnectionHandler::new();
    let a = h.step(&cfg, Event::StatusRequest);
    assert_eq!(a, Action::Fail(HandlerError::ProtocolViolation));
    assert!(h.is_closed());
}

#[test]
fn unknown_player_is_kicked() {
    let cfg = config();
    let mut h = ConnectionHandler::new();
    assert_eq!(h.step(&cfg, Event::Handshake(Intention::Login)), Action::Idle);
    assert_eq!(h.phase, Phase::AwaitHello);
    let a = h.step(&cfg, Event::Hello(hello("SomeoneElse")));
    assert_eq!(a, Action::Kick);
    assert!(h.is_closed());
    assert_eq!(kick_reason(), "goober");
}

#[test]
fn name_check_is_exact() {
    let cfg = config();
    for name in ["liveovergoober", "LiveOvergoober ", "LiveOvergoobe", ""] {
        let mut h = ConnectionHandler::new();
        h.step(&cfg, Event::Handshake(Intention::Login));
        assert_eq!(h.step(&cfg, Event::Hello(hello(name))), Action::Kick);
    }
}

#[test]
fn allowed_player_is_forwarded_unchanged() {
    let cfg = config();
    let mut h = ConnectionHandler::new();
    h.step(&cfg, Event::Handshake(Intention::Login));
    let sent = hello("LiveOvergoober");
    let a = h.step(&cfg, Event::Hello(sent.clone()));
    assert_eq!(a, Action::Solicit(sent));
    assert_eq!(h.phase, Phase::Relaying);
}

#[test]
fn login_without_hello_is_a_violation() {
    let cfg = config();
    let mut h = ConnectionHandler::new();
    h.step(&cfg, Event::Handshake(Intention::Login));
    assert_eq!(h.step(&cfg, Event::OtherPacket), Action::Fail(HandlerError::ProtocolViolation));
    assert!(h.is_closed());
}

#[test]
fn status_exchange() {
    let cfg = config();
    let mut h = ConnectionHandler::new();
    assert_eq!(h.step(&cfg, Event::Handshake(Intention::Status)), Action::Idle);
    assert_eq!(h.step(&cfg, Event::StatusRequest), Action::SendStatus);
    assert_eq!(h.step(&cfg, Event::PingRequest(123)), Action::SendPong(123));
    assert!(h.is_closed());
}

#[test]
fn status_response_fields() {
    let r = status_response(760);
    assert_eq!(r.description, "Goobers Inc. secret test server (real)");
    assert_eq!(r.max_players, 420);
    assert_eq!(r.online_players, 69);
    assert_eq!(STATUS_MAX_PLAYERS, 420);
    assert_eq!(STATUS_ONLINE_PLAYERS, 69);
    assert_eq!(r.version_name, "popbob sex dupe 1.69.4");
    assert_eq!(r.protocol, 760);
}

#[test]
fn status_needs_request_before_ping() {
    let cfg = config();
    let mut h = ConnectionHandler::new();
    h.step(&cfg, Event::Handshake(Intention::Status));
    assert_eq!(h.step(&cfg, Event::PingRequest(5)), Action::Fail(HandlerError::ProtocolViolation));
    assert!(h.is_closed());
}

#[test]
fn status_needs_ping_after_request() {
    let cfg = config();
    let mut h = ConnectionHandler::new();
    h.step(&cfg, Event::Handshake(Intention::Status));
    h.step(&cfg, Event::StatusRequest);
    assert_eq!(h.step(&cfg, Event::StatusRequest), Action::Fail(HandlerError::ProtocolViolation));
}

fn backend_bytes(actions: &[Action]) -> Vec<u8> {
    let mut out = Vec::new();
    for a in actions {
        if let Action::ToBackend(v) = a {
            out.extend_from_slice(v);
        }
    }
    out
}

fn client_bytes(actions: &[Action]) -> Vec<u8> {
    let mut out = Vec::new();
    for a in actions {
        if let Action::ToClient(v) = a {
            out.extend_from_slice(v);
        }
    }
    out
}

#[test]
fn relay_bytewise_equals_bulk_client_to_backend() {
    let cfg = config();
    let payload: Vec<u8> = (0u16..300).map(|i| (i * 7 % 256) as u8).collect();
    let mut one = relaying();
    let mut acts_one = Vec::new();
    for b in &payload {
        acts_one.push(one.step(&cfg, Event::ClientData(vec![*b])));
    }
    let mut bulk = relaying();
    let acts_bulk = vec![bulk.step(&cfg, Event::ClientData(payload.clone()))];
    assert_eq!(backend_bytes(&acts_one), payload);
    assert_eq!(backend_bytes(&acts_bulk), payload);
    assert!(client_bytes(&acts_one).is_empty());
}

#[test]
fn relay_bytewise_equals_bulk_backend_to_client() {
    let cfg = config();
    let payload: Vec<u8> = b"\x00\x05hello world".to_vec();
    let mut one = relaying();
    let mut acts_one = Vec::new();
    for b in &payload {
        acts_one.push(one.step(&cfg, Event::BackendData(vec![*b])));
    }
    let mut bulk = relaying();
    let acts_bulk = vec![bulk.step(&cfg, Event::BackendData(payload.clone()))];
    assert_eq!(client_bytes(&acts_one), client_bytes(&acts_bulk));
    assert_eq!(client_bytes(&acts_bulk), payload);
}

#[test]
fn relay_keeps_both_directions_apart() {
    let cfg = config();
    let mut h = relaying();
    let acts = vec![
        h.step(&cfg, Event::ClientData(vec![1, 2])),
        h.step(&cfg, Event::BackendData(vec![7])),
        h.step(&cfg, Event::ClientData(vec![3])),
        h.step(&cfg, Event::BackendData(vec![8, 9])),
    ];
    assert_eq!(backend_bytes(&acts), vec![1, 2, 3]);
    assert_eq!(client_bytes(&acts), vec![7, 8, 9]);
}

#[test]
fn client_exit_first_hands_off_once() {
    let cfg = config();
    let mut h = relaying();
    h.step(&cfg, Event::ClientData(vec![1]));
    let end = h.step(&cfg, Event::ClientEof);
    assert_eq!(end, Action::RelayEnded(DisconnectOutcome::ClientDisconnected));
    assert!(DisconnectOutcome::ClientDisconnected.hands_off());
    assert_eq!(h.step(&cfg, Event::BackendEof), Action::Idle);
    assert_eq!(h.step(&cfg, Event::ClientEof), Action::Idle);
    assert_eq!(h.step(&cfg, Event::BackendData(vec![4])), Action::Idle);
}

#[test]
fn backend_exit_first_never_hands_off() {
    let cfg = config();
    let mut h = relaying();
    let end = h.step(&cfg, Event::BackendEof);
    assert_eq!(end, Action::RelayEnded(DisconnectOutcome::BackendDisconnected));
    assert!(!DisconnectOutcome::BackendDisconnected.hands_off());
    assert_eq!(h.step(&cfg, Event::ClientEof), Action::Idle);
}

#[test]
fn relay_ignores_typed_packets() {
    let cfg = config();
    let mut h = relaying();
    assert_eq!(h.step(&cfg, Event::StatusRequest), Action::Idle);
    assert_eq!(h.phase, Phase::Relaying);
}
