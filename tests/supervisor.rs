use ap_alert::codec::DecodeError;
use ap_alert::connection::{
    handshake, Action, ConnectionInfo, DialOutcome, Inbound, InputMessage, Link, Scheme, Supervisor, Wait,
};
use ap_alert::json::{Field, Json, JsonNumber};
use ap_alert::messages::APServerMessage;

fn text(s: &str) -> Json {
    Json::Str(s.to_string())
}

fn num(n: u64) -> Json {
    Json::Number(JsonNumber::PosInt(n))
}

fn obj(members: Vec<(&str, Json)>) -> Json {
    Json::Object(
        members
            .into_iter()
            .map(|(k, v)| Field { key: k.to_string(), value: v })
            .collect(),
    )
}

fn room_info() -> Json {
    obj(vec![
        ("cmd", text("RoomInfo")),
        ("password", Json::Bool(false)),
        ("hint_cost", num(10)),
        ("location_check_points", num(1)),
    ])
}

fn info(slot: &str, port: &str) -> ConnectionInfo {
    ConnectionInfo {
        ip: "127.0.0.1".to_string(),
        port: port.to_string(),
        slot: slot.to_string(),
        password: String::new(),
    }
}

fn open_supervisor(slot: &str) -> Supervisor {
    let mut s = Supervisor::new();
    s.on_command(InputMessage::Connect(info(slot, "38281")));
    s.on_dialed(DialOutcome::Connected);
    assert_eq!(s.link, Link::Open);
    s
}

const ALICE_CONNECT: &str = "[{\"cmd\":\"Connect\",\"name\":\"Alice\",\"password\":\"\",\"game\":\"\",\"uuid\":\"\",\
\"version\":{\"class\":\"Version\",\"major\":5,\"minor\":0,\"build\":0},\
\"items_handling\":0,\"tags\":[\"Tracker\"],\"slot_data\":false}]";

#[test]
fn starts_waiting_without_parameters() {
    let s = Supervisor::new();
    assert_eq!(s.params, None);
    assert_eq!(s.link, Link::Waiting);
    assert_eq!(s.waiting_on(), Wait::Command);
}

#[test]
fn first_command_dials_over_tls() {
    let mut s = Supervisor::new();
    let out = s.on_command(InputMessage::Connect(info("Alice", "38281")));
    assert_eq!(out, vec![Action::Dial("wss://127.0.0.1:38281".to_string())]);
    assert_eq!(s.link, Link::Dialing(Scheme::Secure));
    assert_eq!(s.waiting_on(), Wait::DialResult);
    assert_eq!(s.params, Some(info("Alice", "38281")));
}

#[test]
fn tls_failure_falls_back_to_plain_once() {
    let mut s = Supervisor::new();
    s.on_command(InputMessage::Connect(info("Alice", "38281")));
    let out = s.on_dialed(DialOutcome::TlsFailure);
    assert_eq!(out, vec![Action::Dial("ws://127.0.0.1:38281".to_string())]);
    assert_eq!(s.link, Link::Dialing(Scheme::Plain));
    let out = s.on_dialed(DialOutcome::TlsFailure);
    assert_eq!(out, vec![Action::DialFailed]);
    assert_eq!(s.link, Link::Waiting);
}

#[test]
fn other_dial_failure_is_not_retried() {
    let mut s = Supervisor::new();
    s.on_command(InputMessage::Connect(info("Alice", "38281")));
    let out = s.on_dialed(DialOutcome::OtherFailure);
    assert_eq!(out, vec![Action::DialFailed]);
    assert_eq!(s.link, Link::Waiting);
    assert_eq!(s.waiting_on(), Wait::Command);
    assert_eq!(s.params, Some(info("Alice", "38281")));
}

#[test]
fn plain_fallback_can_connect() {
    let mut s = Supervisor::new();
    s.on_command(InputMessage::Connect(info("Alice", "38281")));
    s.on_dialed(DialOutcome::TlsFailure);
    let out = s.on_dialed(DialOutcome::Connected);
    assert!(out.is_empty());
    assert_eq!(s.link, Link::Open);
    assert_eq!(s.waiting_on(), Wait::FrameOrCommand);
}

#[test]
fn room_info_is_answered_with_handshake() {
    let s = open_supervisor("Alice");
    let out = s.on_frame(Inbound::Text(Json::Array(vec![room_info()])));
    assert_eq!(out, vec![Action::Send(ALICE_CONNECT.to_string())]);
}

#[test]
fn handshake_once_among_other_messages() {
    let s = open_supervisor("Alice");
    let batch = Json::Array(vec![
        obj(vec![("cmd", text("Bounced"))]),
        room_info(),
        obj(vec![("cmd", text("Retrieved"))]),
    ]);
    let out = s.on_frame(Inbound::Text(batch));
    assert_eq!(
        out,
        vec![
            Action::Forward(APServerMessage::Bounced),
            Action::Send(handshake(&info("Alice", "38281"))),
            Action::Forward(APServerMessage::Retrieved),
        ]
    );
    let later = s.on_frame(Inbound::Text(Json::Array(vec![obj(vec![("cmd", text("Bounced"))])])));
    assert_eq!(later, vec![Action::Forward(APServerMessage::Bounced)]);
}

#[test]
fn command_while_open_supersedes_transport() {
    let mut s = open_supervisor("Alice");
    let out = s.on_command(InputMessage::Connect(info("Bob", "1234")));
    assert_eq!(out, vec![Action::DropTransport, Action::Dial("wss://127.0.0.1:1234".to_string())]);
    assert_eq!(s.link, Link::Dialing(Scheme::Secure));
    let buffered = s.on_frame(Inbound::Text(Json::Array(vec![room_info()])));
    assert!(buffered.is_empty());
    s.on_dialed(DialOutcome::Connected);
    let out = s.on_frame(Inbound::Text(Json::Array(vec![room_info()])));
    assert_eq!(out, vec![Action::Send(handshake(&info("Bob", "1234")))]);
}

#[test]
fn command_while_dialing_replaces_parameters() {
    let mut s = Supervisor::new();
    s.on_command(InputMessage::Connect(info("Alice", "38281")));
    let out = s.on_command(InputMessage::Connect(info("Carol", "38281")));
    assert!(out.is_empty());
    assert_eq!(s.link, Link::Dialing(Scheme::Secure));
    assert_eq!(s.params, Some(info("Carol", "38281")));
}

#[test]
fn mixed_batch_is_dropped_and_stays_open() {
    let s = open_supervisor("Alice");
    let batch = Json::Array(vec![obj(vec![("cmd", text("Bounced"))]), obj(vec![("cmd", num(5))])]);
    let out = s.on_frame(Inbound::Text(batch));
    assert_eq!(out, vec![Action::DropBatch(DecodeError::BadMessage { index: 1 })]);
    assert_eq!(s.link, Link::Open);
}

#[test]
fn malformed_and_other_frames() {
    let s = open_supervisor("Alice");
    assert_eq!(s.on_frame(Inbound::Malformed), vec![Action::DropBatch(DecodeError::Syntax)]);
    assert!(s.on_frame(Inbound::Other).is_empty());
    assert_eq!(
        s.on_frame(Inbound::Text(room_info())),
        vec![Action::DropBatch(DecodeError::NotABatch)]
    );
}

#[test]
fn transport_loss_redials_with_same_parameters() {
    let mut s = open_supervisor("Alice");
    let out = s.on_transport_lost();
    assert_eq!(out, vec![Action::DropTransport, Action::Dial("wss://127.0.0.1:38281".to_string())]);
    assert_eq!(s.link, Link::Dialing(Scheme::Secure));
    assert_eq!(s.params, Some(info("Alice", "38281")));
    let mut idle = Supervisor::new();
    assert!(idle.on_transport_lost().is_empty());
    assert_eq!(idle.link, Link::Waiting);
}

#[test]
fn empty_batch_is_a_no_op() {
    let s = open_supervisor("Alice");
    assert!(s.on_frame(Inbound::Text(Json::Array(vec![]))).is_empty());
    assert_eq!(s.link, Link::Open);
}
