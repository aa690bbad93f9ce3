use ap_alert::connection::{handshake, ConnectionInfo};
use ap_alert::encode::encode_client_batch;
use ap_alert::messages::{APClientMessage, Connect, Version};

#[test]
fn default_connection_info() {
    let d = ConnectionInfo::default();
    assert_eq!(d.ip, "127.0.0.1");
    assert_eq!(d.port, "38281");
    assert_eq!(d.slot, "");
    assert_eq!(d.password, "");
}

#[test]
fn handshake_for_alice() {
    let p = ConnectionInfo {
        ip: "127.0.0.1".to_string(),
        port: "38281".to_string(),
        slot: "Alice".to_string(),
        password: String::new(),
    };
    assert_eq!(
        handshake(&p),
        "[{\"cmd\":\"Connect\",\"name\":\"Alice\",\"password\":\"\",\"game\":\"\",\"uuid\":\"\",\
         \"version\":{\"class\":\"Version\",\"major\":5,\"minor\":0,\"build\":0},\
         \"items_handling\":0,\"tags\":[\"Tracker\"],\"slot_data\":false}]"
    );
}

#[test]
fn encode_escapes_strings_and_writes_numbers() {
    let c = Connect {
        name: "a\"b\\c".to_string(),
        password: "p\n".to_string(),
        game: "G".to_string(),
        uuid: "u".to_string(),
        version: Version { major: 12, minor: 345, build: 4294967295 },
        items_handling: 7,
        tags: vec!["x".to_string(), "y".to_string()],
        slot_data: true,
    };
    let out = encode_client_batch(&vec![APClientMessage::Connect(c)]);
    assert_eq!(
        out,
        "[{\"cmd\":\"Connect\",\"name\":\"a\\\"b\\\\c\",\"password\":\"p\\n\",\"game\":\"G\",\"uuid\":\"u\",\
         \"version\":{\"class\":\"Version\",\"major\":12,\"minor\":345,\"build\":4294967295},\
         \"items_handling\":7,\"tags\":[\"x\",\"y\"],\"slot_data\":true}]"
    );
}

#[test]
fn encode_batches_of_zero_and_two() {
    assert_eq!(encode_client_batch(&vec![]), "[]");
    let c = Connect { name: "A".to_string(), password: "B".to_string(), ..Connect::default() };
    let one = encode_client_batch(&vec![APClientMessage::Connect(c.clone())]);
    let two = encode_client_batch(&vec![APClientMessage::Connect(c.clone()), APClientMessage::Connect(c)]);
    let inner = &one[1..one.len() - 1];
    assert_eq!(two, format!("[{},{}]", inner, inner));
}
