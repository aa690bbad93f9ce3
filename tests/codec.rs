use ap_alert::codec::{decode_batch, decode_message, DecodeError};
use ap_alert::json::{Field, Json, JsonNumber};
use ap_alert::messages::{APServerMessage, ItemType, NetworkItem, PrintJSON, RoomInfo};

fn text(s: &str) -> Json {
    Json::Str(s.to_string())
}

fn num(n: u64) -> Json {
    Json::Number(JsonNumber::PosInt(n))
}

fn obj(members: Vec<(&str, Json)>) -> Json {
    Json::Object(
        members
            .into_iter()
            .map(|(k, v)| Field { key: k.to_string(), value: v })
            .collect(),
    )
}

fn room_info() -> Json {
    obj(vec![
        ("cmd", text("RoomInfo")),
        ("password", Json::Bool(false)),
        ("hint_cost", num(10)),
        ("location_check_points", num(1)),
        ("seed_name", text("abc")),
    ])
}

fn item(flags: u64) -> Json {
    obj(vec![("item", num(7)), ("location", num(8)), ("player", num(2)), ("flags", num(flags))])
}

fn item_send(flags: u64) -> Json {
    obj(vec![
        ("cmd", text("PrintJSON")),
        ("type", text("ItemSend")),
        ("data", Json::Array(vec![obj(vec![("text", text("hello")), ("type", Json::Null)])])),
        ("receiving", num(3)),
        ("item", item(flags)),
    ])
}

#[test]
fn decode_room_info_ignores_extra_members() {
    let m = decode_message(&room_info());
    assert_eq!(
        m,
        Some(APServerMessage::RoomInfo(RoomInfo { password: false, hint_cost: 10, location_check_points: 1 }))
    );
}

#[test]
fn decode_room_info_missing_member_fails() {
    let j = obj(vec![("cmd", text("RoomInfo")), ("password", Json::Bool(true)), ("hint_cost", num(1))]);
    assert_eq!(decode_message(&j), None);
}

#[test]
fn decode_u32_out_of_range_or_negative_fails() {
    let big = obj(vec![
        ("cmd", text("RoomInfo")),
        ("password", Json::Bool(true)),
        ("hint_cost", num(1u64 << 32)),
        ("location_check_points", num(0)),
    ]);
    assert_eq!(decode_message(&big), None);
    let neg = obj(vec![
        ("cmd", text("RoomInfo")),
        ("password", Json::Bool(true)),
        ("hint_cost", Json::Number(JsonNumber::NegInt(-1))),
        ("location_check_points", num(0)),
    ]);
    assert_eq!(decode_message(&neg), None);
    let max = obj(vec![
        ("cmd", text("RoomInfo")),
        ("password", Json::Bool(true)),
        ("hint_cost", num(u32::MAX as u64)),
        ("location_check_points", num(0)),
    ]);
    assert!(matches!(decode_message(&max), Some(APServerMessage::RoomInfo(r)) if r.hint_cost == u32::MAX));
}

#[test]
fn decode_unknown_tag_fails() {
    let j = obj(vec![("cmd", text("Sync"))]);
    assert_eq!(decode_message(&j), None);
    let untagged = obj(vec![("password", Json::Bool(true))]);
    assert_eq!(decode_message(&untagged), None);
    assert_eq!(decode_message(&text("RoomInfo")), None);
}

#[test]
fn decode_marker_messages_ignore_members() {
    let j = obj(vec![("cmd", text("ReceivedItems")), ("index", num(0)), ("items", Json::Array(vec![]))]);
    assert_eq!(decode_message(&j), Some(APServerMessage::ReceivedItems));
    let j = obj(vec![("cmd", text("SetReply"))]);
    assert_eq!(decode_message(&j), Some(APServerMessage::SetReply));
    let j = obj(vec![("cmd", text("RoomUpdate")), ("hint_points", num(3))]);
    assert!(matches!(decode_message(&j), Some(APServerMessage::RoomUpdate(_))));
}

#[test]
fn decode_connected_with_players() {
    let player = obj(vec![("team", num(0)), ("slot", num(1)), ("alias", text("Al")), ("name", text("Alice"))]);
    let j = obj(vec![
        ("cmd", text("Connected")),
        ("team", num(0)),
        ("slot", num(1)),
        ("players", Json::Array(vec![player])),
        ("missing_locations", Json::Array(vec![num(5), num(6)])),
        ("checked_locations", Json::Array(vec![])),
        ("hint_points", num(4)),
    ]);
    match decode_message(&j) {
        Some(APServerMessage::Connected(c)) => {
            assert_eq!(c.team, 0);
            assert_eq!(c.slot, 1);
            assert_eq!(c.players.len(), 1);
            assert_eq!(c.players[0].name, "Alice");
            assert_eq!(c.players[0].alias, "Al");
            assert_eq!(c.missing_locations, vec![5, 6]);
            assert!(c.checked_locations.is_empty());
            assert_eq!(c.hint_points, 4);
        },
        other => panic!("unexpected {:?}", other),
    }
}

#[test]
fn decode_connection_refused_errors() {
    let j = obj(vec![("cmd", text("ConnectionRefused")), ("errors", Json::Array(vec![text("InvalidSlot")]))]);
    match decode_message(&j) {
        Some(APServerMessage::ConnectionRefused(c)) => assert_eq!(c.errors, vec!["InvalidSlot".to_string()]),
        other => panic!("unexpected {:?}", other),
    }
    let bad = obj(vec![("cmd", text("ConnectionRefused")), ("errors", Json::Array(vec![num(1)]))]);
    assert_eq!(decode_message(&bad), None);
}

#[test]
fn decode_print_json_item_send() {
    match decode_message(&item_send(4)) {
        Some(APServerMessage::PrintJSON(PrintJSON::ItemSend { data, receiving, item })) => {
            assert_eq!(receiving, 3);
            assert_eq!(item, NetworkItem { item: 7, location: 8, player: 2, flags: ItemType::Trap });
            assert_eq!(data.len(), 1);
            assert_eq!(data[0].text, Some("hello".to_string()));
            assert_eq!(data[0].part_type, None);
            assert_eq!(data[0].color, None);
            assert_eq!(data[0].flags, None);
        },
        other => panic!("unexpected {:?}", other),
    }
}

#[test]
fn decode_print_json_needs_known_type() {
    let j = obj(vec![("cmd", text("PrintJSON")), ("type", text("Dance")), ("data", Json::Array(vec![]))]);
    assert_eq!(decode_message(&j), None);
    let j = obj(vec![("cmd", text("PrintJSON")), ("type", text("Countdown")), ("data", Json::Array(vec![])), ("countdown", num(3))]);
    assert!(matches!(
        decode_message(&j),
        Some(APServerMessage::PrintJSON(PrintJSON::Countdown { countdown: 3, .. }))
    ));
}

#[test]
fn item_type_codes_are_an_exact_set() {
    assert_eq!(ItemType::from_code(0), Some(ItemType::Normal));
    assert_eq!(ItemType::from_code(1), Some(ItemType::Logical));
    assert_eq!(ItemType::from_code(2), Some(ItemType::Important));
    assert_eq!(ItemType::from_code(4), Some(ItemType::Trap));
    for code in [3u64, 5, 6, 7, 8, u64::MAX] {
        assert_eq!(ItemType::from_code(code), None);
    }
    assert_eq!(ItemType::Trap.code(), 4);
}

#[test]
fn item_flags_three_fails_the_message() {
    assert_eq!(decode_message(&item_send(3)), None);
    let batch = Json::Array(vec![item_send(3)]);
    assert_eq!(decode_batch(&batch), Err(DecodeError::BadMessage { index: 0 }));
}

#[test]
fn batch_with_one_bad_message_is_rejected_whole() {
    let bad = obj(vec![("cmd", text("RoomInfo"))]);
    let batch = Json::Array(vec![item_send(1), bad]);
    assert_eq!(decode_batch(&batch), Err(DecodeError::BadMessage { index: 1 }));
}

#[test]
fn batch_must_be_an_array() {
    assert_eq!(decode_batch(&room_info()), Err(DecodeError::NotABatch));
    assert_eq!(decode_batch(&Json::Array(vec![])), Ok(vec![]));
}

#[test]
fn batch_keeps_message_order() {
    let batch = Json::Array(vec![obj(vec![("cmd", text("Bounced"))]), room_info()]);
    let ms = decode_batch(&batch).unwrap();
    assert_eq!(ms.len(), 2);
    assert_eq!(ms[0], APServerMessage::Bounced);
    assert!(matches!(ms[1], APServerMessage::RoomInfo(_)));
}
