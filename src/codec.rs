//! Reading server batches: a batch is a JSON array of tagged message objects,
//! and it is accepted whole or not at all.
use vstd::prelude::*;
use crate::json::{
    bool_at, bool_field, elements, find_field, lemma_list_of_fails, lemma_list_of_step, list_of,
    lookup, members, opt_text_at, opt_text_field, opt_u32_at, opt_u32_field, seq_opt, text_at,
    text_field, text_is, text_list_at, text_list_field, u32_at, u32_field, u32_list_at,
    u32_list_field, Field, Json, JsonNumber,
};
use crate::messages::{
    item_type_of, APServerMessage, Connected, ConnectionRefused, ItemType, JSONMessagePart,
    NetworkItem, NetworkPlayer, PrintJSON, RoomInfo, RoomUpdate,
};

verus! {

/// Why a batch was dropped.
#[derive(Debug, Clone, Copy, PartialEq, Eq)]
pub enum DecodeError {
    /// The frame's text is not JSON at all.
    Syntax,
    /// The document is not an array.
    NotABatch,
    /// The element at `index` is the first that is no known message.
    BadMessage { index: usize },
}

pub open spec fn as_item_type(j: Json) -> Option<ItemType> {
    match j {
        Json::Number(JsonNumber::PosInt(v)) => item_type_of(v),
        _ => None,
    }
}

pub open spec fn item_of(j: Json) -> Option<NetworkItem> {
    match members(j) {
        Some(fs) => match (u32_at(fs, "item"@), u32_at(fs, "location"@), u32_at(fs, "player"@), lookup(fs, "flags"@)) {
            (Some(item), Some(location), Some(player), Some(f)) => match as_item_type(f) {
                Some(flags) => Some(NetworkItem { item, location, player, flags }),
                None => None,
            },
            _ => None,
        },
        None => None,
    }
}

pub open spec fn player_of(j: Json) -> Option<NetworkPlayer> {
    match members(j) {
        Some(fs) => match (u32_at(fs, "team"@), u32_at(fs, "slot"@), text_at(fs, "alias"@), text_at(fs, "name"@)) {
            (Some(team), Some(slot), Some(alias), Some(name)) => Some(NetworkPlayer { team, slot, alias, name }),
            _ => None,
        },
        None => None,
    }
}

pub open spec fn part_of(j: Json) -> Option<JSONMessagePart> {
    match members(j) {
        Some(fs) => match (opt_text_at(fs, "type"@), opt_text_at(fs, "text"@), opt_text_at(fs, "color"@)) {
            (Some(part_type), Some(text), Some(color)) => match (opt_u32_at(fs, "flags"@), opt_u32_at(fs, "player"@)) {
                (Some(flags), Some(player)) => Some(JSONMessagePart { part_type, text, color, flags, player }),
                _ => None,
            },
            _ => None,
        },
        None => None,
    }
}

pub open spec fn player_decoder() -> spec_fn(Json) -> Option<NetworkPlayer> {
    |x: Json| player_of(x)
}

pub open spec fn part_decoder() -> spec_fn(Json) -> Option<JSONMessagePart> {
    |x: Json| part_of(x)
}

pub open spec fn item_at(fs: Seq<Field>, key: Seq<char>) -> Option<NetworkItem> {
    match lookup(fs, key) {
        Some(v) => item_of(v),
        None => None,
    }
}

pub open spec fn player_list_at(fs: Seq<Field>, key: Seq<char>) -> Option<Seq<NetworkPlayer>> {
    match lookup(fs, key) {
        Some(Json::Array(items)) => list_of(items@, player_decoder()),
        _ => None,
    }
}

pub open spec fn part_list_at(fs: Seq<Field>, key: Seq<char>) -> Option<Seq<JSONMessagePart>> {
    match lookup(fs, key) {
        Some(Json::Array(items)) => list_of(items@, part_decoder()),
        _ => None,
    }
}

/// `p` is what the members `fs` of a printable event read as.
pub open spec fn print_json_is(fs: Seq<Field>, p: PrintJSON) -> bool {
    match text_at(fs, "type"@) {
        None => false,
        Some(t) => {
            let tag = t@;
            let data = part_list_at(fs, "data"@);
            let receiving = u32_at(fs, "receiving"@);
            let item = item_at(fs, "item"@);
            let team = u32_at(fs, "team"@);
            let slot = u32_at(fs, "slot"@);
            if tag == "Text"@ {
                p matches PrintJSON::Text { data: d } && data == Some(d@)
            } else if tag == "ItemSend"@ {
                &&& p matches PrintJSON::ItemSend { data: d, receiving: rc, item: it }
                &&& data == Some(d@) && receiving == Some(rc) && item == Some(it)
            } else if tag == "ItemCheat"@ {
                &&& p matches PrintJSON::ItemCheat { data: d, receiving: rc, item: it, team: tm }
                &&& data == Some(d@) && receiving == Some(rc) && item == Some(it) && team == Some(tm)
            } else if tag == "Hint"@ {
                &&& p matches PrintJSON::Hint { data: d, receiving: rc, item: it, found }
                &&& data == Some(d@) && receiving == Some(rc) && item == Some(it)
                &&& bool_at(fs, "found"@) == Some(found)
            } else if tag == "Join"@ {
                &&& p matches PrintJSON::Join { data: d, team: tm, slot: sl, tags }
                &&& data == Some(d@) && team == Some(tm) && slot == Some(sl)
                &&& text_list_at(fs, "tags"@) == Some(tags@)
            } else if tag == "Part"@ {
                &&& p matches PrintJSON::Part { data: d, team: tm, slot: sl }
                &&& data == Some(d@) && team == Some(tm) && slot == Some(sl)
            } else if tag == "Chat"@ {
                &&& p matches PrintJSON::Chat { data: d, team: tm, slot: sl, message }
                &&& data == Some(d@) && team == Some(tm) && slot == Some(sl)
                &&& text_at(fs, "message"@) == Some(message)
            } else if tag == "ServerChat"@ {
                &&& p matches PrintJSON::ServerChat { data: d, message }
                &&& data == Some(d@) && text_at(fs, "message"@) == Some(message)
            } else if tag == "Tutorial"@ {
                p matches PrintJSON::Tutorial { data: d } && data == Some(d@)
            } else if tag == "TagsChanged"@ {
                &&& p matches PrintJSON::TagsChanged { data: d, team: tm, slot: sl, tags }
                &&& data == Some(d@) && team == Some(tm) && slot == Some(sl)
                &&& text_list_at(fs, "tags"@) == Some(tags@)
            } else if tag == "CommandResult"@ {
                p matches PrintJSON::CommandResult { data: d } && data == Some(d@)
            } else if tag == "AdminCommandResult"@ {
                p matches PrintJSON::AdminCommandResult { data: d } && data == Some(d@)
            } else if tag == "Goal"@ {
                &&& p matches PrintJSON::Goal { data: d, team: tm, slot: sl }
                &&& data == Some(d@) && team == Some(tm) && slot == Some(sl)
            } else if tag == "Release"@ {
                &&& p matches PrintJSON::Release { data: d, team: tm, slot: sl }
                &&& data == Some(d@) && team == Some(tm) && slot == Some(sl)
            } else if tag == "Collect"@ {
                &&& p matches PrintJSON::Collect { data: d, team: tm, slot: sl }
                &&& data == Some(d@) && team == Some(tm) && slot == Some(sl)
            } else if tag == "Countdown"@ {
                &&& p matches PrintJSON::Countdown { data: d, countdown }
                &&& data == Some(d@) && u32_at(fs, "countdown"@) == Some(countdown)
            } else {
                false
            }
        },
    }
}

/// `c` is what the members `fs` of a `Connected` message read as.
pub open spec fn connected_is(fs: Seq<Field>, c: Connected) -> bool {
    &&& u32_at(fs, "team"@) == Some(c.team)
    &&& u32_at(fs, "slot"@) == Some(c.slot)
    &&& player_list_at(fs, "players"@) == Some(c.players@)
    &&& u32_list_at(fs, "missing_locations"@) == Some(c.missing_locations@)
    &&& u32_list_at(fs, "checked_locations"@) == Some(c.checked_locations@)
    &&& u32_at(fs, "hint_points"@) == Some(c.hint_points)
}

/// `m` is the message that the JSON value `j` reads as: an object whose `cmd`
/// member names a known message, with the members that message needs.
/// Members that a message does not read are ignored.
pub open spec fn decodes_to(j: Json, m: APServerMessage) -> bool {
    match members(j) {
        None => false,
        Some(fs) => match text_at(fs, "cmd"@) {
            None => false,
            Some(t) => {
                let tag = t@;
                if tag == "RoomInfo"@ {
                    &&& m matches APServerMessage::RoomInfo(r)
                    &&& bool_at(fs, "password"@) == Some(r.password)
                    &&& u32_at(fs, "hint_cost"@) == Some(r.hint_cost)
                    &&& u32_at(fs, "location_check_points"@) == Some(r.location_check_points)
                } else if tag == "ConnectionRefused"@ {
                    &&& m matches APServerMessage::ConnectionRefused(c)
                    &&& text_list_at(fs, "errors"@) == Some(c.errors@)
                } else if tag == "Connected"@ {
                    m matches APServerMessage::Connected(c) && connected_is(fs, c)
                } else if tag == "ReceivedItems"@ {
                    m is ReceivedItems
                } else if tag == "LocationInfo"@ {
                    m is LocationInfo
                } else if tag == "RoomUpdate"@ {
                    m is RoomUpdate
                } else if tag == "PrintJSON"@ {
                    m matches APServerMessage::PrintJSON(p) && print_json_is(fs, p)
                } else if tag == "DataPackage"@ {
                    m is DataPackage
                } else if tag == "Bounced"@ {
                    m is Bounced
                } else if tag == "InvalidPacket"@ {
                    m is InvalidPacket
                } else if tag == "Retrieved"@ {
                    m is Retrieved
                } else if tag == "SetReply"@ {
                    m is SetReply
                } else {
                    false
                }
            },
        },
    }
}

/// `j` reads as no message at all.
pub open spec fn message_fails(j: Json) -> bool {
    forall|m: APServerMessage| !#[trigger] decodes_to(j, m)
}

/// `j` is an object whose `cmd` member is `RoomInfo`.
pub open spec fn is_room_info(j: Json) -> bool {
    match members(j) {
        Some(fs) => match text_at(fs, "cmd"@) {
            Some(t) => t@ == "RoomInfo"@,
            None => false,
        },
        None => false,
    }
}

/// `ms` is what the batch `j` reads as, element by element.
pub open spec fn batch_decodes_to(j: Json, ms: Seq<APServerMessage>) -> bool {
    match elements(j) {
        Some(items) => items.len() == ms.len() && forall|i: int|
            0 <= i < items.len() ==> #[trigger] decodes_to(items[i], ms[i]),
        None => false,
    }
}

/// Whether the batch `j` is accepted: an array of which every element reads
/// as a message.
pub open spec fn batch_ok(j: Json) -> bool {
    match elements(j) {
        Some(items) => forall|i: int| 0 <= i < items.len() ==> !message_fails(#[trigger] items[i]),
        None => false,
    }
}

/// The error that a batch that is not accepted is dropped with.
pub open spec fn batch_error_is(j: Json, e: DecodeError) -> bool {
    match e {
        DecodeError::Syntax => false,
        DecodeError::NotABatch => elements(j) is None,
        DecodeError::BadMessage { index } => match elements(j) {
            Some(items) => {
                &&& index < items.len()
                &&& message_fails(items[index as int])
                &&& forall|k: int| 0 <= k < index ==> !message_fails(#[trigger] items[k])
            },
            None => false,
        },
    }
}

pub fn read_item(j: &Json) -> (r: Option<NetworkItem>)
    ensures
        r == item_of(*j),
{
    let fs = match j {
        Json::Object(fs) => fs,
        _ => return None,
    };
    match (u32_field(fs, "item"), u32_field(fs, "location"), u32_field(fs, "player"), find_field(fs, "flags")) {
        (Some(item), Some(location), Some(player), Some(f)) => {
            let flags = match f {
                Json::Number(JsonNumber::PosInt(v)) => ItemType::from_code(*v),
                _ => None,
            };
            match flags {
                Some(flags) => Some(NetworkItem { item, location, player, flags }),
                None => None,
            }
        },
        _ => None,
    }
}

pub fn read_player(j: &Json) -> (r: Option<NetworkPlayer>)
    ensures
        r == player_of(*j),
{
    let fs = match j {
        Json::Object(fs) => fs,
        _ => return None,
    };
    match (u32_field(fs, "team"), u32_field(fs, "slot"), text_field(fs, "alias"), text_field(fs, "name")) {
        (Some(team), Some(slot), Some(alias), Some(name)) => Some(NetworkPlayer { team, slot, alias, name }),
        _ => None,
    }
}

pub fn read_part(j: &Json) -> (r: Option<JSONMessagePart>)
    ensures
        r == part_of(*j),
{
    let fs = match j {
        Json::Object(fs) => fs,
        _ => return None,
    };
    match (opt_text_field(fs, "type"), opt_text_field(fs, "text"), opt_text_field(fs, "color")) {
        (Some(part_type), Some(text), Some(color)) => match (opt_u32_field(fs, "flags"), opt_u32_field(fs, "player")) {
            (Some(flags), Some(player)) => Some(JSONMessagePart { part_type, text, color, flags, player }),
            _ => None,
        },
        _ => None,
    }
}

pub fn item_field(fs: &Vec<Field>, key: &str) -> (r: Option<NetworkItem>)
    ensures
        r == item_at(fs@, key@),
{
    match find_field(fs, key) {
        Some(v) => read_item(v),
        None => None,
    }
}

pub fn player_list_field(fs: &Vec<Field>, key: &str) -> (r: Option<Vec<NetworkPlayer>>)
    ensures
        seq_opt(r) == player_list_at(fs@, key@),
{
    match find_field(fs, key) {
        Some(Json::Array(items)) => {
            let mut out: Vec<NetworkPlayer> = Vec::new();
            let mut i: usize = 0;
            while i < items.len()
                invariant
                    i <= items@.len(),
                    list_of(items@.take(i as int), player_decoder()) == Some(out@),
                    lookup(fs@, key@) == Some(Json::Array(*items)),
                decreases items.len() - i,
            {
                proof {
                    lemma_list_of_step(items@, i as int, player_decoder());
                }
                match read_player(&items[i]) {
                    Some(v) => out.push(v),
                    None => {
                        proof {
                            assert(list_of(items@.take(i + 1), player_decoder()) is None);
                            lemma_list_of_fails(items@, i + 1, player_decoder());
                        }
                        return None;
                    },
                }
                i += 1;
            }
            assert(items@.take(items@.len() as int) =~= items@);
            Some(out)
        },
        _ => None,
    }
}

pub fn part_list_field(fs: &Vec<Field>, key: &str) -> (r: Option<Vec<JSONMessagePart>>)
    ensures
        seq_opt(r) == part_list_at(fs@, key@),
{
    match find_field(fs, key) {
        Some(Json::Array(items)) => {
            let mut out: Vec<JSONMessagePart> = Vec::new();
            let mut i: usize = 0;
            while i < items.len()
                invariant
                    i <= items@.len(),
                    list_of(items@.take(i as int), part_decoder()) == Some(out@),
                    lookup(fs@, key@) == Some(Json::Array(*items)),
                decreases items.len() - i,
            {
                proof {
                    lemma_list_of_step(items@, i as int, part_decoder());
                }
                match read_part(&items[i]) {
                    Some(v) => out.push(v),
                    None => {
                        proof {
                            assert(list_of(items@.take(i + 1), part_decoder()) is None);
                            lemma_list_of_fails(items@, i + 1, part_decoder());
                        }
                        return None;
                    },
                }
                i += 1;
            }
            assert(items@.take(items@.len() as int) =~= items@);
            Some(out)
        },
        _ => None,
    }
}

/// Reads the members of a printable event.
pub fn decode_print_json(fs: &Vec<Field>) -> (r: Option<PrintJSON>)
    ensures
        match r {
            Some(p) => print_json_is(fs@, p),
            None => forall|p: PrintJSON| !#[trigger] print_json_is(fs@, p),
        },
{
    let tag = match text_field(fs, "type") {
        Some(t) => t,
        None => return None,
    };
    let data = match part_list_field(fs, "data") {
        Some(d) => d,
        None => return None,
    };
    if text_is(&tag, "Text") {
        Some(PrintJSON::Text { data })
    } else if text_is(&tag, "ItemSend") {
        match (u32_field(fs, "receiving"), item_field(fs, "item")) {
            (Some(receiving), Some(item)) => Some(PrintJSON::ItemSend { data, receiving, item }),
            _ => None,
        }
    } else if text_is(&tag, "ItemCheat") {
        match (u32_field(fs, "receiving"), item_field(fs, "item"), u32_field(fs, "team")) {
            (Some(receiving), Some(item), Some(team)) => Some(PrintJSON::ItemCheat { data, receiving, item, team }),
            _ => None,
        }
    } else if text_is(&tag, "Hint") {
        match (u32_field(fs, "receiving"), item_field(fs, "item"), bool_field(fs, "found")) {
            (Some(receiving), Some(item), Some(found)) => Some(PrintJSON::Hint { data, receiving, item, found }),
            _ => None,
        }
    } else if text_is(&tag, "Join") {
        match (u32_field(fs, "team"), u32_field(fs, "slot"), text_list_field(fs, "tags")) {
            (Some(team), Some(slot), Some(tags)) => Some(PrintJSON::Join { data, team, slot, tags }),
            _ => None,
        }
    } else if text_is(&tag, "Part") {
        match (u32_field(fs, "team"), u32_field(fs, "slot")) {
            (Some(team), Some(slot)) => Some(PrintJSON::Part { data, team, slot }),
            _ => None,
        }
    } else if text_is(&tag, "Chat") {
        match (u32_field(fs, "team"), u32_field(fs, "slot"), text_field(fs, "message")) {
            (Some(team), Some(slot), Some(message)) => Some(PrintJSON::Chat { data, team, slot, message }),
            _ => None,
        }
    } else if text_is(&tag, "ServerChat") {
        match text_field(fs, "message") {
            Some(message) => Some(PrintJSON::ServerChat { data, message }),
            _ => None,
        }
    } else if text_is(&tag, "Tutorial") {
        Some(PrintJSON::Tutorial { data })
    } else if text_is(&tag, "TagsChanged") {
        match (u32_field(fs, "team"), u32_field(fs, "slot"), text_list_field(fs, "tags")) {
            (Some(team), Some(slot), Some(tags)) => Some(PrintJSON::TagsChanged { data, team, slot, tags }),
            _ => None,
        }
    } else if text_is(&tag, "CommandResult") {
        Some(PrintJSON::CommandResult { data })
    } else if text_is(&tag, "AdminCommandResult") {
        Some(PrintJSON::AdminCommandResult { data })
    } else if text_is(&tag, "Goal") {
        match (u32_field(fs, "team"), u32_field(fs, "slot")) {
            (Some(team), Some(slot)) => Some(PrintJSON::Goal { data, team, slot }),
            _ => None,
        }
    } else if text_is(&tag, "Release") {
        match (u32_field(fs, "team"), u32_field(fs, "slot")) {
            (Some(team), Some(slot)) => Some(PrintJSON::Release { data, team, slot }),
            _ => None,
        }
    } else if text_is(&tag, "Collect") {
        match (u32_field(fs, "team"), u32_field(fs, "slot")) {
            (Some(team), Some(slot)) => Some(PrintJSON::Collect { data, team, slot }),
            _ => None,
        }
    } else if text_is(&tag, "Countdown") {
        match u32_field(fs, "countdown") {
            Some(countdown) => Some(PrintJSON::Countdown { data, countdown }),
            _ => None,
        }
    } else {
        None
    }
}

/// Reads the members of a `Connected` message.
pub fn decode_connected(fs: &Vec<Field>) -> (r: Option<Connected>)
    ensures
        match r {
            Some(c) => connected_is(fs@, c),
            None => forall|c: Connected| !#[trigger] connected_is(fs@, c),
        },
{
    let team = match u32_field(fs, "team") {
        Some(v) => v,
        None => return None,
    };
    let slot = match u32_field(fs, "slot") {
        Some(v) => v,
        None => return None,
    };
    let players = match player_list_field(fs, "players") {
        Some(v) => v,
        None => return None,
    };
    let missing_locations = match u32_list_field(fs, "missing_locations") {
        Some(v) => v,
        None => return None,
    };
    let checked_locations = match u32_list_field(fs, "checked_locations") {
        Some(v) => v,
        None => return None,
    };
    let hint_points = match u32_field(fs, "hint_points") {
        Some(v) => v,
        None => return None,
    };
    Some(Connected { team, slot, players, missing_locations, checked_locations, hint_points })
}

/// Reads one server message.
pub fn decode_message(j: &Json) -> (r: Option<APServerMessage>)
    ensures
        match r {
            Some(m) => decodes_to(*j, m),
            None => message_fails(*j),
        },
{
    let fs = match j {
        Json::Object(fs) => fs,
        _ => return None,
    };
    let tag = match text_field(fs, "cmd") {
        Some(t) => t,
        None => return None,
    };
    if text_is(&tag, "RoomInfo") {
        match (bool_field(fs, "password"), u32_field(fs, "hint_cost"), u32_field(fs, "location_check_points")) {
            (Some(password), Some(hint_cost), Some(location_check_points)) => Some(
                APServerMessage::RoomInfo(RoomInfo { password, hint_cost, location_check_points }),
            ),
            _ => None,
        }
    } else if text_is(&tag, "ConnectionRefused") {
        match text_list_field(fs, "errors") {
            Some(errors) => Some(APServerMessage::ConnectionRefused(ConnectionRefused { errors })),
            None => None,
        }
    } else if text_is(&tag, "Connected") {
        match decode_connected(fs) {
            Some(c) => Some(APServerMessage::Connected(c)),
            None => None,
        }
    } else if text_is(&tag, "ReceivedItems") {
        Some(APServerMessage::ReceivedItems)
    } else if text_is(&tag, "LocationInfo") {
        Some(APServerMessage::LocationInfo)
    } else if text_is(&tag, "RoomUpdate") {
        Some(APServerMessage::RoomUpdate(RoomUpdate {  }))
    } else if text_is(&tag, "PrintJSON") {
        match decode_print_json(fs) {
            Some(p) => Some(APServerMessage::PrintJSON(p)),
            None => None,
        }
    } else if text_is(&tag, "DataPackage") {
        Some(APServerMessage::DataPackage)
    } else if text_is(&tag, "Bounced") {
        Some(APServerMessage::Bounced)
    } else if text_is(&tag, "InvalidPacket") {
        Some(APServerMessage::InvalidPacket)
    } else if text_is(&tag, "Retrieved") {
        Some(APServerMessage::Retrieved)
    } else if text_is(&tag, "SetReply") {
        Some(APServerMessage::SetReply)
    } else {
        None
    }
}

/// Reads a whole batch. It is accepted only if every element reads as a
/// message; otherwise the error names the first element that does not.
pub fn decode_batch(j: &Json) -> (r: Result<Vec<APServerMessage>, DecodeError>)
    ensures
        match r {
            Ok(ms) => batch_decodes_to(*j, ms@),
            Err(e) => batch_error_is(*j, e),
        },
        r is Ok <==> batch_ok(*j),
{
    let items = match j {
        Json::Array(items) => items,
        _ => return Err(DecodeError::NotABatch),
    };
    let mut out: Vec<APServerMessage> = Vec::new();
    let mut i: usize = 0;
    while i < items.len()
        invariant
            i <= items@.len(),
            out@.len() == i,
            *j == Json::Array(*items),
            forall|k: int| 0 <= k < i ==> #[trigger] decodes_to(items@[k], out@[k]),
        decreases items.len() - i,
    {
        match decode_message(&items[i]) {
            Some(m) => out.push(m),
            None => {
                assert forall|k: int| 0 <= k < i implies !message_fails(#[trigger] items@[k]) by {
                    assert(decodes_to(items@[k], out@[k]));
                }
                return Err(DecodeError::BadMessage { index: i });
            },
        }
        i += 1;
    }
    assert forall|k: int| 0 <= k < items@.len() implies !message_fails(#[trigger] items@[k]) by {
        assert(decodes_to(items@[k], out@[k]));
    }
    Ok(out)
}

/// Only the integers 0, 1, 2 and 4 classify an item. An item whose `flags`
/// member is any other integer does not read, and no printable event that
/// carries it as its `item` reads as one that holds an item.
pub proof fn lemma_item_flags_exact(fs: Seq<Field>, j: Json, code: u64)
    requires
        members(j) is Some,
        lookup(members(j)->0, "flags"@) == Some(Json::Number(JsonNumber::PosInt(code))),
        !(code == 0 || code == 1 || code == 2 || code == 4),
        lookup(fs, "item"@) == Some(j),
    ensures
        item_type_of(code) is None,
        item_of(j) is None,
        forall|p: PrintJSON| #[trigger]
            print_json_is(fs, p) ==> !(p is ItemSend || p is ItemCheat || p is Hint),
{
}

} // verus!
