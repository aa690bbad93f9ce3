//! The messages exchanged with the server: what it sends (tagged by `cmd`)
//! and what this client sends back.
use vstd::prelude::*;

verus! {

/// A message from the server. The wire form is an object whose `cmd` member
/// names the variant; the other members are the variant's fields.
#[derive(Debug, Clone, PartialEq)]
pub enum APServerMessage {
    RoomInfo(RoomInfo),
    ConnectionRefused(ConnectionRefused),
    Connected(Connected),
    ReceivedItems,
    LocationInfo,
    RoomUpdate(RoomUpdate),
    PrintJSON(PrintJSON),
    DataPackage,
    Bounced,
    InvalidPacket,
    Retrieved,
    SetReply,
}

/// Sent by the server once a client connects; it starts the handshake.
#[derive(Debug, Clone, Copy, PartialEq, Eq)]
pub struct RoomInfo {
    pub password: bool,
    pub hint_cost: u32,
    pub location_check_points: u32,
}

#[derive(Debug, Clone, PartialEq)]
pub struct ConnectionRefused {
    pub errors: Vec<String>,
}

/// The server's acknowledgement of the handshake.
#[derive(Debug, Clone, PartialEq)]
pub struct Connected {
    pub team: u32,
    pub slot: u32,
    pub players: Vec<NetworkPlayer>,
    pub missing_locations: Vec<u32>,
    pub checked_locations: Vec<u32>,
    pub hint_points: u32,
}

#[derive(Debug, Clone, PartialEq)]
pub struct NetworkPlayer {
    pub team: u32,
    pub slot: u32,
    pub alias: String,
    pub name: String,
}

/// A room update; none of its members is read.
#[derive(Debug, Clone, Copy, PartialEq, Eq)]
pub struct RoomUpdate {}

/// A printable event. Its wire form carries, besides `cmd`, a `type` member
/// that names the variant.
#[derive(Debug, Clone, PartialEq)]
pub enum PrintJSON {
    Text { data: Vec<JSONMessagePart> },
    ItemSend { data: Vec<JSONMessagePart>, receiving: u32, item: NetworkItem },
    ItemCheat { data: Vec<JSONMessagePart>, receiving: u32, item: NetworkItem, team: u32 },
    Hint { data: Vec<JSONMessagePart>, receiving: u32, item: NetworkItem, found: bool },
    Join { data: Vec<JSONMessagePart>, team: u32, slot: u32, tags: Vec<String> },
    Part { data: Vec<JSONMessagePart>, team: u32, slot: u32 },
    Chat { data: Vec<JSONMessagePart>, team: u32, slot: u32, message: String },
    ServerChat { data: Vec<JSONMessagePart>, message: String },
    Tutorial { data: Vec<JSONMessagePart> },
    TagsChanged { data: Vec<JSONMessagePart>, team: u32, slot: u32, tags: Vec<String> },
    CommandResult { data: Vec<JSONMessagePart> },
    AdminCommandResult { data: Vec<JSONMessagePart> },
    Goal { data: Vec<JSONMessagePart>, team: u32, slot: u32 },
    Release { data: Vec<JSONMessagePart>, team: u32, slot: u32 },
    Collect { data: Vec<JSONMessagePart>, team: u32, slot: u32 },
    Countdown { data: Vec<JSONMessagePart>, countdown: u32 },
}

/// One piece of a printable event. `part_type` is the wire member `type`.
#[derive(Debug, Clone, PartialEq)]
pub struct JSONMessagePart {
    pub part_type: Option<String>,
    pub text: Option<String>,
    pub color: Option<String>,
    pub flags: Option<u32>,
    pub player: Option<u32>,
}

#[derive(Debug, Clone, Copy, PartialEq, Eq)]
pub struct NetworkItem {
    pub item: u32,
    pub location: u32,
    pub player: u32,
    pub flags: ItemType,
}

/// The classification of an item. On the wire it is one of the integers
/// 0, 1, 2 and 4; no other integer, and no combination of them, is accepted.
#[derive(Debug, Clone, Copy, PartialEq, Eq)]
pub enum ItemType {
    Normal,
    Logical,
    Important,
    Trap,
}

/// The classification that a wire integer stands for.
pub open spec fn item_type_of(code: u64) -> Option<ItemType> {
    if code == 0 {
        Some(ItemType::Normal)
    } else if code == 1 {
        Some(ItemType::Logical)
    } else if code == 2 {
        Some(ItemType::Important)
    } else if code == 4 {
        Some(ItemType::Trap)
    } else {
        None
    }
}

impl ItemType {
    /// Reads a wire classification: exactly 0, 1, 2 and 4 are accepted.
    pub fn from_code(code: u64) -> (r: Option<ItemType>)
        ensures
            r == item_type_of(code),
            r is Some <==> (code == 0 || code == 1 || code == 2 || code == 4),
    {
        match code {
            0 => Some(ItemType::Normal),
            1 => Some(ItemType::Logical),
            2 => Some(ItemType::Important),
            4 => Some(ItemType::Trap),
            _ => None,
        }
    }

    /// The wire integer of this classification.
    pub fn code(&self) -> (r: u64)
        ensures
            item_type_of(r) == Some(*self),
    {
        match self {
            ItemType::Normal => 0,
            ItemType::Logical => 1,
            ItemType::Important => 2,
            ItemType::Trap => 4,
        }
    }
}

/// A message that this client sends, tagged by `cmd` on the wire.
#[derive(Debug, Clone, PartialEq)]
pub enum APClientMessage {
    Connect(Connect),
}

/// The handshake message.
#[derive(Debug, Clone, PartialEq)]
pub struct Connect {
    pub name: String,
    pub password: String,
    pub game: String,
    pub uuid: String,
    pub version: Version,
    pub items_handling: u32,
    pub tags: Vec<String>,
    pub slot_data: bool,
}

/// A protocol version; on the wire it is tagged by a `class` member.
#[derive(Debug, Clone, Copy, PartialEq, Eq)]
pub struct Version {
    pub major: u32,
    pub minor: u32,
    pub build: u32,
}

/// The tag that this client announces itself with.
pub const TRACKER_TAG: &'static str = "Tracker";

impl Default for Connect {
    /// An empty handshake: protocol 5.0.0, no items handled, no slot data,
    /// tagged as a tracker.
    fn default() -> (r: Connect)
        ensures
            r.name@ == Seq::<char>::empty(),
            r.password@ == Seq::<char>::empty(),
            r.game@ == Seq::<char>::empty(),
            r.uuid@ == Seq::<char>::empty(),
            r.version == (Version { major: 5, minor: 0, build: 0 }),
            r.items_handling == 0,
            r.tags@.len() == 1,
            r.tags@[0]@ == TRACKER_TAG@,
            !r.slot_data,
    {
        let mut tags: Vec<String> = Vec::new();
        tags.push(TRACKER_TAG.to_owned());
        Connect {
            name: String::new(),
            password: String::new(),
            game: String::new(),
            uuid: String::new(),
            version: Version { major: 5, minor: 0, build: 0 },
            items_handling: 0,
            tags,
            slot_data: false,
        }
    }
}

} // verus!
