//! Events and their contents, as the room orchestration builds them.
use vstd::prelude::*;

verus! {

/// The type of an event: the fixed set the server knows, and an open variant.
#[derive(Clone, Debug)]
pub enum EventType {
    Create,
    Member,
    PowerLevels,
    JoinRules,
    HistoryVisibility,
    GuestAccess,
    Name,
    Topic,
    Tombstone,
    ServerAcl,
    Encryption,
    Avatar,
    Custom(String),
}

impl EventType {
    pub fn is_encryption(&self) -> (r: bool)
        ensures
            r == (*self is Encryption),
    {
        match self {
            EventType::Encryption => true,
            _ => false,
        }
    }

    /// A copy of this type.
    pub fn duplicate(&self) -> (r: EventType)
        ensures
            r == *self,
    {
        match self {
            EventType::Create => EventType::Create,
            EventType::Member => EventType::Member,
            EventType::PowerLevels => EventType::PowerLevels,
            EventType::JoinRules => EventType::JoinRules,
            EventType::HistoryVisibility => EventType::HistoryVisibility,
            EventType::GuestAccess => EventType::GuestAccess,
            EventType::Name => EventType::Name,
            EventType::Topic => EventType::Topic,
            EventType::Tombstone => EventType::Tombstone,
            EventType::ServerAcl => EventType::ServerAcl,
            EventType::Encryption => EventType::Encryption,
            EventType::Avatar => EventType::Avatar,
            EventType::Custom(s) => EventType::Custom(s.clone()),
        }
    }
}

#[derive(Clone, Copy, Debug, PartialEq, Eq, Structural)]
pub enum Membership {
    Join,
    Invite,
}

#[derive(Clone, Copy, Debug, PartialEq, Eq, Structural)]
pub enum JoinRule {
    Public,
    Invite,
}

#[derive(Clone, Copy, Debug, PartialEq, Eq, Structural)]
pub enum HistoryVisibility {
    Invited,
    Joined,
    Shared,
    WorldReadable,
}

#[derive(Clone, Copy, Debug, PartialEq, Eq, Structural)]
pub enum GuestAccess {
    CanJoin,
    Forbidden,
}

/// The smallest level a power-levels value may hold: -(2^53 - 1).
pub const MIN_LEVEL: i64 = -9007199254740991;

/// The largest level a power-levels value may hold: 2^53 - 1.
pub const MAX_LEVEL: i64 = 9007199254740991;

pub open spec fn level_in_range(l: i64) -> bool {
    MIN_LEVEL <= l <= MAX_LEVEL
}

/// Who may do what in a room: a level per user, and the scalar thresholds.
#[derive(Clone, Debug)]
pub struct PowerLevels {
    pub ban: i64,
    pub events: Vec<(String, i64)>,
    pub events_default: i64,
    pub invite: i64,
    pub kick: i64,
    pub redact: i64,
    pub state_default: i64,
    pub users: Vec<(String, i64)>,
    pub users_default: i64,
    pub notifications_room: i64,
}

impl PowerLevels {
    /// Every scalar lies in the integer range that events may carry.
    pub open spec fn wf(&self) -> bool {
        &&& level_in_range(self.ban)
        &&& level_in_range(self.events_default)
        &&& level_in_range(self.invite)
        &&& level_in_range(self.kick)
        &&& level_in_range(self.redact)
        &&& level_in_range(self.state_default)
        &&& level_in_range(self.users_default)
        &&& level_in_range(self.notifications_room)
    }

    pub fn in_range(&self) -> (r: bool)
        ensures
            r == self.wf(),
    {
        level_ok(self.ban) && level_ok(self.events_default) && level_ok(self.invite) && level_ok(
            self.kick,
        ) && level_ok(self.redact) && level_ok(self.state_default) && level_ok(self.users_default)
            && level_ok(self.notifications_room)
    }
}

fn level_ok(l: i64) -> (r: bool)
    ensures
        r == level_in_range(l),
{
    MIN_LEVEL <= l && l <= MAX_LEVEL
}

/// The room and the tombstone event that a room replaces.
#[derive(Clone, Debug)]
pub struct Predecessor {
    pub room_id: String,
    pub event_id: String,
}

/// The content of an event, one variant per type the server builds itself,
/// and raw JSON text for content supplied by a client or copied verbatim.
#[derive(Clone, Debug)]
pub enum Content {
    Create {
        creator: String,
        federate: bool,
        room_version: String,
        predecessor: Option<Predecessor>,
    },
    Member {
        membership: Membership,
        displayname: Option<String>,
        avatar_url: Option<String>,
        is_direct: Option<bool>,
    },
    PowerLevels(PowerLevels),
    JoinRules(JoinRule),
    HistoryVisibility(HistoryVisibility),
    GuestAccess(GuestAccess),
    Name(String),
    Topic(String),
    Tombstone { body: String, replacement_room: String },
    Json(String),
}

/// A request to append one event to a room's log.
#[derive(Clone, Debug)]
pub struct PduBuilder {
    pub room_id: String,
    pub sender: String,
    pub event_type: EventType,
    pub content: Content,
    pub state_key: Option<String>,
    pub redacts: Option<String>,
}

/// The empty state key, as every room-wide state event has.
pub open spec fn is_empty_key(k: Option<String>) -> bool {
    k is Some && k->0@.len() == 0
}

/// `p` is a state event of type `t` with the empty state key, sent by `sender`
/// into `room`.
pub open spec fn room_state_event(p: PduBuilder, room: String, sender: String, t: EventType) -> bool {
    &&& p.room_id == room
    &&& p.sender == sender
    &&& p.event_type == t
    &&& is_empty_key(p.state_key)
    &&& p.redacts is None
}

pub(crate) fn clone_opt_string(o: &Option<String>) -> (r: Option<String>)
    ensures
        r == *o,
{
    match o {
        Some(s) => Some(s.clone()),
        None => None,
    }
}

/// Builds a state event with the empty state key.
pub fn room_state(room: &String, sender: &String, t: EventType, content: Content) -> (p: PduBuilder)
    ensures
        room_state_event(p, *room, *sender, t),
        p.content == content,
{
    PduBuilder {
        room_id: room.clone(),
        sender: sender.clone(),
        event_type: t,
        content,
        state_key: Some(String::new()),
        redacts: None,
    }
}

/// An error that ends a room operation.
#[derive(Clone, Copy, Debug, PartialEq, Eq, Structural)]
pub enum RoomError {
    InvalidParam,
    InvalidAlias,
    AliasInUse,
    BadContent,
    UnsupportedVersion,
    Forbidden,
    NotFound,
    BadDatabase,
}

/// What a user who asks for one event of a room gets: the event, provided
/// the user has joined the room and the event exists.
pub fn visible_event<T>(joined: bool, found: Option<T>) -> (r: Result<T, RoomError>)
    ensures
        !joined ==> r == Err::<T, RoomError>(RoomError::Forbidden),
        joined && found is None ==> r == Err::<T, RoomError>(RoomError::NotFound),
        joined && found is Some ==> r == Ok::<T, RoomError>(found->0),
{
    if !joined {
        return Err(RoomError::Forbidden);
    }
    match found {
        Some(e) => Ok(e),
        None => Err(RoomError::NotFound),
    }
}

} // verus!
