//! Room upgrade: tombstone the old room, recreate it at a new version, carry
//! its state and aliases over, and lock the old room down.
//!
//! The upgrade is a state machine. Each step names one action on the event
//! log, the state store or the alias registry; the caller performs it and
//! hands back what came of it.
use vstd::prelude::*;

use crate::create::{Profile, ServerConfig};
use crate::events::{
    Content, EventType, MAX_LEVEL, Membership, PduBuilder, PowerLevels, Predecessor, RoomError,
    clone_opt_string, room_state, room_state_event,
};

verus! {

/// The body of the tombstone left in an upgraded room.
pub const TOMBSTONE_BODY: &'static str = "This room has been replaced";

/// How many state types an upgrade carries over.
pub const TRANSFERABLE_COUNT: usize = 9;

/// The state types an upgrade carries over, in the order it copies them.
pub open spec fn transferable(i: int) -> EventType {
    if i == 0 {
        EventType::ServerAcl
    } else if i == 1 {
        EventType::Encryption
    } else if i == 2 {
        EventType::Name
    } else if i == 3 {
        EventType::Avatar
    } else if i == 4 {
        EventType::Topic
    } else if i == 5 {
        EventType::GuestAccess
    } else if i == 6 {
        EventType::HistoryVisibility
    } else if i == 7 {
        EventType::JoinRules
    } else {
        EventType::PowerLevels
    }
}

pub fn transferable_type(i: usize) -> (t: EventType)
    requires
        i < TRANSFERABLE_COUNT,
    ensures
        t == transferable(i as int),
{
    match i {
        0 => EventType::ServerAcl,
        1 => EventType::Encryption,
        2 => EventType::Name,
        3 => EventType::Avatar,
        4 => EventType::Topic,
        5 => EventType::GuestAccess,
        6 => EventType::HistoryVisibility,
        7 => EventType::JoinRules,
        _ => EventType::PowerLevels,
    }
}

/// The level that both sending events and inviting need in a room locked
/// down after its upgrade: at least 50, and above the default user level.
pub open spec fn lockdown_level(users_default: i64) -> int {
    if users_default + 1 > 50 {
        users_default + 1
    } else {
        50
    }
}

/// The old room's power levels with sending events and inviting restricted.
pub fn lock_down(pl: &PowerLevels) -> (r: PowerLevels)
    requires
        pl.wf(),
        pl.users_default < MAX_LEVEL,
    ensures
        r.wf(),
        r.events_default == lockdown_level(pl.users_default),
        r.invite == lockdown_level(pl.users_default),
        r.ban == pl.ban,
        r.kick == pl.kick,
        r.redact == pl.redact,
        r.state_default == pl.state_default,
        r.users_default == pl.users_default,
        r.notifications_room == pl.notifications_room,
        r.users@ == pl.users@,
        r.events@ == pl.events@,
{
    let level: i64 = if pl.users_default + 1 > 50 {
        pl.users_default + 1
    } else {
        50
    };
    PowerLevels {
        ban: pl.ban,
        events: copy_levels(&pl.events),
        events_default: level,
        invite: level,
        kick: pl.kick,
        redact: pl.redact,
        state_default: pl.state_default,
        users: copy_levels(&pl.users),
        users_default: pl.users_default,
        notifications_room: pl.notifications_room,
    }
}

fn copy_levels(v: &Vec<(String, i64)>) -> (r: Vec<(String, i64)>)
    ensures
        r@ == v@,
{
    let mut r: Vec<(String, i64)> = Vec::new();
    let mut i: usize = 0;
    while i < v.len()
        invariant
            i <= v.len(),
            r@ == v@.take(i as int),
        decreases v.len() - i,
    {
        r.push((v[i].0.clone(), v[i].1));
        i += 1;
        assert(r@ =~= v@.take(i as int));
    }
    assert(v@.take(v.len() as int) =~= v@);
    r
}

/// Where an upgrade stands: what it waits for.
#[derive(Debug)]
pub enum UpgradePhase {
    /// The tombstone was sent to the old room.
    Tombstoning,
    /// The old room's create event was asked for.
    ReadingCreate { tombstone_event_id: String },
    /// The new room's create event was sent.
    Creating,
    /// The sender's join to the new room was sent.
    Joining,
    /// The old room's state of transferable type `index` was asked for.
    Reading { index: usize },
    /// The copy of transferable type `index` was sent to the new room.
    Copying { index: usize },
    /// The aliases of the old room were asked for.
    ListingAliases,
    /// Alias `index` of `aliases` is being moved to the new room.
    MovingAliases { aliases: Vec<String>, index: usize },
    /// The old room's power levels were asked for.
    ReadingPowerLevels,
    /// The old room's restricted power levels were sent.
    LockingDown,
    Finished,
}

/// An upgrade of `old_room` to `new_version`, replaced by `replacement_room`.
#[derive(Debug)]
pub struct Upgrade {
    pub sender: String,
    pub sender_profile: Profile,
    pub old_room: String,
    pub replacement_room: String,
    pub new_version: String,
    pub phase: UpgradePhase,
}

/// What the caller is to do next.
#[derive(Debug)]
pub enum UpgradeAction {
    Append(PduBuilder),
    /// Read the `m.room.create` content of a room, for its federate flag.
    ReadCreate { room_id: String },
    /// Read the content of a room's state of the type, with the empty key.
    ReadState { room_id: String, event_type: EventType },
    /// List the local aliases that point at a room.
    ListAliases { room_id: String },
    /// Point an alias at a room.
    BindAlias { alias: String, room_id: String },
    /// Read a room's power levels.
    ReadPowerLevels { room_id: String },
    /// The upgrade is over, with the replacement room or an error.
    Finish(Result<String, RoomError>),
}

/// What came of the last action.
#[derive(Debug)]
pub enum UpgradeEvent {
    /// The event was appended under this id.
    Appended(String),
    AppendFailed(RoomError),
    /// The federate flag of the create event, or nothing where the event is
    /// missing or malformed.
    CreateRead(Option<bool>),
    /// The state's content as JSON text, or nothing where there is none.
    StateRead(Option<String>),
    /// The aliases that could be read.
    AliasesListed(Vec<String>),
    /// Whether the alias was moved.
    AliasBound(bool),
    /// The power levels, or nothing where they are missing or malformed.
    PowerLevelsRead(Option<PowerLevels>),
}

/// Whether the event answers the action that the phase waits on.
pub open spec fn answers(phase: UpgradePhase, e: UpgradeEvent) -> bool {
    match phase {
        UpgradePhase::Tombstoning | UpgradePhase::Creating | UpgradePhase::Joining
        | UpgradePhase::Copying { .. } | UpgradePhase::LockingDown => e is Appended
            || e is AppendFailed,
        UpgradePhase::ReadingCreate { .. } => e is CreateRead,
        UpgradePhase::Reading { .. } => e is StateRead,
        UpgradePhase::ListingAliases => e is AliasesListed,
        UpgradePhase::MovingAliases { .. } => e is AliasBound,
        UpgradePhase::ReadingPowerLevels => e is PowerLevelsRead,
        UpgradePhase::Finished => false,
    }
}

impl Upgrade {
    /// The indices in the phase are in range.
    pub open spec fn wf(&self) -> bool {
        match self.phase {
            UpgradePhase::Reading { index } => index < TRANSFERABLE_COUNT,
            UpgradePhase::Copying { index } => index < TRANSFERABLE_COUNT,
            UpgradePhase::MovingAliases { aliases, index } => index < aliases.len(),
            _ => true,
        }
    }

    /// `t` is this upgrade in another phase.
    pub open spec fn moved_to(&self, t: Upgrade, phase: UpgradePhase) -> bool {
        &&& t.sender == self.sender
        &&& t.sender_profile == self.sender_profile
        &&& t.old_room == self.old_room
        &&& t.replacement_room == self.replacement_room
        &&& t.new_version == self.new_version
        &&& t.phase == phase
    }

    /// The state after type `i` was dealt with: the next type is read, or,
    /// after the last, the aliases are listed.
    pub open spec fn after_transfer(&self, i: int, t: Upgrade, a: UpgradeAction) -> bool {
        if i + 1 < TRANSFERABLE_COUNT {
            self.moved_to(t, UpgradePhase::Reading { index: (i + 1) as usize })
                && a == (UpgradeAction::ReadState {
                room_id: self.old_room,
                event_type: transferable(i + 1),
            })
        } else {
            self.moved_to(t, UpgradePhase::ListingAliases) && a == (UpgradeAction::ListAliases {
                room_id: self.old_room,
            })
        }
    }

    /// The state once the aliases are dealt with.
    pub open spec fn after_aliases(&self, t: Upgrade, a: UpgradeAction) -> bool {
        self.moved_to(t, UpgradePhase::ReadingPowerLevels) && a == (
        UpgradeAction::ReadPowerLevels { room_id: self.old_room })
    }

    /// The upgrade ends with `r`.
    pub open spec fn finished_with(&self, t: Upgrade, a: UpgradeAction, r: Result<String, RoomError>) -> bool {
        self.moved_to(t, UpgradePhase::Finished) && a == UpgradeAction::Finish(r)
    }

    /// One step: from this state, on event `e`, to state `t` and action `a`.
    pub open spec fn transition(&self, e: UpgradeEvent, t: Upgrade, a: UpgradeAction) -> bool {
        match self.phase {
            UpgradePhase::Tombstoning => match e {
                UpgradeEvent::Appended(id) => self.moved_to(
                    t,
                    UpgradePhase::ReadingCreate { tombstone_event_id: id },
                ) && a == (UpgradeAction::ReadCreate { room_id: self.old_room }),
                UpgradeEvent::AppendFailed(err) => self.finished_with(t, a, Err(err)),
                _ => false,
            },
            UpgradePhase::ReadingCreate { tombstone_event_id } => match e {
                UpgradeEvent::CreateRead(Some(federate)) => self.moved_to(t, UpgradePhase::Creating)
                    && (a matches UpgradeAction::Append(p) && room_state_event(
                    p,
                    self.replacement_room,
                    self.sender,
                    EventType::Create,
                ) && p.content == (Content::Create {
                    creator: self.sender,
                    federate,
                    room_version: self.new_version,
                    predecessor: Some(
                        Predecessor { room_id: self.old_room, event_id: tombstone_event_id },
                    ),
                })),
                UpgradeEvent::CreateRead(None) => self.finished_with(t, a, Err(RoomError::BadDatabase)),
                _ => false,
            },
            UpgradePhase::Creating => match e {
                UpgradeEvent::Appended(_) => self.moved_to(t, UpgradePhase::Joining)
                    && (a matches UpgradeAction::Append(p) && p.room_id == self.replacement_room
                    && p.sender == self.sender && p.event_type == EventType::Member && p.state_key
                    == Some(self.sender) && p.redacts is None && p.content == (Content::Member {
                    membership: Membership::Join,
                    displayname: self.sender_profile.displayname,
                    avatar_url: self.sender_profile.avatar_url,
                    is_direct: None,
                })),
                UpgradeEvent::AppendFailed(err) => self.finished_with(t, a, Err(err)),
                _ => false,
            },
            UpgradePhase::Joining => match e {
                UpgradeEvent::Appended(_) => self.moved_to(t, UpgradePhase::Reading { index: 0 })
                    && a == (UpgradeAction::ReadState {
                    room_id: self.old_room,
                    event_type: transferable(0),
                }),
                UpgradeEvent::AppendFailed(err) => self.finished_with(t, a, Err(err)),
                _ => false,
            },
            UpgradePhase::Reading { index } => match e {
                UpgradeEvent::StateRead(Some(content)) => self.moved_to(
                    t,
                    UpgradePhase::Copying { index },
                ) && (a matches UpgradeAction::Append(p) && room_state_event(
                    p,
                    self.replacement_room,
                    self.sender,
                    transferable(index as int),
                ) && p.content == Content::Json(content)),
                UpgradeEvent::StateRead(None) => self.after_transfer(index as int, t, a),
                _ => false,
            },
            UpgradePhase::Copying { index } => match e {
                UpgradeEvent::Appended(_) => self.after_transfer(index as int, t, a),
                UpgradeEvent::AppendFailed(err) => self.finished_with(t, a, Err(err)),
                _ => false,
            },
            UpgradePhase::ListingAliases => match e {
                UpgradeEvent::AliasesListed(aliases) => if aliases.len() == 0 {
                    self.after_aliases(t, a)
                } else {
                    self.moved_to(t, UpgradePhase::MovingAliases { aliases, index: 0 }) && a == (
                    UpgradeAction::BindAlias { alias: aliases[0], room_id: self.replacement_room })
                },
                _ => false,
            },
            UpgradePhase::MovingAliases { aliases, index } => match e {
                UpgradeEvent::AliasBound(_) => if index + 1 < aliases.len() {
                    self.moved_to(
                        t,
                        UpgradePhase::MovingAliases { aliases, index: (index + 1) as usize },
                    ) && a == (UpgradeAction::BindAlias {
                        alias: aliases[index + 1],
                        room_id: self.replacement_room,
                    })
                } else {
                    self.after_aliases(t, a)
                },
                _ => false,
            },
            UpgradePhase::ReadingPowerLevels => match e {
                UpgradeEvent::PowerLevelsRead(Some(pl)) => if pl.wf() && pl.users_default
                    == MAX_LEVEL {
                    self.finished_with(t, a, Ok(self.replacement_room))
                } else if pl.wf() {
                    self.moved_to(t, UpgradePhase::LockingDown) && (a matches UpgradeAction::Append(p)
                        && room_state_event(p, self.old_room, self.sender, EventType::PowerLevels)
                        && (p.content matches Content::PowerLevels(locked)
                        && locked.events_default == lockdown_level(pl.users_default)
                        && locked.invite == lockdown_level(pl.users_default)
                        && locked.ban == pl.ban && locked.kick == pl.kick && locked.redact == pl.redact
                        && locked.state_default == pl.state_default && locked.users_default
                        == pl.users_default && locked.notifications_room == pl.notifications_room
                        && locked.users@ == pl.users@ && locked.events@ == pl.events@))
                } else {
                    self.finished_with(t, a, Err(RoomError::BadDatabase))
                },
                UpgradeEvent::PowerLevelsRead(None) => self.finished_with(
                    t,
                    a,
                    Err(RoomError::BadDatabase),
                ),
                _ => false,
            },
            UpgradePhase::LockingDown => self.finished_with(t, a, Ok(self.replacement_room)),
            UpgradePhase::Finished => false,
        }
    }
}


/// Whether the version is one a room may be upgraded to.
pub open spec fn version_supported(versions: Seq<String>, v: Seq<char>) -> bool {
    exists|i: int| 0 <= i < versions.len() && (#[trigger] versions[i])@ == v
}

pub fn is_supported_version(versions: &Vec<String>, v: &String) -> (r: bool)
    ensures
        r == version_supported(versions@, v@),
{
    let mut i: usize = 0;
    while i < versions.len()
        invariant
            i <= versions.len(),
            forall|j: int| 0 <= j < i ==> (#[trigger] versions@[j])@ != v@,
        decreases versions.len() - i,
    {
        if versions[i] == *v {
            return true;
        }
        i += 1;
    }
    false
}

/// Begins upgrading `old_room` to `new_version`, to be replaced by
/// `replacement_room`. A version the server cannot upgrade to is refused with
/// `UnsupportedVersion` and nothing is done; otherwise the first action sends
/// the tombstone that names the replacement to the old room.
pub fn start_upgrade(
    config: &ServerConfig,
    sender: &String,
    sender_profile: &Profile,
    old_room: &String,
    new_version: &String,
    replacement_room: &String,
) -> (r: Result<(Upgrade, UpgradeAction), RoomError>)
    ensures
        r is Err <==> !version_supported(config.upgrade_versions@, new_version@),
        r matches Err(e) ==> e == RoomError::UnsupportedVersion,
        r matches Ok((u, a)) ==> {
            &&& u.sender == *sender
            &&& u.sender_profile == *sender_profile
            &&& u.old_room == *old_room
            &&& u.replacement_room == *replacement_room
            &&& u.new_version == *new_version
            &&& u.phase == UpgradePhase::Tombstoning
            &&& a matches UpgradeAction::Append(p) && room_state_event(
                p,
                *old_room,
                *sender,
                EventType::Tombstone,
            ) && (p.content matches Content::Tombstone { body, replacement_room: named }
                && body@ == TOMBSTONE_BODY@ && named == *replacement_room)
        },
{
    if !is_supported_version(&config.upgrade_versions, new_version) {
        return Err(RoomError::UnsupportedVersion);
    }
    let tombstone = Content::Tombstone {
        body: TOMBSTONE_BODY.to_owned(),
        replacement_room: replacement_room.clone(),
    };
    let u = Upgrade {
        sender: sender.clone(),
        sender_profile: Profile {
            displayname: clone_opt_string(&sender_profile.displayname),
            avatar_url: clone_opt_string(&sender_profile.avatar_url),
        },
        old_room: old_room.clone(),
        replacement_room: replacement_room.clone(),
        new_version: new_version.clone(),
        phase: UpgradePhase::Tombstoning,
    };
    Ok((u, UpgradeAction::Append(room_state(old_room, sender, EventType::Tombstone, tombstone))))
}

impl Upgrade {
    fn finish(self, r: Result<String, RoomError>) -> (out: (Upgrade, UpgradeAction))
        ensures
            self.finished_with(out.0, out.1, r),
    {
        let mut u = self;
        u.phase = UpgradePhase::Finished;
        (u, UpgradeAction::Finish(r))
    }

    fn next_transfer(self, i: usize) -> (out: (Upgrade, UpgradeAction))
        requires
            i < TRANSFERABLE_COUNT,
        ensures
            self.after_transfer(i as int, out.0, out.1),
            out.0.wf(),
    {
        let mut u = self;
        if i + 1 < TRANSFERABLE_COUNT {
            let a = UpgradeAction::ReadState {
                room_id: u.old_room.clone(),
                event_type: transferable_type(i + 1),
            };
            u.phase = UpgradePhase::Reading { index: i + 1 };
            (u, a)
        } else {
            let a = UpgradeAction::ListAliases { room_id: u.old_room.clone() };
            u.phase = UpgradePhase::ListingAliases;
            (u, a)
        }
    }

    fn aliases_done(self) -> (out: (Upgrade, UpgradeAction))
        ensures
            self.after_aliases(out.0, out.1),
    {
        let mut u = self;
        let a = UpgradeAction::ReadPowerLevels { room_id: u.old_room.clone() };
        u.phase = UpgradePhase::ReadingPowerLevels;
        (u, a)
    }

    /// Takes the upgrade one step on: from what came of the last action to the
    /// next state and the next action.
    ///
    /// Failures to append the tombstone, the new room's create event, the
    /// join or a copied state event end the upgrade with that error; a missing
    /// or malformed create event or power levels in the old room end it with
    /// `BadDatabase`. Missing state is not copied; a failure to move an alias
    /// or to lock the old room down is ignored, and where the default user
    /// level is already the largest level there is no higher one to lock the
    /// old room down with, so that step is left out.
    pub fn step(self, e: UpgradeEvent) -> (out: (Upgrade, UpgradeAction))
        requires
            self.wf(),
            answers(self.phase, e),
        ensures
            self.transition(e, out.0, out.1),
            out.0.wf(),
    {
        let mut u = self;
        let mut phase = UpgradePhase::Finished;
        std::mem::swap(&mut phase, &mut u.phase);
        match phase {
            UpgradePhase::Tombstoning => match e {
                UpgradeEvent::Appended(id) => {
                    let a = UpgradeAction::ReadCreate { room_id: u.old_room.clone() };
                    u.phase = UpgradePhase::ReadingCreate { tombstone_event_id: id };
                    (u, a)
                },
                UpgradeEvent::AppendFailed(err) => u.finish(Err(err)),
                _ => u.finish(Err(RoomError::BadDatabase)),
            },
            UpgradePhase::ReadingCreate { tombstone_event_id } => match e {
                UpgradeEvent::CreateRead(Some(federate)) => {
                    let content = Content::Create {
                        creator: u.sender.clone(),
                        federate,
                        room_version: u.new_version.clone(),
                        predecessor: Some(
                            Predecessor {
                                room_id: u.old_room.clone(),
                                event_id: tombstone_event_id,
                            },
                        ),
                    };
                    let p = room_state(&u.replacement_room, &u.sender, EventType::Create, content);
                    u.phase = UpgradePhase::Creating;
                    (u, UpgradeAction::Append(p))
                },
                _ => u.finish(Err(RoomError::BadDatabase)),
            },
            UpgradePhase::Creating => match e {
                UpgradeEvent::Appended(_) => {
                    let p = PduBuilder {
                        room_id: u.replacement_room.clone(),
                        sender: u.sender.clone(),
                        event_type: EventType::Member,
                        content: Content::Member {
                            membership: Membership::Join,
                            displayname: clone_opt_string(&u.sender_profile.displayname),
                            avatar_url: clone_opt_string(&u.sender_profile.avatar_url),
                            is_direct: None,
                        },
                        state_key: Some(u.sender.clone()),
                        redacts: None,
                    };
                    u.phase = UpgradePhase::Joining;
                    (u, UpgradeAction::Append(p))
                },
                UpgradeEvent::AppendFailed(err) => u.finish(Err(err)),
                _ => u.finish(Err(RoomError::BadDatabase)),
            },
            UpgradePhase::Joining => match e {
                UpgradeEvent::Appended(_) => {
                    let a = UpgradeAction::ReadState {
                        room_id: u.old_room.clone(),
                        event_type: transferable_type(0),
                    };
                    u.phase = UpgradePhase::Reading { index: 0 };
                    (u, a)
                },
                UpgradeEvent::AppendFailed(err) => u.finish(Err(err)),
                _ => u.finish(Err(RoomError::BadDatabase)),
            },
            UpgradePhase::Reading { index } => match e {
                UpgradeEvent::StateRead(Some(content)) => {
                    let p = room_state(
                        &u.replacement_room,
                        &u.sender,
                        transferable_type(index),
                        Content::Json(content),
                    );
                    u.phase = UpgradePhase::Copying { index };
                    (u, UpgradeAction::Append(p))
                },
                _ => u.next_transfer(index),
            },
            UpgradePhase::Copying { index } => match e {
                UpgradeEvent::AppendFailed(err) => u.finish(Err(err)),
                _ => u.next_transfer(index),
            },
            UpgradePhase::ListingAliases => match e {
                UpgradeEvent::AliasesListed(aliases) => {
                    if aliases.len() == 0 {
                        u.aliases_done()
                    } else {
                        let a = UpgradeAction::BindAlias {
                            alias: aliases[0].clone(),
                            room_id: u.replacement_room.clone(),
                        };
                        u.phase = UpgradePhase::MovingAliases { aliases, index: 0 };
                        (u, a)
                    }
                },
                _ => u.aliases_done(),
            },
            UpgradePhase::MovingAliases { aliases, index } => {
                if index + 1 < aliases.len() {
                    let a = UpgradeAction::BindAlias {
                        alias: aliases[index + 1].clone(),
                        room_id: u.replacement_room.clone(),
                    };
                    u.phase = UpgradePhase::MovingAliases { aliases, index: index + 1 };
                    (u, a)
                } else {
                    u.aliases_done()
                }
            },
            UpgradePhase::ReadingPowerLevels => match e {
                UpgradeEvent::PowerLevelsRead(Some(pl)) => {
                    if pl.in_range() && pl.users_default == MAX_LEVEL {
                        let r = u.replacement_room.clone();
                        u.finish(Ok(r))
                    } else if pl.in_range() {
                        let locked = lock_down(&pl);
                        let p = room_state(
                            &u.old_room,
                            &u.sender,
                            EventType::PowerLevels,
                            Content::PowerLevels(locked),
                        );
                        u.phase = UpgradePhase::LockingDown;
                        (u, UpgradeAction::Append(p))
                    } else {
                        u.finish(Err(RoomError::BadDatabase))
                    }
                },
                _ => u.finish(Err(RoomError::BadDatabase)),
            },
            UpgradePhase::LockingDown => {
                let r = u.replacement_room.clone();
                u.finish(Ok(r))
            },
            UpgradePhase::Finished => u.finish(Err(RoomError::BadDatabase)),
        }
    }
}

/// The new room's create event is only ever sent once the tombstone is in the
/// old room: two steps before it, the tombstone was appended, and the create
/// event names the old room and that tombstone as its predecessor.
pub proof fn lemma_create_follows_tombstone(
    s0: Upgrade,
    e0: UpgradeEvent,
    s1: Upgrade,
    a1: UpgradeAction,
    e1: UpgradeEvent,
    s2: Upgrade,
    a2: UpgradeAction,
)
    requires
        s0.transition(e0, s1, a1),
        s1.transition(e1, s2, a2),
        a2 matches UpgradeAction::Append(p) && p.event_type == EventType::Create,
    ensures
        s0.phase == UpgradePhase::Tombstoning,
        e0 matches UpgradeEvent::Appended(tombstone_id) && (a2 matches UpgradeAction::Append(p)
            && p.room_id == s0.replacement_room && (p.content matches Content::Create {
            predecessor: Some(pred),
            ..
        } && pred.room_id == s0.old_room && pred.event_id == tombstone_id)),
{
}

/// Where the old room cannot be locked down, the upgrade still ends with the
/// replacement room.
pub proof fn lemma_lockdown_failure_ignored(s: Upgrade, err: RoomError, t: Upgrade, a: UpgradeAction)
    requires
        s.phase == UpgradePhase::LockingDown,
        s.transition(UpgradeEvent::AppendFailed(err), t, a),
    ensures
        a == UpgradeAction::Finish(Ok(s.replacement_room)),
        t.phase == UpgradePhase::Finished,
{
}

} // verus!
