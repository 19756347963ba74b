//! Room creation: the ordered events that establish a new room.
use vstd::prelude::*;
use vstd::utf8::encode_utf8;

use crate::events::{
    Content, EventType, GuestAccess, HistoryVisibility, JoinRule, Membership, PduBuilder,
    PowerLevels, Predecessor, RoomError, clone_opt_string, room_state, room_state_event,
};
use crate::outside::{alias_text, is_json, is_room_alias, is_room_alias_text, parses_as_json, push_str};

verus! {

/// A named bundle of default state for a new room.
#[derive(Clone, Copy, Debug, PartialEq, Eq, Structural)]
pub enum RoomPreset {
    PrivateChat,
    PublicChat,
    TrustedPrivateChat,
}

/// Whether a room is listed in the public room directory.
#[derive(Clone, Copy, Debug, PartialEq, Eq, Structural)]
pub enum Visibility {
    Private,
    Public,
}

/// What a client may set on the create event.
#[derive(Clone, Debug)]
pub struct CreationContent {
    pub federate: bool,
    pub predecessor: Option<Predecessor>,
}

/// A state event that a client asks to have in the room from the start.
#[derive(Clone, Debug)]
pub struct InitialStateEvent {
    pub event_type: EventType,
    pub state_key: Option<String>,
    /// The content, as JSON text.
    pub content: String,
}

/// What a client asks for when it creates a room.
#[derive(Clone, Debug)]
pub struct CreateRoomRequest {
    pub room_alias_name: Option<String>,
    pub creation_content: Option<CreationContent>,
    /// Power levels to use instead of the synthesised ones, as JSON text.
    pub power_level_content_override: Option<String>,
    pub preset: Option<RoomPreset>,
    pub visibility: Option<Visibility>,
    pub initial_state: Vec<InitialStateEvent>,
    pub name: Option<String>,
    pub topic: Option<String>,
    pub invite: Vec<String>,
    pub is_direct: Option<bool>,
}

/// A user's display name and avatar, as the profile store gives them.
#[derive(Clone, Debug)]
pub struct Profile {
    pub displayname: Option<String>,
    pub avatar_url: Option<String>,
}

/// The server's settings that room creation and upgrade consult.
#[derive(Clone, Debug)]
pub struct ServerConfig {
    pub server_name: String,
    pub encryption_disabled: bool,
    /// The version of every freshly created room.
    pub creation_version: String,
    /// The versions a room may be upgraded to.
    pub upgrade_versions: Vec<String>,
}

/// The work that creating a room amounts to. The events are appended in
/// order, each only after the one before succeeded; after the last one the
/// operation ends with `failure` if it is set. Only when it is not is the alias
/// bound to the room and the room listed when `publish` is set. Events already
/// appended are never taken back.
#[derive(Clone, Debug)]
pub struct CreationPlan {
    pub pdus: Vec<PduBuilder>,
    pub failure: Option<RoomError>,
    pub alias: Option<String>,
    pub publish: bool,
}

pub open spec fn opt_view(o: Option<String>) -> Option<Seq<char>> {
    match o {
        Some(s) => Some(s@),
        None => None,
    }
}

/// The preset in effect: the one asked for, else the one the visibility implies.
pub open spec fn preset_of(preset: Option<RoomPreset>, visibility: Option<Visibility>) -> RoomPreset {
    match preset {
        Some(p) => p,
        None => if visibility == Some(Visibility::Public) {
            RoomPreset::PublicChat
        } else {
            RoomPreset::PrivateChat
        },
    }
}

pub open spec fn join_rule_of(p: RoomPreset) -> JoinRule {
    if p == RoomPreset::PublicChat {
        JoinRule::Public
    } else {
        JoinRule::Invite
    }
}

pub open spec fn guest_access_of(p: RoomPreset) -> GuestAccess {
    if p == RoomPreset::PublicChat {
        GuestAccess::Forbidden
    } else {
        GuestAccess::CanJoin
    }
}

/// A room name fits in 255 bytes of UTF-8 (as the byte count `str::len`
/// reports).
pub open spec fn name_ok(n: String) -> bool {
    encode_utf8(n@).len() as usize <= 255
}

/// The power levels a room gets when the client supplies none.
pub open spec fn is_default_power_levels(pl: PowerLevels, sender: String, invite: Seq<String>) -> bool {
    &&& pl.ban == 50
    &&& pl.events@.len() == 0
    &&& pl.events_default == 0
    &&& pl.invite == 50
    &&& pl.kick == 50
    &&& pl.redact == 50
    &&& pl.state_default == 50
    &&& pl.users_default == 0
    &&& pl.notifications_room == 50
    &&& pl.users@ == seq![(sender, 100i64)] + invite.map_values(|u: String| (u, 100i64))
}

/// The initial-state entries that are appended: all of them, less the
/// encryption entries while the server has encryption disabled.
pub open spec fn kept_state(s: Seq<InitialStateEvent>, encryption_disabled: bool) -> Seq<InitialStateEvent>
    decreases s.len(),
{
    if s.len() == 0 {
        s
    } else {
        let k = kept_state(s.drop_last(), encryption_disabled);
        if encryption_disabled && s.last().event_type is Encryption {
            k
        } else {
            k.push(s.last())
        }
    }
}

/// How many entries, from the front, have content that parses.
pub open spec fn parsed_prefix(s: Seq<InitialStateEvent>) -> nat
    decreases s.len(),
{
    if s.len() == 0 {
        0
    } else if is_json(s[0].content@) {
        1 + parsed_prefix(s.drop_first())
    } else {
        0
    }
}

/// The alias a request binds, or the error it fails with before anything is
/// appended.
pub open spec fn alias_outcome(
    server_name: Seq<char>,
    localpart: Option<String>,
    alias_taken: bool,
) -> Result<Option<Seq<char>>, RoomError> {
    match localpart {
        None => Ok(None),
        Some(l) => if !is_room_alias(alias_text(l@, server_name)) {
            Err(RoomError::InvalidAlias)
        } else if alias_taken {
            Err(RoomError::AliasInUse)
        } else {
            Ok(Some(alias_text(l@, server_name)))
        },
    }
}

pub open spec fn is_create_event(
    p: PduBuilder,
    config: ServerConfig,
    sender: String,
    room: String,
    request: CreateRoomRequest,
) -> bool {
    &&& room_state_event(p, room, sender, EventType::Create)
    &&& p.content matches Content::Create { creator, federate, room_version, predecessor }
    &&& creator == sender
    &&& room_version == config.creation_version
    &&& match request.creation_content {
        Some(c) => federate == c.federate && predecessor == c.predecessor,
        None => federate && predecessor is None,
    }
}

pub open spec fn is_member_event(
    p: PduBuilder,
    room: String,
    sender: String,
    user: String,
    membership: Membership,
    profile: Profile,
    is_direct: Option<bool>,
) -> bool {
    &&& p.room_id == room
    &&& p.sender == sender
    &&& p.event_type == EventType::Member
    &&& p.state_key == Some(user)
    &&& p.redacts is None
    &&& p.content == (Content::Member {
        membership,
        displayname: profile.displayname,
        avatar_url: profile.avatar_url,
        is_direct,
    })
}

pub open spec fn is_initial_state_event(p: PduBuilder, room: String, sender: String, e: InitialStateEvent) -> bool {
    &&& p.room_id == room
    &&& p.sender == sender
    &&& p.event_type == e.event_type
    &&& p.state_key == e.state_key
    &&& p.redacts is None
    &&& p.content == Content::Json(e.content)
}

pub open spec fn is_power_levels_event(p: PduBuilder, sender: String, room: String, request: CreateRoomRequest) -> bool {
    &&& room_state_event(p, room, sender, EventType::PowerLevels)
    &&& match request.power_level_content_override {
        Some(t) => p.content == Content::Json(t),
        None => p.content matches Content::PowerLevels(pl) && is_default_power_levels(
            pl,
            sender,
            request.invite@,
        ),
    }
}

/// The events after the initial state, from index `b` on: name, topic and
/// invites, or the failure of an invalid name.
pub open spec fn tail_ok(
    plan: CreationPlan,
    b: int,
    sender: String,
    room: String,
    request: CreateRoomRequest,
    invitee_profiles: Seq<Profile>,
) -> bool {
    let p = plan.pdus@;
    if request.name is Some && !name_ok(request.name->0) {
        p.len() == b && plan.failure == Some(RoomError::InvalidParam)
    } else {
        let c = if request.name is Some { b + 1 } else { b };
        let d = if request.topic is Some { c + 1 } else { c };
        &&& request.name matches Some(n) ==> room_state_event(p[b], room, sender, EventType::Name)
            && p[b].content == Content::Name(n)
        &&& request.topic matches Some(t) ==> room_state_event(p[c], room, sender, EventType::Topic)
            && p[c].content == Content::Topic(t)
        &&& p.len() == d + request.invite.len()
        &&& forall|i: int|
            d <= i < p.len() ==> is_member_event(
                #[trigger] p[i],
                room,
                sender,
                request.invite[i - d],
                Membership::Invite,
                invitee_profiles[i - d],
                request.is_direct,
            )
        &&& plan.failure is None
    }
}

/// The events after the two first ones: power levels, the preset's rules,
/// the initial state, then the tail.
pub open spec fn after_member_ok(
    plan: CreationPlan,
    config: ServerConfig,
    sender: String,
    room: String,
    request: CreateRoomRequest,
    invitee_profiles: Seq<Profile>,
) -> bool {
    let p = plan.pdus@;
    let preset = preset_of(request.preset, request.visibility);
    let kept = kept_state(request.initial_state@, config.encryption_disabled);
    let m = parsed_prefix(kept) as int;
    &&& p.len() >= 6 + m
    &&& is_power_levels_event(p[2], sender, room, request)
    &&& room_state_event(p[3], room, sender, EventType::JoinRules)
    &&& p[3].content == Content::JoinRules(join_rule_of(preset))
    &&& room_state_event(p[4], room, sender, EventType::HistoryVisibility)
    &&& p[4].content == Content::HistoryVisibility(HistoryVisibility::Shared)
    &&& room_state_event(p[5], room, sender, EventType::GuestAccess)
    &&& p[5].content == Content::GuestAccess(guest_access_of(preset))
    &&& forall|j: int| 0 <= j < m ==> is_initial_state_event(#[trigger] p[6 + j], room, sender, kept[j])
    &&& if m < kept.len() {
        p.len() == 6 + m && plan.failure == Some(RoomError::BadContent)
    } else {
        tail_ok(plan, 6 + m, sender, room, request, invitee_profiles)
    }
}

/// The whole plan for a room whose alias, if any, was accepted.
pub open spec fn plan_ok(
    plan: CreationPlan,
    config: ServerConfig,
    sender: String,
    room: String,
    request: CreateRoomRequest,
    sender_profile: Profile,
    invitee_profiles: Seq<Profile>,
) -> bool {
    let p = plan.pdus@;
    &&& p.len() >= 2
    &&& is_create_event(p[0], config, sender, room, request)
    &&& is_member_event(p[1], room, sender, sender, Membership::Join, sender_profile, request.is_direct)
    &&& if request.power_level_content_override is Some && !is_json(
        request.power_level_content_override->0@,
    ) {
        p.len() == 2 && plan.failure == Some(RoomError::BadContent)
    } else {
        after_member_ok(plan, config, sender, room, request, invitee_profiles)
    }
}

/// What creating a room yields, for a given answer of the alias registry.
pub open spec fn creation_result(
    config: ServerConfig,
    sender: String,
    room: String,
    request: CreateRoomRequest,
    alias_taken: bool,
    sender_profile: Profile,
    invitee_profiles: Seq<Profile>,
    r: Result<CreationPlan, RoomError>,
) -> bool {
    match alias_outcome(config.server_name@, request.room_alias_name, alias_taken) {
        Err(e) => r == Err::<CreationPlan, RoomError>(e),
        Ok(a) => r matches Ok(plan) && plan_ok(
            plan,
            config,
            sender,
            room,
            request,
            sender_profile,
            invitee_profiles,
        ) && if plan.failure is None {
            opt_view(plan.alias) == a && plan.publish == (request.visibility == Some(
                Visibility::Public,
            ))
        } else {
            plan.alias is None && !plan.publish
        },
    }
}

fn clone_predecessor(o: &Option<Predecessor>) -> (r: Option<Predecessor>)
    ensures
        r == *o,
{
    match o {
        Some(p) => Some(Predecessor { room_id: p.room_id.clone(), event_id: p.event_id.clone() }),
        None => None,
    }
}

/// The canonical alias `#localpart:server`, if ruma accepts it.
pub fn room_alias(localpart: &String, server_name: &String) -> (r: Result<String, RoomError>)
    ensures
        r is Ok <==> is_room_alias(alias_text(localpart@, server_name@)),
        r matches Ok(a) ==> a@ == alias_text(localpart@, server_name@),
        r matches Err(e) ==> e == RoomError::InvalidAlias,
{
    let mut text = String::new();
    push_str(&mut text, "#");
    push_str(&mut text, localpart.as_str());
    push_str(&mut text, ":");
    push_str(&mut text, server_name.as_str());
    proof {
        reveal_strlit("#");
        reveal_strlit(":");
    }
    assert(text@ =~= alias_text(localpart@, server_name@));
    if is_room_alias_text(text.as_str()) {
        Ok(text)
    } else {
        Err(RoomError::InvalidAlias)
    }
}

pub fn effective_preset(preset: Option<RoomPreset>, visibility: Option<Visibility>) -> (r: RoomPreset)
    ensures
        r == preset_of(preset, visibility),
{
    match preset {
        Some(p) => p,
        None => match visibility {
            Some(Visibility::Public) => RoomPreset::PublicChat,
            _ => RoomPreset::PrivateChat,
        },
    }
}

pub fn join_rule_for(p: RoomPreset) -> (r: JoinRule)
    ensures
        r == join_rule_of(p),
{
    match p {
        RoomPreset::PublicChat => JoinRule::Public,
        _ => JoinRule::Invite,
    }
}

pub fn guest_access_for(p: RoomPreset) -> (r: GuestAccess)
    ensures
        r == guest_access_of(p),
{
    match p {
        RoomPreset::PublicChat => GuestAccess::Forbidden,
        _ => GuestAccess::CanJoin,
    }
}

pub fn is_valid_name(name: &String) -> (r: bool)
    ensures
        r == name_ok(*name),
{
    name.as_str().len() <= 255
}

/// The power levels of a new room: the creator and each invitee at 100.
pub fn default_power_levels(sender: &String, invite: &Vec<String>) -> (pl: PowerLevels)
    ensures
        is_default_power_levels(pl, *sender, invite@),
        pl.wf(),
{
    let mut users: Vec<(String, i64)> = Vec::new();
    users.push((sender.clone(), 100));
    let mut i: usize = 0;
    while i < invite.len()
        invariant
            i <= invite.len(),
            users@ == seq![(*sender, 100i64)] + invite@.take(i as int).map_values(
                |u: String| (u, 100i64),
            ),
        decreases invite.len() - i,
    {
        users.push((invite[i].clone(), 100));
        i += 1;
        assert(invite@.take(i as int) =~= invite@.take(i - 1).push(invite@[i - 1]));
        assert(users@ =~= seq![(*sender, 100i64)] + invite@.take(i as int).map_values(
            |u: String| (u, 100i64),
        ));
    }
    assert(invite@.take(invite.len() as int) =~= invite@);
    PowerLevels {
        ban: 50,
        events: Vec::new(),
        events_default: 0,
        invite: 50,
        kick: 50,
        redact: 50,
        state_default: 50,
        users,
        users_default: 0,
        notifications_room: 50,
    }
}


proof fn lemma_parsed_prefix_stop(s: Seq<InitialStateEvent>, j: int)
    requires
        0 <= j < s.len(),
        forall|q: int| 0 <= q < j ==> is_json(#[trigger] s[q].content@),
        !is_json(s[j].content@),
    ensures
        parsed_prefix(s) == j,
    decreases j,
{
    if j > 0 {
        let t = s.drop_first();
        assert forall|q: int| 0 <= q < j - 1 implies is_json(#[trigger] t[q].content@) by {
            assert(t[q] == s[q + 1]);
        }
        lemma_parsed_prefix_stop(t, j - 1);
    }
}

proof fn lemma_parsed_prefix_all(s: Seq<InitialStateEvent>)
    requires
        forall|q: int| 0 <= q < s.len() ==> is_json(#[trigger] s[q].content@),
    ensures
        parsed_prefix(s) == s.len(),
    decreases s.len(),
{
    if s.len() > 0 {
        let t = s.drop_first();
        assert forall|q: int| 0 <= q < t.len() implies is_json(#[trigger] t[q].content@) by {
            assert(t[q] == s[q + 1]);
        }
        lemma_parsed_prefix_all(t);
    }
}

fn clone_initial_state(e: &InitialStateEvent) -> (r: InitialStateEvent)
    ensures
        r == *e,
{
    InitialStateEvent {
        event_type: e.event_type.duplicate(),
        state_key: clone_opt_string(&e.state_key),
        content: e.content.clone(),
    }
}

/// The initial-state entries that are appended, in the caller's order.
pub fn kept_initial_state(entries: &Vec<InitialStateEvent>, encryption_disabled: bool) -> (r: Vec<
    InitialStateEvent,
>)
    ensures
        r@ == kept_state(entries@, encryption_disabled),
{
    let mut kept: Vec<InitialStateEvent> = Vec::new();
    let mut i: usize = 0;
    while i < entries.len()
        invariant
            i <= entries.len(),
            kept@ == kept_state(entries@.take(i as int), encryption_disabled),
        decreases entries.len() - i,
    {
        let e = &entries[i];
        assert(entries@.take(i + 1).drop_last() =~= entries@.take(i as int));
        if !(encryption_disabled && e.event_type.is_encryption()) {
            kept.push(clone_initial_state(e));
        }
        i += 1;
    }
    assert(entries@.take(entries.len() as int) =~= entries@);
    kept
}

fn member_event(
    room: &String,
    sender: &String,
    user: &String,
    membership: Membership,
    profile: &Profile,
    is_direct: Option<bool>,
) -> (p: PduBuilder)
    ensures
        is_member_event(p, *room, *sender, *user, membership, *profile, is_direct),
{
    PduBuilder {
        room_id: room.clone(),
        sender: sender.clone(),
        event_type: EventType::Member,
        content: Content::Member {
            membership,
            displayname: clone_opt_string(&profile.displayname),
            avatar_url: clone_opt_string(&profile.avatar_url),
            is_direct,
        },
        state_key: Some(user.clone()),
        redacts: None,
    }
}

fn create_event(config: &ServerConfig, sender: &String, room: &String, request: &CreateRoomRequest) -> (p:
    PduBuilder)
    ensures
        is_create_event(p, *config, *sender, *room, *request),
{
    let (federate, predecessor) = match &request.creation_content {
        Some(c) => (c.federate, clone_predecessor(&c.predecessor)),
        None => (true, None),
    };
    let content = Content::Create {
        creator: sender.clone(),
        federate,
        room_version: config.creation_version.clone(),
        predecessor,
    };
    room_state(room, sender, EventType::Create, content)
}

fn failed_plan(pdus: Vec<PduBuilder>, e: RoomError) -> (plan: CreationPlan)
    ensures
        plan.pdus == pdus,
        plan.failure == Some(e),
        plan.alias is None,
        !plan.publish,
{
    CreationPlan { pdus, failure: Some(e), alias: None, publish: false }
}

/// Decides what creating room `room_id` for `sender` amounts to.
///
/// `alias_taken` is the alias registry's answer for the requested alias;
/// the profiles are those of the sender and of each invitee, in order. The
/// request fails outright, with nothing appended, on an alias ruma refuses
/// (`InvalidAlias`) or one that is taken (`AliasInUse`). Otherwise the plan
/// lists the create event, the sender's join, the power levels, the join
/// rules, history visibility and guest access of the preset in effect, the
/// initial state less refused encryption entries, the name, the topic and one
/// invite per invitee; it stops early, with `BadContent` at unparsable JSON
/// and with `InvalidParam` at an overlong name.
#[verifier::rlimit(50)]
#[verifier::loop_isolation(false)]
pub fn plan_room_creation(
    config: &ServerConfig,
    sender: &String,
    room_id: &String,
    request: &CreateRoomRequest,
    alias_taken: bool,
    sender_profile: &Profile,
    invitee_profiles: &Vec<Profile>,
) -> (r: Result<CreationPlan, RoomError>)
    requires
        invitee_profiles.len() == request.invite.len(),
    ensures
        creation_result(
            *config,
            *sender,
            *room_id,
            *request,
            alias_taken,
            *sender_profile,
            invitee_profiles@,
            r,
        ),
{
    let alias = match &request.room_alias_name {
        None => None,
        Some(l) => {
            let a = match room_alias(l, &config.server_name) {
                Ok(a) => a,
                Err(e) => {
                    return Err(e);
                },
            };
            if alias_taken {
                return Err(RoomError::AliasInUse);
            }
            Some(a)
        },
    };
    let mut pdus: Vec<PduBuilder> = Vec::new();
    pdus.push(create_event(config, sender, room_id, request));
    pdus.push(
        member_event(room_id, sender, sender, Membership::Join, sender_profile, request.is_direct),
    );
    let levels = match &request.power_level_content_override {
        Some(t) => {
            if !parses_as_json(t.as_str()) {
                return Ok(failed_plan(pdus, RoomError::BadContent));
            }
            Content::Json(t.clone())
        },
        None => Content::PowerLevels(default_power_levels(sender, &request.invite)),
    };
    pdus.push(room_state(room_id, sender, EventType::PowerLevels, levels));
    let preset = effective_preset(request.preset, request.visibility);
    pdus.push(
        room_state(room_id, sender, EventType::JoinRules, Content::JoinRules(join_rule_for(preset))),
    );
    pdus.push(
        room_state(
            room_id,
            sender,
            EventType::HistoryVisibility,
            Content::HistoryVisibility(HistoryVisibility::Shared),
        ),
    );
    pdus.push(
        room_state(
            room_id,
            sender,
            EventType::GuestAccess,
            Content::GuestAccess(guest_access_for(preset)),
        ),
    );

    let kept = kept_initial_state(&request.initial_state, config.encryption_disabled);
    let ghost head = pdus@;
    let mut init: Vec<PduBuilder> = Vec::new();
    let mut j: usize = 0;
    while j < kept.len()
        invariant
            j <= kept.len(),
            pdus@ == head,
            init@.len() == j,
            forall|q: int| 0 <= q < j ==> is_json(#[trigger] kept@[q].content@),
            forall|q: int|
                0 <= q < j ==> is_initial_state_event(#[trigger] init@[q], *room_id, *sender, kept@[q]),
        decreases kept.len() - j,
    {
        let e = &kept[j];
        if !parses_as_json(e.content.as_str()) {
            proof {
                lemma_parsed_prefix_stop(kept@, j as int);
            }
            let ghost done = init@;
            pdus.append(&mut init);
            assert(forall|q: int| 0 <= q < j ==> pdus@[6 + q] == done[q]);
            return Ok(failed_plan(pdus, RoomError::BadContent));
        }
        init.push(
            PduBuilder {
                room_id: room_id.clone(),
                sender: sender.clone(),
                event_type: e.event_type.duplicate(),
                content: Content::Json(e.content.clone()),
                state_key: clone_opt_string(&e.state_key),
                redacts: None,
            },
        );
        j += 1;
    }
    proof {
        lemma_parsed_prefix_all(kept@);
    }
    let ghost init_view = init@;
    pdus.append(&mut init);
    assert(forall|q: int| 0 <= q < kept@.len() ==> pdus@[6 + q] == init_view[q]);

    if let Some(n) = &request.name {
        if !is_valid_name(n) {
            return Ok(failed_plan(pdus, RoomError::InvalidParam));
        }
        pdus.push(room_state(room_id, sender, EventType::Name, Content::Name(n.clone())));
    }
    if let Some(t) = &request.topic {
        pdus.push(room_state(room_id, sender, EventType::Topic, Content::Topic(t.clone())));
    }

    let mut invites: Vec<PduBuilder> = Vec::new();
    let mut k: usize = 0;
    while k < request.invite.len()
        invariant
            k <= request.invite.len(),
            invitee_profiles.len() == request.invite.len(),
            invites@.len() == k,
            forall|q: int|
                0 <= q < k ==> is_member_event(
                    #[trigger] invites@[q],
                    *room_id,
                    *sender,
                    request.invite[q],
                    Membership::Invite,
                    invitee_profiles[q],
                    request.is_direct,
                ),
        decreases request.invite.len() - k,
    {
        invites.push(
            member_event(
                room_id,
                sender,
                &request.invite[k],
                Membership::Invite,
                &invitee_profiles[k],
                request.is_direct,
            ),
        );
        k += 1;
    }
    let ghost d = pdus@.len() as int;
    let ghost invites_view = invites@;
    pdus.append(&mut invites);
    assert forall|i: int| d <= i < pdus@.len() implies is_member_event(
        #[trigger] pdus@[i],
        *room_id,
        *sender,
        request.invite[i - d],
        Membership::Invite,
        invitee_profiles[i - d],
        request.is_direct,
    ) by {
        assert(pdus@[i] == invites_view[i - d]);
    }
    let publish = match request.visibility {
        Some(Visibility::Public) => true,
        _ => false,
    };
    Ok(CreationPlan { pdus, failure: None, alias, publish })
}

/// A public room with no preset asked for gets the public-chat preset: anyone
/// may join and guests may not; under every other preset in effect joining
/// takes an invite and guests may join.
pub proof fn lemma_preset_rules(preset: Option<RoomPreset>, visibility: Option<Visibility>)
    ensures
        preset is None && visibility == Some(Visibility::Public) ==> preset_of(preset, visibility)
            == RoomPreset::PublicChat,
        preset_of(preset, visibility) == RoomPreset::PublicChat ==> join_rule_of(
            preset_of(preset, visibility),
        ) == JoinRule::Public && guest_access_of(preset_of(preset, visibility))
            == GuestAccess::Forbidden,
        preset_of(preset, visibility) != RoomPreset::PublicChat ==> join_rule_of(
            preset_of(preset, visibility),
        ) == JoinRule::Invite && guest_access_of(preset_of(preset, visibility))
            == GuestAccess::CanJoin,
{
}

/// How many events of `p` satisfy `f`.
pub open spec fn count_where(p: Seq<PduBuilder>, f: spec_fn(PduBuilder) -> bool) -> nat
    decreases p.len(),
{
    if p.len() == 0 {
        0
    } else {
        count_where(p.drop_last(), f) + if f(p.last()) {
            1nat
        } else {
            0nat
        }
    }
}

pub open spec fn of_type(t: EventType) -> spec_fn(PduBuilder) -> bool {
    |p: PduBuilder| p.event_type == t
}

/// Membership events for `user` with the given membership.
pub open spec fn member_of(user: String, m: Membership) -> spec_fn(PduBuilder) -> bool {
    |p: PduBuilder| p.event_type == EventType::Member && p.state_key == Some(user) && (
    p.content matches Content::Member { membership, .. } && membership == m)
}

/// The types of the events that open every room.
pub open spec fn is_opening_type(t: EventType) -> bool {
    t is Create || t is Member || t is PowerLevels || t is JoinRules || t is HistoryVisibility
        || t is GuestAccess
}

pub open spec fn is_name_or_topic(t: EventType) -> bool {
    t is Name || t is Topic
}

proof fn lemma_count_add(a: Seq<PduBuilder>, b: Seq<PduBuilder>, f: spec_fn(PduBuilder) -> bool)
    ensures
        count_where(a + b, f) == count_where(a, f) + count_where(b, f),
    decreases b.len(),
{
    if b.len() > 0 {
        assert((a + b).drop_last() =~= a + b.drop_last());
        lemma_count_add(a, b.drop_last(), f);
    } else {
        assert(a + b =~= a);
    }
}

proof fn lemma_count_none(s: Seq<PduBuilder>, f: spec_fn(PduBuilder) -> bool)
    requires
        forall|i: int| 0 <= i < s.len() ==> !f(#[trigger] s[i]),
    ensures
        count_where(s, f) == 0,
    decreases s.len(),
{
    if s.len() > 0 {
        lemma_count_none(s.drop_last(), f);
    }
}

proof fn lemma_count_all(s: Seq<PduBuilder>, f: spec_fn(PduBuilder) -> bool)
    requires
        forall|i: int| 0 <= i < s.len() ==> f(#[trigger] s[i]),
    ensures
        count_where(s, f) == s.len(),
    decreases s.len(),
{
    if s.len() > 0 {
        lemma_count_all(s.drop_last(), f);
    }
}

/// The count over a sequence of at most six events, event by event.
pub open spec fn count_first6(s: Seq<PduBuilder>, f: spec_fn(PduBuilder) -> bool) -> nat {
    (if s.len() > 0 && f(s[0]) { 1nat } else { 0nat }) + (if s.len() > 1 && f(s[1]) {
        1nat
    } else {
        0nat
    }) + (if s.len() > 2 && f(s[2]) {
        1nat
    } else {
        0nat
    }) + (if s.len() > 3 && f(s[3]) {
        1nat
    } else {
        0nat
    }) + (if s.len() > 4 && f(s[4]) {
        1nat
    } else {
        0nat
    }) + (if s.len() > 5 && f(s[5]) {
        1nat
    } else {
        0nat
    })
}

proof fn lemma_count_segments(
    head: Seq<PduBuilder>,
    init: Seq<PduBuilder>,
    named: Seq<PduBuilder>,
    invites: Seq<PduBuilder>,
    f: spec_fn(PduBuilder) -> bool,
)
    requires
        head.len() == 6,
        named.len() <= 2,
        forall|i: int| 0 <= i < init.len() ==> !f(#[trigger] init[i]),
    ensures
        count_where(head + init + named + invites, f) == count_first6(head, f) + count_first6(
            named,
            f,
        ) + count_where(invites, f),
{
    lemma_count_add(head + init + named, invites, f);
    lemma_count_add(head + init, named, f);
    lemma_count_add(head, init, f);
    lemma_count_small(head, f);
    lemma_count_small(named, f);
    lemma_count_none(init, f);
}

proof fn lemma_count_small(s: Seq<PduBuilder>, f: spec_fn(PduBuilder) -> bool)
    requires
        s.len() <= 6,
    ensures
        count_where(s, f) == count_first6(s, f),
    decreases s.len(),
{
    if s.len() > 0 {
        let t = s.drop_last();
        lemma_count_small(t, f);
    }
}

proof fn lemma_parsed_prefix_bound(s: Seq<InitialStateEvent>)
    ensures
        parsed_prefix(s) <= s.len(),
    decreases s.len(),
{
    if s.len() > 0 {
        lemma_parsed_prefix_bound(s.drop_first());
    }
}

proof fn lemma_kept_types(
    s: Seq<InitialStateEvent>,
    encryption_disabled: bool,
    excluded: spec_fn(EventType) -> bool,
)
    requires
        forall|i: int| 0 <= i < s.len() ==> !excluded(#[trigger] s[i].event_type),
    ensures
        forall|j: int|
            0 <= j < kept_state(s, encryption_disabled).len() ==> !excluded(
                #[trigger] kept_state(s, encryption_disabled)[j].event_type,
            ),
    decreases s.len(),
{
    if s.len() > 0 {
        lemma_kept_types(s.drop_last(), encryption_disabled, excluded);
    }
}

proof fn lemma_count_one(s: Seq<PduBuilder>, f: spec_fn(PduBuilder) -> bool, k: int)
    requires
        0 <= k < s.len(),
        f(s[k]),
        forall|j: int| 0 <= j < s.len() && j != k ==> !f(#[trigger] s[j]),
    ensures
        count_where(s, f) == 1,
    decreases s.len(),
{
    if k == s.len() - 1 {
        lemma_count_none(s.drop_last(), f);
    } else {
        lemma_count_one(s.drop_last(), f, k);
    }
}

/// The four parts of a plan that ran to the end: the six opening events, the
/// initial state, the name and topic, and the invites.
pub open spec fn plan_parts(
    p: Seq<PduBuilder>,
    config: ServerConfig,
    request: CreateRoomRequest,
) -> (Seq<PduBuilder>, Seq<PduBuilder>, Seq<PduBuilder>, Seq<PduBuilder>) {
    let b = 6 + kept_state(request.initial_state@, config.encryption_disabled).len();
    let c = if request.name is Some { b + 1 } else { b };
    let d = if request.topic is Some { c + 1 } else { c };
    (p.subrange(0, 6), p.subrange(6, b as int), p.subrange(b as int, d as int), p.subrange(d as int, p.len() as int))
}

proof fn lemma_plan_parts(
    config: ServerConfig,
    sender: String,
    room: String,
    request: CreateRoomRequest,
    alias_taken: bool,
    sender_profile: Profile,
    invitee_profiles: Seq<Profile>,
    plan: CreationPlan,
)
    requires
        creation_result(
            config,
            sender,
            room,
            request,
            alias_taken,
            sender_profile,
            invitee_profiles,
            Ok(plan),
        ),
        plan.failure is None,
    ensures
        ({
            let (head, init, named, invites) = plan_parts(plan.pdus@, config, request);
            let kept = kept_state(request.initial_state@, config.encryption_disabled);
            &&& plan.pdus@ =~= head + init + named + invites
            &&& head.len() == 6
            &&& head[0].event_type == EventType::Create
            &&& member_of(sender, Membership::Join)(head[1])
            &&& head[2].event_type == EventType::PowerLevels
            &&& head[3].event_type == EventType::JoinRules
            &&& head[4].event_type == EventType::HistoryVisibility
            &&& head[5].event_type == EventType::GuestAccess
            &&& init.len() == kept.len()
            &&& forall|j: int| 0 <= j < init.len() ==> (#[trigger] init[j]).event_type == kept[j].event_type
            &&& named.len() == (if request.name is Some { 1int } else { 0 }) + (if request.topic is Some { 1int } else { 0 })
            &&& request.name is Some ==> named[0].event_type == EventType::Name
            &&& request.topic is Some ==> named[named.len() - 1].event_type == EventType::Topic
            &&& invites.len() == request.invite.len()
            &&& forall|j: int| 0 <= j < invites.len() ==> member_of(request.invite[j], Membership::Invite)(#[trigger] invites[j])
        }),
{
    let p = plan.pdus@;
    let kept = kept_state(request.initial_state@, config.encryption_disabled);
    let m = parsed_prefix(kept) as int;
    lemma_parsed_prefix_bound(kept);
    assert(plan_ok(plan, config, sender, room, request, sender_profile, invitee_profiles));
    assert(after_member_ok(plan, config, sender, room, request, invitee_profiles));
    assert(m == kept.len());
    assert(tail_ok(plan, 6 + m, sender, room, request, invitee_profiles));
    let (head, init, named, invites) = plan_parts(p, config, request);
    let b = 6 + m;
    let c = if request.name is Some { b + 1 } else { b };
    let d = if request.topic is Some { c + 1 } else { c };
    assert forall|j: int| 0 <= j < init.len() implies (#[trigger] init[j]).event_type == kept[j].event_type by {
        assert(is_initial_state_event(p[6 + j], room, sender, kept[j]));
    }
    assert forall|j: int| 0 <= j < invites.len() implies member_of(request.invite[j], Membership::Invite)(#[trigger] invites[j]) by {
        assert(invites[j] == p[d + j]);
        assert(is_member_event(
            p[d + j],
            room,
            sender,
            request.invite[j],
            Membership::Invite,
            invitee_profiles[j],
            request.is_direct,
        ));
    }
}

/// A room created without failure, whose initial state holds none of the
/// opening types and whose invitees are distinct, has exactly one create,
/// power-levels, join-rules, history-visibility and guest-access event, one
/// join of the creator, and one invite of each invitee.
pub proof fn lemma_creation_event_counts(
    config: ServerConfig,
    sender: String,
    room: String,
    request: CreateRoomRequest,
    alias_taken: bool,
    sender_profile: Profile,
    invitee_profiles: Seq<Profile>,
    plan: CreationPlan,
)
    requires
        creation_result(
            config,
            sender,
            room,
            request,
            alias_taken,
            sender_profile,
            invitee_profiles,
            Ok(plan),
        ),
        plan.failure is None,
        forall|i: int|
            0 <= i < request.initial_state.len() ==> !is_opening_type(
                #[trigger] request.initial_state[i].event_type,
            ),
        forall|i: int, j: int|
            0 <= i < j < request.invite.len() ==> (#[trigger] request.invite[i])@
                != (#[trigger] request.invite[j])@,
    ensures
        count_where(plan.pdus@, of_type(EventType::Create)) == 1,
        count_where(plan.pdus@, of_type(EventType::PowerLevels)) == 1,
        count_where(plan.pdus@, of_type(EventType::JoinRules)) == 1,
        count_where(plan.pdus@, of_type(EventType::HistoryVisibility)) == 1,
        count_where(plan.pdus@, of_type(EventType::GuestAccess)) == 1,
        count_where(plan.pdus@, member_of(sender, Membership::Join)) == 1,
        forall|k: int|
            0 <= k < request.invite.len() ==> count_where(
                plan.pdus@,
                #[trigger] member_of(request.invite[k], Membership::Invite),
            ) == 1,
{
    lemma_plan_parts(config, sender, room, request, alias_taken, sender_profile, invitee_profiles, plan);
    lemma_kept_types(request.initial_state@, config.encryption_disabled, |t: EventType| is_opening_type(t));
    let kept = kept_state(request.initial_state@, config.encryption_disabled);
    let (head, init, named, invites) = plan_parts(plan.pdus@, config, request);
    assert forall|j: int| 0 <= j < init.len() implies !is_opening_type(#[trigger] init[j].event_type) by {
        assert(!is_opening_type(kept[j].event_type));
    }
    lemma_count_segments(head, init, named, invites, of_type(EventType::Create));
    lemma_count_segments(head, init, named, invites, of_type(EventType::PowerLevels));
    lemma_count_segments(head, init, named, invites, of_type(EventType::JoinRules));
    lemma_count_segments(head, init, named, invites, of_type(EventType::HistoryVisibility));
    lemma_count_segments(head, init, named, invites, of_type(EventType::GuestAccess));
    lemma_count_segments(head, init, named, invites, member_of(sender, Membership::Join));
    lemma_count_none(invites, of_type(EventType::Create));
    lemma_count_none(invites, of_type(EventType::PowerLevels));
    lemma_count_none(invites, of_type(EventType::JoinRules));
    lemma_count_none(invites, of_type(EventType::HistoryVisibility));
    lemma_count_none(invites, of_type(EventType::GuestAccess));
    lemma_count_none(invites, member_of(sender, Membership::Join));
    assert forall|k: int| 0 <= k < request.invite.len() implies count_where(
        plan.pdus@,
        #[trigger] member_of(request.invite[k], Membership::Invite),
    ) == 1 by {
        let f = member_of(request.invite[k], Membership::Invite);
        lemma_count_segments(head, init, named, invites, f);
        assert forall|j: int| 0 <= j < invites.len() && j != k implies !f(#[trigger] invites[j]) by {
            if j < k {
                assert(request.invite[j]@ != request.invite[k]@);
            } else {
                assert(request.invite[k]@ != request.invite[j]@);
            }
        }
        lemma_count_one(invites, f, k);
    }
}

/// A room created without failure, whose initial state holds no name or
/// topic, has a name event exactly when a name was asked for, and a topic
/// event exactly when a topic was.
pub proof fn lemma_name_topic_counts(
    config: ServerConfig,
    sender: String,
    room: String,
    request: CreateRoomRequest,
    alias_taken: bool,
    sender_profile: Profile,
    invitee_profiles: Seq<Profile>,
    plan: CreationPlan,
)
    requires
        creation_result(
            config,
            sender,
            room,
            request,
            alias_taken,
            sender_profile,
            invitee_profiles,
            Ok(plan),
        ),
        plan.failure is None,
        forall|i: int|
            0 <= i < request.initial_state.len() ==> !is_name_or_topic(
                #[trigger] request.initial_state[i].event_type,
            ),
    ensures
        count_where(plan.pdus@, of_type(EventType::Name)) == if request.name is Some {
            1nat
        } else {
            0nat
        },
        count_where(plan.pdus@, of_type(EventType::Topic)) == if request.topic is Some {
            1nat
        } else {
            0nat
        },
{
    lemma_plan_parts(config, sender, room, request, alias_taken, sender_profile, invitee_profiles, plan);
    lemma_kept_types(request.initial_state@, config.encryption_disabled, |t: EventType| is_name_or_topic(t));
    let kept = kept_state(request.initial_state@, config.encryption_disabled);
    let (head, init, named, invites) = plan_parts(plan.pdus@, config, request);
    assert forall|j: int| 0 <= j < init.len() implies !is_name_or_topic(#[trigger] init[j].event_type) by {
        assert(!is_name_or_topic(kept[j].event_type));
    }
    lemma_count_segments(head, init, named, invites, of_type(EventType::Name));
    lemma_count_segments(head, init, named, invites, of_type(EventType::Topic));
    lemma_count_none(invites, of_type(EventType::Name));
    lemma_count_none(invites, of_type(EventType::Topic));
}

/// Asking for an alias that already points at a room fails with `AliasInUse`
/// and yields no plan, so no room and no event. An alias bound in the registry
/// was accepted as an alias when it was bound, so the alias is taken to be one
/// ruma accepts.
pub proof fn lemma_alias_in_use(
    config: ServerConfig,
    sender: String,
    room: String,
    request: CreateRoomRequest,
    sender_profile: Profile,
    invitee_profiles: Seq<Profile>,
    r: Result<CreationPlan, RoomError>,
)
    requires
        request.room_alias_name is Some,
        is_room_alias(alias_text(request.room_alias_name->0@, config.server_name@)),
        creation_result(config, sender, room, request, true, sender_profile, invitee_profiles, r),
    ensures
        r == Err::<CreationPlan, RoomError>(RoomError::AliasInUse),
{
}

proof fn lemma_kept_no_encryption(s: Seq<InitialStateEvent>)
    ensures
        forall|j: int|
            0 <= j < kept_state(s, true).len() ==> !(#[trigger] kept_state(s, true)[j].event_type is Encryption),
    decreases s.len(),
{
    if s.len() > 0 {
        lemma_kept_no_encryption(s.drop_last());
    }
}

/// While the server has encryption disabled, creating a room appends no
/// encryption event, whatever the initial state asks for; the entries left out
/// play no part in whether the creation fails.
pub proof fn lemma_no_encryption_when_disabled(
    config: ServerConfig,
    sender: String,
    room: String,
    request: CreateRoomRequest,
    alias_taken: bool,
    sender_profile: Profile,
    invitee_profiles: Seq<Profile>,
    plan: CreationPlan,
)
    requires
        creation_result(
            config,
            sender,
            room,
            request,
            alias_taken,
            sender_profile,
            invitee_profiles,
            Ok(plan),
        ),
        config.encryption_disabled,
    ensures
        count_where(plan.pdus@, of_type(EventType::Encryption)) == 0,
        forall|j: int|
            0 <= j < kept_state(request.initial_state@, true).len() ==> !(#[trigger] kept_state(
                request.initial_state@,
                true,
            )[j].event_type is Encryption),
{
    let p = plan.pdus@;
    let kept = kept_state(request.initial_state@, true);
    let m = parsed_prefix(kept) as int;
    lemma_kept_no_encryption(request.initial_state@);
    lemma_parsed_prefix_bound(kept);
    assert(plan_ok(plan, config, sender, room, request, sender_profile, invitee_profiles));
    assert forall|i: int| 0 <= i < p.len() implies !(#[trigger] p[i].event_type is Encryption) by {
        if i >= 6 && i < 6 + m {
            assert(is_initial_state_event(p[6 + (i - 6)], room, sender, kept[i - 6]));
        }
    }
    lemma_count_none(p, of_type(EventType::Encryption));
}

} // verus!
