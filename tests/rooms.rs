use conduit_rooms::create::{
    default_power_levels, effective_preset, guest_access_for, join_rule_for, kept_initial_state,
    plan_room_creation, room_alias, CreateRoomRequest, CreationContent, CreationPlan,
    InitialStateEvent, Profile, RoomPreset, ServerConfig, Visibility,
};
use conduit_rooms::events::{
    visible_event, Content, EventType, GuestAccess, HistoryVisibility, JoinRule, Membership,
    PduBuilder, PowerLevels, Predecessor, RoomError, MAX_LEVEL,
};
use conduit_rooms::upgrade::{
    lock_down, start_upgrade, Upgrade, UpgradeAction, UpgradeEvent, UpgradePhase, TOMBSTONE_BODY,
};

fn config(encryption_disabled: bool) -> ServerConfig {
    ServerConfig {
        server_name: "example.com".to_string(),
        encryption_disabled,
        creation_version: "6".to_string(),
        upgrade_versions: vec!["5".to_string(), "6".to_string()],
    }
}

fn request() -> CreateRoomRequest {
    CreateRoomRequest {
        room_alias_name: None,
        creation_content: None,
        power_level_content_override: None,
        preset: None,
        visibility: None,
        initial_state: Vec::new(),
        name: None,
        topic: None,
        invite: Vec::new(),
        is_direct: None,
    }
}

fn profile(name: &str) -> Profile {
    Profile { displayname: Some(name.to_string()), avatar_url: None }
}

fn sender() -> String {
    "@alice:example.com".to_string()
}

fn room() -> String {
    "!room:example.com".to_string()
}

fn plan(cfg: &ServerConfig, req: &CreateRoomRequest, taken: bool) -> Result<CreationPlan, RoomError> {
    let profiles: Vec<Profile> = req.invite.iter().map(|u| profile(u)).collect();
    plan_room_creation(cfg, &sender(), &room(), req, taken, &profile("Alice"), &profiles)
}

fn count(pdus: &[PduBuilder], f: impl Fn(&PduBuilder) -> bool) -> usize {
    pdus.iter().filter(|p| f(p)).count()
}

fn is_empty_key(p: &PduBuilder) -> bool {
    p.state_key.as_deref() == Some("")
}

fn power_levels(users_default: i64) -> PowerLevels {
    PowerLevels {
        ban: 50,
        events: vec![("m.room.name".to_string(), 50)],
        events_default: 0,
        invite: 0,
        kick: 50,
        redact: 50,
        state_default: 50,
        users: vec![(sender(), 100)],
        users_default,
        notifications_room: 50,
    }
}

#[test]
fn successful_creation_yields_each_event_once() {
    let mut req = request();
    req.name = Some("Lounge".to_string());
    req.topic = Some("Chat".to_string());
    req.invite = vec!["@bob:example.com".to_string(), "@carol:example.com".to_string()];
    let p = plan(&config(false), &req, false).unwrap();
    assert_eq!(p.failure, None);
    let pdus = &p.pdus;
    assert_eq!(pdus.len(), 10);
    assert_eq!(count(pdus, |p| matches!(p.event_type, EventType::Create)), 1);
    assert_eq!(count(pdus, |p| matches!(p.event_type, EventType::PowerLevels)), 1);
    assert_eq!(count(pdus, |p| matches!(p.event_type, EventType::JoinRules)), 1);
    assert_eq!(count(pdus, |p| matches!(p.event_type, EventType::HistoryVisibility)), 1);
    assert_eq!(count(pdus, |p| matches!(p.event_type, EventType::GuestAccess)), 1);
    assert_eq!(count(pdus, |p| matches!(p.event_type, EventType::Name)), 1);
    assert_eq!(count(pdus, |p| matches!(p.event_type, EventType::Topic)), 1);
    let joins = count(pdus, |p| {
        matches!(p.content, Content::Member { membership: Membership::Join, .. })
            && p.state_key.as_deref() == Some("@alice:example.com")
    });
    assert_eq!(joins, 1);
    let invites = count(pdus, |p| matches!(p.content, Content::Member { membership: Membership::Invite, .. }));
    assert_eq!(invites, 2);
    assert_eq!(pdus[8].state_key.as_deref(), Some("@bob:example.com"));
    assert_eq!(pdus[9].state_key.as_deref(), Some("@carol:example.com"));
    assert!(matches!(pdus[0].event_type, EventType::Create));
    assert!(matches!(pdus[1].event_type, EventType::Member));
    assert!(matches!(pdus[2].event_type, EventType::PowerLevels));
}

#[test]
fn creation_without_name_or_topic_has_neither() {
    let p = plan(&config(false), &request(), false).unwrap();
    assert_eq!(p.pdus.len(), 6);
    assert_eq!(count(&p.pdus, |p| matches!(p.event_type, EventType::Name | EventType::Topic)), 0);
    assert!(p.pdus.iter().all(|p| p.room_id == room() && p.sender == sender()));
}

#[test]
fn create_event_defaults_and_overrides() {
    let p = plan(&config(false), &request(), false).unwrap();
    match &p.pdus[0].content {
        Content::Create { creator, federate, room_version, predecessor } => {
            assert_eq!(creator, "@alice:example.com");
            assert!(*federate);
            assert_eq!(room_version, "6");
            assert!(predecessor.is_none());
        }
        other => panic!("unexpected content {:?}", other),
    }
    assert!(is_empty_key(&p.pdus[0]));
    let mut req = request();
    req.creation_content = Some(CreationContent {
        federate: false,
        predecessor: Some(Predecessor { room_id: "!old:example.com".to_string(), event_id: "$t".to_string() }),
    });
    let p = plan(&config(false), &req, false).unwrap();
    match &p.pdus[0].content {
        Content::Create { federate, predecessor, .. } => {
            assert!(!*federate);
            assert_eq!(predecessor.as_ref().unwrap().event_id, "$t");
        }
        other => panic!("unexpected content {:?}", other),
    }
}

#[test]
fn default_power_levels_give_creator_and_invitees_100() {
    let mut req = request();
    req.invite = vec!["@bob:example.com".to_string()];
    let p = plan(&config(false), &req, false).unwrap();
    match &p.pdus[2].content {
        Content::PowerLevels(pl) => {
            assert_eq!(pl.users, vec![(sender(), 100), ("@bob:example.com".to_string(), 100)]);
            assert_eq!((pl.ban, pl.kick, pl.redact, pl.invite, pl.state_default), (50, 50, 50, 50, 50));
            assert_eq!((pl.users_default, pl.events_default, pl.notifications_room), (0, 0, 50));
            assert!(pl.events.is_empty());
        }
        other => panic!("unexpected content {:?}", other),
    }
    let direct = default_power_levels(&sender(), &vec!["@x:example.com".to_string()]);
    assert_eq!(direct.users.len(), 2);
}

#[test]
fn power_level_override_is_used_verbatim() {
    let mut req = request();
    req.invite = vec!["@bob:example.com".to_string()];
    let text = r#"{"users":{"@alice:example.com":42}}"#.to_string();
    req.power_level_content_override = Some(text.clone());
    let p = plan(&config(false), &req, false).unwrap();
    match &p.pdus[2].content {
        Content::Json(t) => assert_eq!(t, &text),
        other => panic!("unexpected content {:?}", other),
    }
}

#[test]
fn bad_power_level_override_stops_after_join() {
    let mut req = request();
    req.power_level_content_override = Some("{not json".to_string());
    let p = plan(&config(false), &req, false).unwrap();
    assert_eq!(p.pdus.len(), 2);
    assert_eq!(p.failure, Some(RoomError::BadContent));
    assert!(p.alias.is_none());
    assert!(!p.publish);
}

#[test]
fn public_visibility_without_preset_is_public_chat() {
    let mut req = request();
    req.visibility = Some(Visibility::Public);
    let p = plan(&config(false), &req, false).unwrap();
    assert!(matches!(p.pdus[3].content, Content::JoinRules(JoinRule::Public)));
    assert!(matches!(p.pdus[4].content, Content::HistoryVisibility(HistoryVisibility::Shared)));
    assert!(matches!(p.pdus[5].content, Content::GuestAccess(GuestAccess::Forbidden)));
    assert!(p.publish);
}

#[test]
fn other_presets_require_invites() {
    let p = plan(&config(false), &request(), false).unwrap();
    assert!(matches!(p.pdus[3].content, Content::JoinRules(JoinRule::Invite)));
    assert!(matches!(p.pdus[5].content, Content::GuestAccess(GuestAccess::CanJoin)));
    assert!(!p.publish);
    let mut req = request();
    req.visibility = Some(Visibility::Public);
    req.preset = Some(RoomPreset::PrivateChat);
    let p = plan(&config(false), &req, false).unwrap();
    assert!(matches!(p.pdus[3].content, Content::JoinRules(JoinRule::Invite)));
    assert!(p.publish);
    assert_eq!(effective_preset(None, Some(Visibility::Private)), RoomPreset::PrivateChat);
    assert_eq!(effective_preset(Some(RoomPreset::TrustedPrivateChat), None), RoomPreset::TrustedPrivateChat);
    assert_eq!(join_rule_for(RoomPreset::TrustedPrivateChat), JoinRule::Invite);
    assert_eq!(guest_access_for(RoomPreset::PublicChat), GuestAccess::Forbidden);
}

#[test]
fn alias_in_use_fails_before_anything() {
    let mut req = request();
    req.room_alias_name = Some("lounge".to_string());
    assert_eq!(plan(&config(false), &req, true).unwrap_err(), RoomError::AliasInUse);
    let p = plan(&config(false), &req, false).unwrap();
    assert_eq!(p.alias.as_deref(), Some("#lounge:example.com"));
}

#[test]
fn invalid_alias_is_refused() {
    let mut req = request();
    req.room_alias_name = Some("lounge".to_string());
    let mut cfg = config(false);
    cfg.server_name = "".to_string();
    assert_eq!(plan(&cfg, &req, false).unwrap_err(), RoomError::InvalidAlias);
    assert_eq!(room_alias(&"a".to_string(), &"bad server".to_string()), Err(RoomError::InvalidAlias));
    assert_eq!(room_alias(&"ruma".to_string(), &"example.com".to_string()).unwrap(), "#ruma:example.com");
}

#[test]
fn encryption_state_skipped_when_disabled() {
    let mut req = request();
    req.initial_state = vec![
        InitialStateEvent {
            event_type: EventType::Encryption,
            state_key: Some(String::new()),
            content: r#"{"algorithm":"m.megolm.v1.aes-sha2"}"#.to_string(),
        },
        InitialStateEvent {
            event_type: EventType::Custom("org.example.flag".to_string()),
            state_key: Some("k".to_string()),
            content: "{}".to_string(),
        },
    ];
    let p = plan(&config(true), &req, false).unwrap();
    assert_eq!(p.failure, None);
    assert_eq!(count(&p.pdus, |p| matches!(p.event_type, EventType::Encryption)), 0);
    assert_eq!(p.pdus.len(), 7);
    assert_eq!(p.pdus[6].state_key.as_deref(), Some("k"));
    let p = plan(&config(false), &req, false).unwrap();
    assert_eq!(count(&p.pdus, |p| matches!(p.event_type, EventType::Encryption)), 1);
    assert_eq!(kept_initial_state(&req.initial_state, true).len(), 1);
}

#[test]
fn bad_initial_state_stops_there() {
    let mut req = request();
    req.topic = Some("t".to_string());
    req.initial_state = vec![
        InitialStateEvent { event_type: EventType::Avatar, state_key: Some(String::new()), content: "{}".to_string() },
        InitialStateEvent { event_type: EventType::Topic, state_key: Some(String::new()), content: "{".to_string() },
        InitialStateEvent { event_type: EventType::Name, state_key: Some(String::new()), content: "{}".to_string() },
    ];
    let p = plan(&config(false), &req, false).unwrap();
    assert_eq!(p.pdus.len(), 7);
    assert_eq!(p.failure, Some(RoomError::BadContent));
}

#[test]
fn overlong_name_is_invalid() {
    let mut req = request();
    req.name = Some("n".repeat(256));
    req.invite = vec!["@bob:example.com".to_string()];
    let p = plan(&config(false), &req, false).unwrap();
    assert_eq!(p.pdus.len(), 6);
    assert_eq!(p.failure, Some(RoomError::InvalidParam));
    req.name = Some("n".repeat(255));
    let p = plan(&config(false), &req, false).unwrap();
    assert_eq!(p.failure, None);
    assert_eq!(p.pdus.len(), 8);
}

fn begin() -> (Upgrade, UpgradeAction) {
    start_upgrade(
        &config(false),
        &sender(),
        &profile("Alice"),
        &"!old:example.com".to_string(),
        &"6".to_string(),
        &"!new:example.com".to_string(),
    )
    .unwrap()
}

#[test]
fn unsupported_version_is_refused() {
    let r = start_upgrade(
        &config(false),
        &sender(),
        &profile("Alice"),
        &"!old:example.com".to_string(),
        &"9".to_string(),
        &"!new:example.com".to_string(),
    );
    assert_eq!(r.unwrap_err(), RoomError::UnsupportedVersion);
}

#[test]
fn upgrade_runs_in_order() {
    let (u, a) = begin();
    match a {
        UpgradeAction::Append(p) => {
            assert!(matches!(p.event_type, EventType::Tombstone));
            assert_eq!(p.room_id, "!old:example.com");
            match p.content {
                Content::Tombstone { body, replacement_room } => {
                    assert_eq!(body, TOMBSTONE_BODY);
                    assert_eq!(replacement_room, "!new:example.com");
                }
                other => panic!("unexpected content {:?}", other),
            }
        }
        other => panic!("unexpected action {:?}", other),
    }
    let (u, a) = u.step(UpgradeEvent::Appended("$tomb".to_string()));
    assert!(matches!(a, UpgradeAction::ReadCreate { .. }));
    let (u, a) = u.step(UpgradeEvent::CreateRead(Some(false)));
    match a {
        UpgradeAction::Append(p) => {
            assert_eq!(p.room_id, "!new:example.com");
            match p.content {
                Content::Create { federate, room_version, predecessor, .. } => {
                    assert!(!federate);
                    assert_eq!(room_version, "6");
                    let pred = predecessor.unwrap();
                    assert_eq!(pred.room_id, "!old:example.com");
                    assert_eq!(pred.event_id, "$tomb");
                }
                other => panic!("unexpected content {:?}", other),
            }
        }
        other => panic!("unexpected action {:?}", other),
    }
    let (u, a) = u.step(UpgradeEvent::Appended("$create".to_string()));
    assert!(matches!(a, UpgradeAction::Append(PduBuilder { content: Content::Member { membership: Membership::Join, .. }, .. })));
    let (mut u, mut a) = u.step(UpgradeEvent::Appended("$join".to_string()));
    let mut read = Vec::new();
    let mut copied = 0;
    loop {
        match a {
            UpgradeAction::ReadState { event_type, .. } => {
                let has = matches!(event_type, EventType::Name | EventType::PowerLevels);
                read.push(event_type);
                let (n, b) = u.step(UpgradeEvent::StateRead(if has { Some("{}".to_string()) } else { None }));
                u = n;
                a = b;
            }
            UpgradeAction::Append(p) => {
                assert_eq!(p.room_id, "!new:example.com");
                copied += 1;
                let (n, b) = u.step(UpgradeEvent::Appended("$c".to_string()));
                u = n;
                a = b;
            }
            _ => break,
        }
    }
    assert_eq!(read.len(), 9);
    assert!(matches!(read[0], EventType::ServerAcl));
    assert!(matches!(read[8], EventType::PowerLevels));
    assert_eq!(copied, 2);
    assert!(matches!(a, UpgradeAction::ListAliases { .. }));
    let (u, a) = u.step(UpgradeEvent::AliasesListed(vec!["#a:example.com".to_string(), "#b:example.com".to_string()]));
    assert!(matches!(&a, UpgradeAction::BindAlias { alias, room_id } if alias == "#a:example.com" && room_id == "!new:example.com"));
    let (u, a) = u.step(UpgradeEvent::AliasBound(false));
    assert!(matches!(&a, UpgradeAction::BindAlias { alias, .. } if alias == "#b:example.com"));
    let (u, a) = u.step(UpgradeEvent::AliasBound(true));
    assert!(matches!(a, UpgradeAction::ReadPowerLevels { .. }));
    let (u, a) = u.step(UpgradeEvent::PowerLevelsRead(Some(power_levels(10))));
    match a {
        UpgradeAction::Append(p) => {
            assert_eq!(p.room_id, "!old:example.com");
            match p.content {
                Content::PowerLevels(pl) => {
                    assert_eq!(pl.events_default, 50);
                    assert_eq!(pl.invite, 50);
                }
                other => panic!("unexpected content {:?}", other),
            }
        }
        other => panic!("unexpected action {:?}", other),
    }
    let (u, a) = u.step(UpgradeEvent::Appended("$lock".to_string()));
    assert!(matches!(&a, UpgradeAction::Finish(Ok(r)) if r == "!new:example.com"));
    assert!(matches!(u.phase, UpgradePhase::Finished));
}

#[test]
fn tombstone_refused_ends_upgrade() {
    let (u, _) = begin();
    let (u, a) = u.step(UpgradeEvent::AppendFailed(RoomError::Forbidden));
    assert!(matches!(a, UpgradeAction::Finish(Err(RoomError::Forbidden))));
    assert!(matches!(u.phase, UpgradePhase::Finished));
}

#[test]
fn missing_create_is_database_error() {
    let (u, _) = begin();
    let (u, _) = u.step(UpgradeEvent::Appended("$tomb".to_string()));
    let (_, a) = u.step(UpgradeEvent::CreateRead(None));
    assert!(matches!(a, UpgradeAction::Finish(Err(RoomError::BadDatabase))));
}

#[test]
fn lockdown_levels() {
    let pl = lock_down(&power_levels(10));
    assert_eq!((pl.events_default, pl.invite), (50, 50));
    let pl = lock_down(&power_levels(60));
    assert_eq!((pl.events_default, pl.invite), (61, 61));
    assert_eq!(pl.users, vec![(sender(), 100)]);
    assert_eq!(pl.events.len(), 1);
    assert_eq!(pl.users_default, 60);
    let pl = lock_down(&power_levels(49));
    assert_eq!(pl.invite, 50);
}

#[test]
fn failed_lockdown_still_succeeds() {
    let u = Upgrade {
        sender: sender(),
        sender_profile: profile("Alice"),
        old_room: "!old:example.com".to_string(),
        replacement_room: "!new:example.com".to_string(),
        new_version: "6".to_string(),
        phase: UpgradePhase::LockingDown,
    };
    let (_, a) = u.step(UpgradeEvent::AppendFailed(RoomError::Forbidden));
    assert!(matches!(&a, UpgradeAction::Finish(Ok(r)) if r == "!new:example.com"));
}

#[test]
fn event_visibility() {
    assert_eq!(visible_event(false, Some(1)), Err(RoomError::Forbidden));
    assert_eq!(visible_event::<i32>(true, None), Err(RoomError::NotFound));
    assert_eq!(visible_event(true, Some(7)), Ok(7));
}

#[test]
fn largest_default_level_skips_lockdown() {
    let u = Upgrade {
        sender: sender(),
        sender_profile: profile("Alice"),
        old_room: "!old:example.com".to_string(),
        replacement_room: "!new:example.com".to_string(),
        new_version: "6".to_string(),
        phase: UpgradePhase::ReadingPowerLevels,
    };
    let (u, a) = u.step(UpgradeEvent::PowerLevelsRead(Some(power_levels(MAX_LEVEL))));
    assert!(matches!(&a, UpgradeAction::Finish(Ok(r)) if r == "!new:example.com"));
    assert!(matches!(u.phase, UpgradePhase::Finished));
    let pl = lock_down(&power_levels(MAX_LEVEL - 1));
    assert_eq!(pl.invite, MAX_LEVEL);
}

#[test]
fn alias_text_is_built_from_parts() {
    assert_eq!(room_alias(&"lounge".to_string(), &"chat.example.org".to_string()).unwrap(), "#lounge:chat.example.org");
    assert_eq!(room_alias(&"".to_string(), &"example.com".to_string()).unwrap(), "#:example.com");
}
