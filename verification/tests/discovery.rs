use meowify::discovery::{
    apply_room_event, forget_discovered_room, record_discovered_room, RoomListEvent, AnnouncementOutcome, DiscoveryState,
    RoomAnnouncement,
};
use meowify::model::RoomVisibility;
use meowify::protocol::PROTOCOL_VERSION;

#[test]
fn room_announcement_carries_current_protocol_version() {
    let ann = RoomAnnouncement::new("room-1", "Test Room", RoomVisibility::LanVisible, "Alice");
    assert_eq!(ann.protocol_version, PROTOCOL_VERSION);
    assert_eq!(ann.room_id, "room-1");
    assert_eq!(ann.room_name, "Test Room");
    assert_eq!(ann.visibility, RoomVisibility::LanVisible);
    assert_eq!(ann.admin_name, "Alice");
}

#[test]
fn private_room_announcement_reflects_visibility() {
    let ann = RoomAnnouncement::new("room-2", "Secret Room", RoomVisibility::Private, "Bob");
    assert_eq!(ann.visibility, RoomVisibility::Private);
}

#[test]
fn announcement_with_mismatched_version_is_distinguishable() {
    let ann = RoomAnnouncement {
        room_id: "r1".to_string(),
        room_name: "Room".to_string(),
        visibility: RoomVisibility::LanVisible,
        admin_name: "Host".to_string(),
        protocol_version: PROTOCOL_VERSION + 1,
    };
    assert_ne!(ann.protocol_version, PROTOCOL_VERSION);
}

#[test]
fn lan_discovery_constructs_with_and_without_local_announcement() {
    let d1 = DiscoveryState::new(None);
    let d2 = DiscoveryState::new(Some(RoomAnnouncement::new(
        "room-x",
        "My Room",
        RoomVisibility::LanVisible,
        "Host",
    )));

    assert!(d1.local_announcement().is_none());
    assert_eq!(d2.local_announcement().unwrap().room_id, "room-x");
    assert!(d1.known_peers().is_empty());
    assert!(d1.known_rooms().is_empty());
    assert!(d2.known_rooms().is_empty());
}

fn ann(room_id: &str, version: u32) -> RoomAnnouncement {
    RoomAnnouncement {
        room_id: room_id.to_string(),
        room_name: format!("Room {room_id}"),
        visibility: RoomVisibility::LanVisible,
        admin_name: "Host".to_string(),
        protocol_version: version,
    }
}

#[test]
fn discovered_peers_accumulate_addresses_and_get_the_local_announcement() {
    let local = ann("mine", PROTOCOL_VERSION);
    let mut state = DiscoveryState::new(Some(local.clone()));

    let (addresses, to_send) = state.peer_discovered("peer-b", "/ip4/10.0.0.2/tcp/1".to_string());
    assert_eq!(addresses, vec!["/ip4/10.0.0.2/tcp/1".to_string()]);
    assert_eq!(to_send, Some(local.clone()));

    let (addresses, _) = state.peer_discovered("peer-b", "/ip4/10.0.0.3/tcp/2".to_string());
    assert_eq!(
        addresses,
        vec!["/ip4/10.0.0.2/tcp/1".to_string(), "/ip4/10.0.0.3/tcp/2".to_string()]
    );
    state.peer_discovered("peer-a", "/ip4/10.0.0.9/tcp/3".to_string());

    let ids: Vec<&str> = state.known_peers().iter().map(|p| p.peer_id.as_str()).collect();
    assert_eq!(ids, vec!["peer-a", "peer-b"]);
    assert_eq!(state.known_peers()[1].addresses.len(), 2);
}

#[test]
fn without_a_local_announcement_nothing_is_sent() {
    let mut state = DiscoveryState::new(None);
    let (_, to_send) = state.peer_discovered("peer-a", "addr".to_string());
    assert!(to_send.is_none());
}

#[test]
fn compatible_announcements_are_remembered() {
    let mut state = DiscoveryState::new(None);
    let outcome = state.announcement_received("peer-a", ann("r-1", PROTOCOL_VERSION));
    assert_eq!(outcome, AnnouncementOutcome::Accepted(ann("r-1", PROTOCOL_VERSION)));

    // A newer announcement from the same peer replaces the older one.
    state.announcement_received("peer-a", ann("r-2", PROTOCOL_VERSION));
    assert_eq!(state.known_rooms().len(), 1);
    assert_eq!(state.known_rooms()[0].announcement.room_id, "r-2");
}

#[test]
fn incompatible_announcements_are_reported_and_dropped() {
    let mut state = DiscoveryState::new(None);
    let outcome = state.announcement_received("peer-a", ann("r-9", PROTOCOL_VERSION + 1));
    assert_eq!(
        outcome,
        AnnouncementOutcome::VersionMismatch {
            their_version: PROTOCOL_VERSION + 1,
            our_version: PROTOCOL_VERSION,
        }
    );
    assert!(state.known_rooms().is_empty());
}

#[test]
fn known_rooms_all_speak_our_protocol_version() {
    let mut state = DiscoveryState::new(None);
    for (i, version) in [PROTOCOL_VERSION, 0, PROTOCOL_VERSION + 3, PROTOCOL_VERSION]
        .into_iter()
        .enumerate()
    {
        state.announcement_received(&format!("peer-{i}"), ann(&format!("r-{i}"), version));
    }
    assert_eq!(state.known_rooms().len(), 2);
    assert!(state
        .known_rooms()
        .iter()
        .all(|r| r.announcement.protocol_version == PROTOCOL_VERSION));
}

#[test]
fn expiry_forgets_the_peer_and_reports_its_room() {
    let mut state = DiscoveryState::new(None);
    state.peer_discovered("peer-a", "addr-a".to_string());
    state.peer_discovered("peer-b", "addr-b".to_string());
    state.announcement_received("peer-a", ann("r-a", PROTOCOL_VERSION));

    assert_eq!(state.peer_expired("peer-a"), Some("r-a".to_string()));
    assert_eq!(state.peer_expired("peer-b"), None);
    assert_eq!(state.peer_expired("peer-z"), None);
    assert!(state.known_peers().is_empty());
    assert!(state.known_rooms().is_empty());
}

#[test]
fn local_announcement_can_be_replaced() {
    let mut state = DiscoveryState::new(None);
    state.set_local_announcement(Some(ann("new", PROTOCOL_VERSION)));
    assert_eq!(state.local_announcement(), Some(ann("new", PROTOCOL_VERSION)));
    state.set_local_announcement(None);
    assert_eq!(state.local_announcement(), None);
}

#[test]
fn discovered_room_list_keeps_one_entry_per_room() {
    let mut rooms = Vec::new();
    record_discovered_room(&mut rooms, ann("r-1", PROTOCOL_VERSION));
    record_discovered_room(&mut rooms, ann("r-2", PROTOCOL_VERSION));
    let mut again = ann("r-1", PROTOCOL_VERSION);
    again.room_name = "Renamed".to_string();
    record_discovered_room(&mut rooms, again);

    assert_eq!(rooms, vec![ann("r-1", PROTOCOL_VERSION), ann("r-2", PROTOCOL_VERSION)]);
}

#[test]
fn expired_rooms_leave_the_discovered_list() {
    let mut rooms = vec![
        ann("r-1", PROTOCOL_VERSION),
        ann("r-2", PROTOCOL_VERSION),
        ann("r-3", PROTOCOL_VERSION),
    ];
    assert_eq!(forget_discovered_room(&mut rooms, "r-2"), Some(ann("r-2", PROTOCOL_VERSION)));
    assert_eq!(rooms, vec![ann("r-1", PROTOCOL_VERSION), ann("r-3", PROTOCOL_VERSION)]);
    assert_eq!(forget_discovered_room(&mut rooms, "r-9"), None);
    assert_eq!(rooms.len(), 2);
    record_discovered_room(&mut rooms, ann("r-2", PROTOCOL_VERSION));
    assert_eq!(rooms.last().unwrap().room_id, "r-2");
}

#[test]
fn discovered_list_follows_announcements_and_expiries() {
    let mut rooms = Vec::new();
    let mut renamed = ann("r-1", PROTOCOL_VERSION);
    renamed.room_name = "Renamed".to_string();
    for event in [
        RoomListEvent::Announced(ann("r-1", PROTOCOL_VERSION)),
        RoomListEvent::Announced(ann("r-2", PROTOCOL_VERSION)),
        RoomListEvent::Announced(renamed.clone()),
        RoomListEvent::Expired("r-1".to_string()),
        RoomListEvent::Expired("r-9".to_string()),
        RoomListEvent::Announced(renamed.clone()),
        RoomListEvent::Announced(ann("r-3", PROTOCOL_VERSION)),
    ] {
        apply_room_event(&mut rooms, event);
    }
    assert_eq!(rooms, vec![ann("r-2", PROTOCOL_VERSION), renamed, ann("r-3", PROTOCOL_VERSION)]);
}
