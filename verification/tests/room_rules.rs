use meowify::model::{
    ConnectionState, JoinRequest, PartyClient, QueueItemStatus, RoomState, RoomVisibility,
    TrackRef,
};
use meowify::protocol::{hash_invite_code, JoinError, PlaybackCommandKind};
use meowify::rbac::{PartyPermission, PartyRole, PermissionError};
use meowify::room::{RoomError, RoomServer};

fn admin() -> PartyClient {
    PartyClient {
        client_id: "admin-1".to_string(),
        device_name: "laptop".to_string(),
        user_name: "Admin".to_string(),
        role: PartyRole::Admin,
        permissions_override: Vec::new(),
        connected_at_ms: 10,
        last_seen_ms: 10,
        connection_state: ConnectionState::Connected,
    }
}

fn server(visibility: RoomVisibility) -> RoomServer {
    RoomServer::create("room-1", "Rules Room", visibility, admin(), "4242", 10)
}

fn request(client_id: &str, code: Option<&str>) -> JoinRequest {
    JoinRequest {
        request_id: format!("req-{client_id}"),
        room_id: "room-1".to_string(),
        client_id: client_id.to_string(),
        user_name: format!("user {client_id}"),
        device_name: "tablet".to_string(),
        invite_code_attempt: code.map(str::to_string),
        requested_at_ms: 20,
    }
}

fn join_as(server: &mut RoomServer, client_id: &str, role: PartyRole) {
    server.handle_join_request(request(client_id, None)).unwrap();
    server
        .approve_join("admin-1", &format!("req-{client_id}"), role, 30)
        .unwrap();
}

fn track(id: &str) -> TrackRef {
    TrackRef::YouTube {
        video_id: id.to_string(),
        title: None,
        channel_title: None,
    }
}

#[test]
fn create_records_the_room_and_hashed_invite() {
    let server = server(RoomVisibility::Private);
    let snap = server.snapshot();

    assert_eq!(snap.room.room_id, "room-1");
    assert_eq!(snap.room.room_name, "Rules Room");
    assert_eq!(snap.room.created_at_ms, 10);
    assert_eq!(snap.room.invite_code_hash, hash_invite_code("4242", "room-1"));
    assert_ne!(snap.room.invite_code_hash, "4242");
    assert_eq!(snap.current_admin, "admin-1");
    assert_eq!(snap.members, vec![admin()]);
    assert!(snap.queue.is_empty());
    assert!(snap.playback_state.track_ref.is_none());
    assert!(!snap.playback_state.is_playing);
    assert_eq!(snap.playback_state.sequence_number, 0);
    assert_eq!(snap.playback_state.updated_at_admin_clock_ms, 10);
    assert!(snap.room.settings.voting_enabled);
    assert!(!snap.room.settings.lan_discovery);
    assert_eq!(snap.room.settings.default_role, PartyRole::Client);
}

#[test]
fn refused_requests_leave_the_room_unchanged() {
    let mut server = server(RoomVisibility::Private);
    join_private(&mut server, "client-1");
    server.add_queue_item("client-1", "item-1", track("a")).unwrap();
    let before = server.snapshot();

    assert!(server.kick_client("client-1", "admin-1").is_err());
    assert!(server.set_role("client-1", "admin-1", PartyRole::Guest).is_err());
    assert!(server.lock_room("client-1").is_err());
    assert!(server.end_room("nobody").is_err());
    assert!(server.transfer_admin("client-1", "admin-1").is_err());
    assert!(server.apply_playback_command("client-1", PlaybackCommandKind::Play, 99).is_err());
    assert!(server.remove_queue_item("client-1", "missing").is_err());
    assert!(server.vote_queue_item("nobody", "item-1", true).is_err());
    assert!(server.approve_join("admin-1", "req-missing", PartyRole::Client, 99).is_err());
    assert!(server.reject_join("client-1", "req-client-1").is_err());
    assert!(server.handle_join_request(request("client-2", Some("0000"))).is_err());
    assert!(server.remove_client("nobody").is_err());

    assert_eq!(server.snapshot(), before);
}

fn join_private(server: &mut RoomServer, client_id: &str) {
    server
        .handle_join_request(request(client_id, Some("4242")))
        .unwrap();
    server
        .approve_join("admin-1", &format!("req-{client_id}"), PartyRole::Client, 30)
        .unwrap();
}

#[test]
fn every_room_error_variant_is_reachable() {
    let mut server = server(RoomVisibility::Private);

    assert_eq!(
        server.handle_join_request(request("client-1", Some("nope"))),
        Err(RoomError::JoinRejected(JoinError::InvalidInviteCode))
    );
    join_private(&mut server, "client-1");
    assert_eq!(
        server.kick_client("ghost", "client-1"),
        Err(RoomError::ClientNotFound("ghost".to_string()))
    );
    assert_eq!(
        server.kick_client("client-1", "someone"),
        Err(RoomError::Permission(PermissionError::Denied {
            role: PartyRole::Client,
            permission: PartyPermission::KickClient,
        }))
    );
    assert_eq!(
        server.approve_join("admin-1", "req-none", PartyRole::Client, 40),
        Err(RoomError::JoinRequestNotFound("req-none".to_string()))
    );
    assert_eq!(
        server.remove_queue_item("admin-1", "item-9"),
        Err(RoomError::QueueItemNotFound("item-9".to_string()))
    );
    assert_eq!(
        server.set_role("admin-1", "admin-1", PartyRole::Guest),
        Err(RoomError::CannotTargetSelf)
    );
    assert_eq!(
        server.kick_client("client-1", "admin-1"),
        Err(RoomError::CannotTargetAdmin)
    );
    server.end_room("admin-1").unwrap();
    assert_eq!(
        server.handle_join_request(request("client-2", Some("4242"))),
        Err(RoomError::JoinRejected(JoinError::RoomClosed))
    );
}

#[test]
fn error_messages_match_the_documented_texts() {
    assert_eq!(
        RoomError::JoinRejected(JoinError::RoomClosed).message(),
        "join rejected: room is locked or not accepting joins"
    );
    assert_eq!(
        RoomError::ClientNotFound("c-9".to_string()).message(),
        "client not found: c-9"
    );
    assert_eq!(
        RoomError::Permission(PermissionError::Denied {
            role: PartyRole::Guest,
            permission: PartyPermission::VoteTrack,
        })
        .message(),
        "role Guest lacks permission VoteTrack"
    );
    assert_eq!(
        RoomError::JoinRequestNotFound("r-1".to_string()).message(),
        "join request not found: r-1"
    );
    assert_eq!(
        RoomError::QueueItemNotFound("q-1".to_string()).message(),
        "queue item not found: q-1"
    );
    assert_eq!(RoomError::CannotTargetSelf.message(), "cannot target self");
    assert_eq!(RoomError::CannotTargetAdmin.message(), "cannot target admin");
    assert_eq!(
        RoomError::AdminRoleNotAssignable.message(),
        "the admin role passes only by transfer"
    );
    assert_eq!(JoinError::InvalidInviteCode.message(), "invite code is invalid");
}

#[test]
fn only_approval_adds_members() {
    let mut server = server(RoomVisibility::LanVisible);
    server.handle_join_request(request("client-1", None)).unwrap();
    assert!(server.client("client-1").is_none());
    assert_eq!(server.join_requests().len(), 1);

    let approved = server
        .approve_join("admin-1", "req-client-1", PartyRole::Guest, 55)
        .unwrap();
    assert_eq!(approved.client_id, "client-1");
    assert_eq!(approved.user_name, "user client-1");
    assert_eq!(approved.device_name, "tablet");
    assert_eq!(approved.role, PartyRole::Guest);
    assert!(approved.permissions_override.is_empty());
    assert_eq!(approved.connected_at_ms, 55);
    assert_eq!(approved.connection_state, ConnectionState::Connected);
    assert_eq!(server.client("client-1"), Some(&approved));
    assert!(server.join_requests().is_empty());
}

#[test]
fn approval_in_a_locked_room_keeps_it_locked() {
    let mut server = server(RoomVisibility::LanVisible);
    server.handle_join_request(request("client-1", None)).unwrap();
    server.lock_room("admin-1").unwrap();
    server
        .approve_join("admin-1", "req-client-1", PartyRole::Client, 60)
        .unwrap();

    assert_eq!(server.room().state, RoomState::Locked);
    assert!(server.client("client-1").is_some());
}

#[test]
fn reject_undoes_a_join_request() {
    let mut server = server(RoomVisibility::LanVisible);
    let before = server.snapshot();
    server.handle_join_request(request("client-1", None)).unwrap();
    let rejected = server.reject_join("admin-1", "req-client-1").unwrap();

    assert_eq!(rejected.client_id, "client-1");
    assert_eq!(server.snapshot(), before);
}

#[test]
fn sequence_numbers_advance_by_one_per_accepted_command() {
    let mut server = server(RoomVisibility::LanVisible);
    join_as(&mut server, "client-1", PartyRole::Client);

    for (i, command) in [
        PlaybackCommandKind::Play,
        PlaybackCommandKind::Seek { position_ms: 7 },
        PlaybackCommandKind::Next,
        PlaybackCommandKind::Previous,
        PlaybackCommandKind::SetTrack { track_ref: track("x") },
        PlaybackCommandKind::Pause,
    ]
    .into_iter()
    .enumerate()
    {
        let state = server
            .apply_playback_command("admin-1", command, 100 + i as u64)
            .unwrap();
        assert_eq!(state.sequence_number, i as u64 + 1);
        assert_eq!(state.updated_at_admin_clock_ms, 100 + i as u64);
    }
    assert!(server
        .apply_playback_command("client-1", PlaybackCommandKind::Play, 200)
        .is_err());
    assert_eq!(server.playback().sequence_number, 6);
    assert_eq!(server.playback().updated_at_admin_clock_ms, 105);
}

#[test]
fn next_and_previous_rewind_to_the_start() {
    let mut server = server(RoomVisibility::LanVisible);
    server
        .apply_playback_command("admin-1", PlaybackCommandKind::Seek { position_ms: 9000 }, 1)
        .unwrap();
    let state = server
        .apply_playback_command("admin-1", PlaybackCommandKind::Next, 2)
        .unwrap();
    assert_eq!(state.position_ms, 0);
    assert!(!state.is_playing);
}

#[test]
fn moderator_may_seek_but_guest_may_not() {
    let mut server = server(RoomVisibility::LanVisible);
    join_as(&mut server, "mod-1", PartyRole::Moderator);
    join_as(&mut server, "guest-1", PartyRole::Guest);

    assert!(server
        .apply_playback_command("mod-1", PlaybackCommandKind::Seek { position_ms: 5 }, 3)
        .is_ok());
    assert_eq!(
        server.apply_playback_command("guest-1", PlaybackCommandKind::Seek { position_ms: 5 }, 4),
        Err(RoomError::Permission(PermissionError::Denied {
            role: PartyRole::Guest,
            permission: PartyPermission::SeekPlayback,
        }))
    );
}

#[test]
fn admin_is_protected_from_kick_and_role_change() {
    let mut server = server(RoomVisibility::LanVisible);
    join_as(&mut server, "mod-1", PartyRole::Moderator);

    assert_eq!(server.kick_client("mod-1", "admin-1"), Err(RoomError::CannotTargetAdmin));
    assert_eq!(
        server.set_role("mod-1", "admin-1", PartyRole::Guest),
        Err(RoomError::CannotTargetAdmin)
    );
    assert_eq!(server.client("admin-1").unwrap().role, PartyRole::Admin);
}

#[test]
fn demotion_needs_the_demote_permission() {
    let mut server = server(RoomVisibility::LanVisible);
    join_as(&mut server, "mod-1", PartyRole::Moderator);
    join_as(&mut server, "client-1", PartyRole::Client);

    assert_eq!(
        server.set_role("mod-1", "client-1", PartyRole::Guest),
        Err(RoomError::Permission(PermissionError::Denied {
            role: PartyRole::Moderator,
            permission: PartyPermission::DemoteClient,
        }))
    );
    assert_eq!(
        server.set_role("admin-1", "client-1", PartyRole::Guest),
        Ok(PartyRole::Guest)
    );
}

#[test]
fn transfer_admin_hands_over_to_a_member() {
    let mut server = server(RoomVisibility::LanVisible);
    join_as(&mut server, "client-1", PartyRole::Client);

    assert_eq!(
        server.transfer_admin("admin-1", "ghost"),
        Err(RoomError::ClientNotFound("ghost".to_string()))
    );
    server.transfer_admin("admin-1", "client-1").unwrap();
    assert_eq!(server.snapshot().current_admin, "client-1");
    // The new admin can now act; the old one cannot end the room.
    assert!(server.end_room("admin-1").is_err());
    server.end_room("client-1").unwrap();
    assert_eq!(server.room().state, RoomState::Ended);
}

#[test]
fn remove_undoes_add() {
    let mut server = server(RoomVisibility::LanVisible);
    join_as(&mut server, "client-1", PartyRole::Client);
    server.add_queue_item("admin-1", "item-0", track("first")).unwrap();
    let before = server.snapshot();

    let added = server.add_queue_item("client-1", "item-1", track("t")).unwrap().clone();
    assert_eq!(added.suggested_by, "client-1");
    assert_eq!(added.votes, 0);
    assert_eq!(added.status, QueueItemStatus::Pending);
    let removed = server.remove_queue_item("client-1", "item-1").unwrap();
    assert_eq!(removed, added);
    assert_eq!(server.snapshot(), before);
}

#[test]
fn down_vote_undoes_up_vote() {
    let mut server = server(RoomVisibility::LanVisible);
    join_as(&mut server, "client-1", PartyRole::Client);
    server.add_queue_item("admin-1", "item-1", track("t")).unwrap();
    let before = server.snapshot();

    assert_eq!(server.vote_queue_item("client-1", "item-1", true), Ok(1));
    assert_eq!(server.vote_queue_item("client-1", "item-1", false), Ok(0));
    assert_eq!(server.snapshot(), before);
    assert_eq!(server.vote_queue_item("client-1", "item-1", false), Ok(-1));
}

#[test]
fn guest_cannot_suggest_or_vote() {
    let mut server = server(RoomVisibility::LanVisible);
    join_as(&mut server, "guest-1", PartyRole::Guest);
    server.add_queue_item("admin-1", "item-1", track("t")).unwrap();

    assert!(server.add_queue_item("guest-1", "item-2", track("u")).is_err());
    assert!(server.vote_queue_item("guest-1", "item-1", true).is_err());
    assert_eq!(server.queue().len(), 1);
}

#[test]
fn remove_takes_the_first_item_with_the_id() {
    let mut server = server(RoomVisibility::LanVisible);
    server.add_queue_item("admin-1", "dup", track("one")).unwrap();
    server.add_queue_item("admin-1", "dup", track("two")).unwrap();

    let removed = server.remove_queue_item("admin-1", "dup").unwrap();
    assert_eq!(removed.track_ref, track("one"));
    assert_eq!(server.queue().len(), 1);
    assert_eq!(server.queue()[0].track_ref, track("two"));
}

#[test]
fn unlock_after_lock_makes_the_room_active() {
    let mut server = server(RoomVisibility::LanVisible);
    let before = server.snapshot();
    server.lock_room("admin-1").unwrap();
    server.unlock_room("admin-1").unwrap();

    let after = server.snapshot();
    assert_eq!(after.room.state, RoomState::Active);
    assert_eq!(after.members, before.members);
    assert_eq!(after.queue, before.queue);
    assert_eq!(after.playback_state, before.playback_state);
}

#[test]
fn resume_after_pause_of_a_locked_room_makes_it_active() {
    let mut server = server(RoomVisibility::LanVisible);
    join_as(&mut server, "client-1", PartyRole::Client);
    server.lock_room("admin-1").unwrap();
    server.pause_by_admin_disconnect();
    server.resume_after_admin_reconnect();

    assert_eq!(server.room().state, RoomState::Active);
}

#[test]
fn closed_rooms_refuse_joins() {
    for close in ["lock", "pause", "end"] {
        let mut server = server(RoomVisibility::Open);
        join_as(&mut server, "client-1", PartyRole::Client);
        match close {
            "lock" => server.lock_room("admin-1").unwrap(),
            "pause" => server.pause_by_admin_disconnect(),
            _ => server.end_room("admin-1").unwrap(),
        }
        assert_eq!(
            server.handle_join_request(request("client-2", None)),
            Err(RoomError::JoinRejected(JoinError::RoomClosed))
        );
    }
}

#[test]
fn remove_client_drops_a_member() {
    let mut server = server(RoomVisibility::LanVisible);
    join_as(&mut server, "client-1", PartyRole::Client);

    assert_eq!(server.remove_client("client-1"), Ok(()));
    assert!(server.client("client-1").is_none());
    assert_eq!(
        server.remove_client("client-1"),
        Err(RoomError::ClientNotFound("client-1".to_string()))
    );
}

#[test]
fn join_requests_are_listed_in_id_order() {
    let mut server = server(RoomVisibility::LanVisible);
    server.handle_join_request(request("zed", None)).unwrap();
    server.handle_join_request(request("amy", None)).unwrap();
    server.handle_join_request(request("kim", None)).unwrap();

    let ids: Vec<&str> = server
        .join_requests()
        .iter()
        .map(|r| r.request_id.as_str())
        .collect();
    assert_eq!(ids, vec!["req-amy", "req-kim", "req-zed"]);
}

#[test]
fn repeated_join_request_replaces_the_pending_one() {
    let mut server = server(RoomVisibility::LanVisible);
    server.handle_join_request(request("amy", None)).unwrap();
    let mut again = request("amy", None);
    again.device_name = "laptop".to_string();
    server.handle_join_request(again).unwrap();

    assert_eq!(server.join_requests().len(), 1);
    assert_eq!(server.join_requests()[0].device_name, "laptop");
}

#[test]
fn private_room_admits_its_creation_code_only() {
    let mut server = server(RoomVisibility::Private);
    assert_eq!(
        server.handle_join_request(request("client-1", None)),
        Err(RoomError::JoinRejected(JoinError::InvalidInviteCode))
    );
    assert_eq!(
        server.handle_join_request(request("client-1", Some("4243"))),
        Err(RoomError::JoinRejected(JoinError::InvalidInviteCode))
    );
    assert_eq!(server.handle_join_request(request("client-1", Some("4242"))), Ok(()));
    assert_eq!(server.join_requests().len(), 1);
    assert!(server.client("client-1").is_none());
}

fn admins(server: &RoomServer) -> Vec<String> {
    server
        .snapshot()
        .members
        .iter()
        .filter(|m| m.role == PartyRole::Admin)
        .map(|m| m.client_id.clone())
        .collect()
}

fn assert_single_admin(server: &RoomServer) {
    assert_eq!(admins(server), vec![server.room().admin_client_id.clone()]);
}

#[test]
fn set_role_cannot_make_a_second_admin() {
    let mut server = server(RoomVisibility::LanVisible);
    join_as(&mut server, "client-1", PartyRole::Client);

    assert_eq!(
        server.set_role("admin-1", "client-1", PartyRole::Admin),
        Err(RoomError::AdminRoleNotAssignable)
    );
    assert_eq!(server.client("client-1").unwrap().role, PartyRole::Client);
    assert_single_admin(&server);
}

#[test]
fn approval_cannot_make_a_second_admin() {
    let mut server = server(RoomVisibility::LanVisible);
    server.handle_join_request(request("client-1", None)).unwrap();

    assert_eq!(
        server.approve_join("admin-1", "req-client-1", PartyRole::Admin, 40),
        Err(RoomError::AdminRoleNotAssignable)
    );
    assert_eq!(server.join_requests().len(), 1);
    assert_single_admin(&server);
}

#[test]
fn a_request_in_the_admins_name_cannot_replace_the_admin() {
    let mut server = server(RoomVisibility::LanVisible);
    let mut impostor = request("admin-1", None);
    impostor.request_id = "req-impostor".to_string();
    server.handle_join_request(impostor).unwrap();

    assert_eq!(
        server.approve_join("admin-1", "req-impostor", PartyRole::Client, 40),
        Err(RoomError::CannotTargetAdmin)
    );
    assert_eq!(server.client("admin-1").unwrap().role, PartyRole::Admin);
}

#[test]
fn the_admin_cannot_be_removed() {
    let mut server = server(RoomVisibility::LanVisible);
    assert_eq!(server.remove_client("admin-1"), Err(RoomError::CannotTargetAdmin));
    assert!(server.client("admin-1").is_some());
}

#[test]
fn the_creator_is_made_the_admin() {
    let mut creator = admin();
    creator.role = PartyRole::Client;
    let server = RoomServer::create("room-1", "Rules Room", RoomVisibility::Open, creator, "4242", 10);
    assert_eq!(server.client("admin-1").unwrap().role, PartyRole::Admin);
    assert_single_admin(&server);
}

#[test]
fn one_admin_through_a_whole_session() {
    let mut server = server(RoomVisibility::LanVisible);
    assert_single_admin(&server);
    join_as(&mut server, "mod-1", PartyRole::Moderator);
    join_as(&mut server, "client-1", PartyRole::Client);
    assert_single_admin(&server);
    server.set_role("admin-1", "client-1", PartyRole::Moderator).unwrap();
    assert_single_admin(&server);
    server.transfer_admin("admin-1", "mod-1").unwrap();
    assert_single_admin(&server);
    assert_eq!(server.client("admin-1").unwrap().role, PartyRole::Moderator);
    server.kick_client("mod-1", "client-1").unwrap();
    server.transfer_admin("mod-1", "admin-1").unwrap();
    assert_single_admin(&server);
    assert_eq!(server.room().admin_client_id, "admin-1");
    assert_eq!(server.client("mod-1").unwrap().role, PartyRole::Moderator);
}

#[test]
fn a_handover_by_an_override_holder_demotes_the_admin() {
    let mut creator = admin();
    creator.client_id = "host".to_string();
    creator.permissions_override.push(PartyPermission::TransferAdmin);
    let mut server = RoomServer::create("room-1", "Rules Room", RoomVisibility::Open, creator, "4242", 10);
    join_as_by(&mut server, "host", "helper", PartyRole::Client);
    join_as_by(&mut server, "host", "next", PartyRole::Client);
    assert!(server.transfer_admin("helper", "next").is_err());

    server.transfer_admin("host", "next").unwrap();
    assert_eq!(server.client("host").unwrap().role, PartyRole::Moderator);
    // The former admin keeps its override and hands the room on again:
    // the current admin steps down, so one admin remains.
    server.transfer_admin("host", "helper").unwrap();
    assert_eq!(server.room().admin_client_id, "helper");
    assert_eq!(server.client("next").unwrap().role, PartyRole::Moderator);
    assert_eq!(server.client("host").unwrap().role, PartyRole::Moderator);
    assert_single_admin(&server);
}

fn join_as_by(server: &mut RoomServer, approver: &str, client_id: &str, role: PartyRole) {
    server.handle_join_request(request(client_id, None)).unwrap();
    server
        .approve_join(approver, &format!("req-{client_id}"), role, 30)
        .unwrap();
}

#[test]
fn the_stored_invite_hash_is_64_hex_digits() {
    let server = server(RoomVisibility::Private);
    let hash = &server.room().invite_code_hash;
    assert_eq!(hash.len(), 64);
    assert!(hash.chars().all(|c| c.is_ascii_hexdigit() && !c.is_ascii_uppercase()));
    assert!(!hash.contains("4242"));
}
