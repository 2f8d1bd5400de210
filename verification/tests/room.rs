use meowify::model::{ConnectionState, JoinRequest, PartyClient, RoomState, RoomVisibility, TrackRef};
use meowify::protocol::{JoinError, PlaybackCommandKind};
use meowify::rbac::{PartyPermission, PartyRole, PermissionError};
use meowify::room::{RoomError, RoomServer, PROTOCOL_VERSION};

fn admin_client() -> PartyClient {
    PartyClient {
        client_id: "admin-1".to_string(),
        device_name: "laptop".to_string(),
        user_name: "Admin User".to_string(),
        role: PartyRole::Admin,
        permissions_override: Vec::new(),
        connected_at_ms: 1000,
        last_seen_ms: 1000,
        connection_state: ConnectionState::Connected,
    }
}

fn make_server() -> RoomServer {
    RoomServer::create(
        "room-1",
        "Test Room",
        RoomVisibility::LanVisible,
        admin_client(),
        "secret-code",
        1000,
    )
}

fn join_request(client_id: &str) -> JoinRequest {
    JoinRequest {
        request_id: format!("req-{client_id}"),
        room_id: "room-1".to_string(),
        client_id: client_id.to_string(),
        user_name: client_id.to_string(),
        device_name: "phone".to_string(),
        invite_code_attempt: None,
        requested_at_ms: 2000,
    }
}

fn add_client(server: &mut RoomServer, client_id: &str) {
    server.handle_join_request(join_request(client_id)).unwrap();
    server
        .approve_join(
            "admin-1",
            &format!("req-{client_id}"),
            PartyRole::Client,
            2000,
        )
        .unwrap();
}

fn youtube_track() -> TrackRef {
    TrackRef::YouTube {
        video_id: "dQw4w9WgXcQ".to_string(),
        title: Some("Never Gonna Give You Up".to_string()),
        channel_title: Some("Rick Astley".to_string()),
    }
}

#[test]
fn creates_room_with_admin() {
    let server = make_server();

    assert_eq!(server.room().admin_client_id, "admin-1");
    assert_eq!(server.room().state, RoomState::WaitingForClients);
    assert!(server.client("admin-1").is_some());
}

#[test]
fn join_request_approved_adds_client_and_activates_room() {
    let mut server = make_server();
    add_client(&mut server, "client-1");

    assert_eq!(server.client("client-1").unwrap().role, PartyRole::Client);
    assert_eq!(server.room().state, RoomState::Active);
}

#[test]
fn join_request_rejected_removes_pending_request() {
    let mut server = make_server();
    server.handle_join_request(join_request("client-1")).unwrap();
    server.reject_join("admin-1", "req-client-1").unwrap();

    assert!(server.client("client-1").is_none());
}

#[test]
fn non_admin_cannot_approve_join() {
    let mut server = make_server();
    add_client(&mut server, "client-1");
    server.handle_join_request(join_request("client-2")).unwrap();

    let result = server.approve_join("client-1", "req-client-2", PartyRole::Client, 3000);
    assert!(result.is_err());
}

#[test]
fn locked_room_rejects_new_join_requests() {
    let mut server = make_server();
    server.lock_room("admin-1").unwrap();

    let result = server.handle_join_request(join_request("client-1"));
    assert!(result.is_err());
}

#[test]
fn admin_can_kick_client() {
    let mut server = make_server();
    add_client(&mut server, "client-1");

    server.kick_client("admin-1", "client-1").unwrap();

    assert!(server.client("client-1").is_none());
}

#[test]
fn cannot_kick_self() {
    let mut server = make_server();

    assert_eq!(
        server.kick_client("admin-1", "admin-1"),
        Err(RoomError::CannotTargetSelf)
    );
}

#[test]
fn client_cannot_kick_others() {
    let mut server = make_server();
    add_client(&mut server, "client-1");
    add_client(&mut server, "client-2");

    assert!(server.kick_client("client-1", "client-2").is_err());
}

#[test]
fn admin_can_promote_client_to_moderator() {
    let mut server = make_server();
    add_client(&mut server, "client-1");

    server
        .set_role("admin-1", "client-1", PartyRole::Moderator)
        .unwrap();

    assert_eq!(
        server.client("client-1").unwrap().role,
        PartyRole::Moderator
    );
}

#[test]
fn transfer_admin_swaps_roles_and_updates_room_admin_id() {
    let mut server = make_server();
    add_client(&mut server, "client-1");

    server.transfer_admin("admin-1", "client-1").unwrap();

    assert_eq!(server.room().admin_client_id, "client-1");
    assert_eq!(server.client("client-1").unwrap().role, PartyRole::Admin);
    assert_eq!(server.client("admin-1").unwrap().role, PartyRole::Moderator);
}

#[test]
fn admin_can_lock_and_unlock_room() {
    let mut server = make_server();

    server.lock_room("admin-1").unwrap();
    assert_eq!(server.room().state, RoomState::Locked);

    server.unlock_room("admin-1").unwrap();
    assert_eq!(server.room().state, RoomState::Active);
}

#[test]
fn admin_can_end_room() {
    let mut server = make_server();

    server.end_room("admin-1").unwrap();
    assert_eq!(server.room().state, RoomState::Ended);
}

#[test]
fn admin_disconnect_pauses_active_room() {
    let mut server = make_server();
    add_client(&mut server, "client-1");

    assert_eq!(server.room().state, RoomState::Active);
    server.pause_by_admin_disconnect();
    assert_eq!(server.room().state, RoomState::PausedByAdminDisconnect);
}

#[test]
fn admin_reconnect_restores_active_state() {
    let mut server = make_server();
    add_client(&mut server, "client-1");
    server.pause_by_admin_disconnect();

    server.resume_after_admin_reconnect();
    assert_eq!(server.room().state, RoomState::Active);
}

#[test]
fn pause_is_no_op_when_room_already_ended() {
    let mut server = make_server();
    server.end_room("admin-1").unwrap();

    server.pause_by_admin_disconnect();

    assert_eq!(server.room().state, RoomState::Ended);
}

#[test]
fn resume_is_no_op_when_room_was_not_paused() {
    let mut server = make_server();
    add_client(&mut server, "client-1");

    server.resume_after_admin_reconnect();

    assert_eq!(server.room().state, RoomState::Active);
}

#[test]
fn locked_room_also_pauses_on_admin_disconnect() {
    let mut server = make_server();
    add_client(&mut server, "client-1");
    server.lock_room("admin-1").unwrap();

    server.pause_by_admin_disconnect();
    assert_eq!(server.room().state, RoomState::PausedByAdminDisconnect);
}

#[test]
fn admin_can_play_pause_seek() {
    let mut server = make_server();

    let state = server
        .apply_playback_command("admin-1", PlaybackCommandKind::Play, 5000)
        .unwrap();
    assert!(state.is_playing);

    let state = server
        .apply_playback_command(
            "admin-1",
            PlaybackCommandKind::Seek {
                position_ms: 30_000,
            },
            5001,
        )
        .unwrap();
    assert_eq!(state.position_ms, 30_000);

    let state = server
        .apply_playback_command("admin-1", PlaybackCommandKind::Pause, 5002)
        .unwrap();
    assert!(!state.is_playing);
}

#[test]
fn set_track_starts_playback_at_zero() {
    let mut server = make_server();

    let state = server
        .apply_playback_command(
            "admin-1",
            PlaybackCommandKind::SetTrack {
                track_ref: youtube_track(),
            },
            6000,
        )
        .unwrap();

    assert!(state.is_playing);
    assert_eq!(state.position_ms, 0);
    assert!(state.track_ref.is_some());
}

#[test]
fn client_cannot_control_playback() {
    let mut server = make_server();
    add_client(&mut server, "client-1");

    let result = server.apply_playback_command("client-1", PlaybackCommandKind::Play, 5000);
    assert!(result.is_err());
}

#[test]
fn sequence_number_increments_on_each_command() {
    let mut server = make_server();

    server
        .apply_playback_command("admin-1", PlaybackCommandKind::Play, 1000)
        .unwrap();
    assert_eq!(server.playback().sequence_number, 1);

    server
        .apply_playback_command("admin-1", PlaybackCommandKind::Pause, 2000)
        .unwrap();
    assert_eq!(server.playback().sequence_number, 2);
}

#[test]
fn client_can_suggest_and_remove_own_track() {
    let mut server = make_server();
    add_client(&mut server, "client-1");

    server
        .add_queue_item("client-1", "item-1", youtube_track())
        .unwrap();
    assert_eq!(server.queue().len(), 1);

    server.remove_queue_item("client-1", "item-1").unwrap();
    assert_eq!(server.queue().len(), 0);
}

#[test]
fn client_cannot_remove_others_suggestion() {
    let mut server = make_server();
    add_client(&mut server, "client-1");
    add_client(&mut server, "client-2");

    server
        .add_queue_item("client-1", "item-1", youtube_track())
        .unwrap();

    assert!(server.remove_queue_item("client-2", "item-1").is_err());
}

#[test]
fn admin_can_remove_any_track() {
    let mut server = make_server();
    add_client(&mut server, "client-1");

    server
        .add_queue_item("client-1", "item-1", youtube_track())
        .unwrap();
    server.remove_queue_item("admin-1", "item-1").unwrap();

    assert_eq!(server.queue().len(), 0);
}

#[test]
fn client_can_vote_on_queue_item() {
    let mut server = make_server();
    add_client(&mut server, "client-1");

    server
        .add_queue_item("admin-1", "item-1", youtube_track())
        .unwrap();

    assert_eq!(
        server.vote_queue_item("client-1", "item-1", true).unwrap(),
        1
    );
    assert_eq!(
        server.vote_queue_item("client-1", "item-1", false).unwrap(),
        0
    );
}

#[test]
fn snapshot_contains_all_room_state() {
    let mut server = make_server();
    add_client(&mut server, "client-1");
    server
        .add_queue_item("client-1", "item-1", youtube_track())
        .unwrap();

    let snapshot = server.snapshot();

    assert_eq!(snapshot.room.room_id, "room-1");
    assert_eq!(snapshot.members.len(), 2);
    assert_eq!(snapshot.queue.len(), 1);
    assert_eq!(snapshot.pending_requests.len(), 0);
    assert_eq!(snapshot.protocol_version, PROTOCOL_VERSION);
}

#[test]
fn snapshot_includes_pending_join_requests() {
    let mut server = make_server();
    server.handle_join_request(join_request("client-1")).unwrap();
    server.handle_join_request(join_request("client-2")).unwrap();

    let snap = server.snapshot();

    assert_eq!(snap.pending_requests.len(), 2);
    let client_ids: Vec<&str> = snap
        .pending_requests
        .iter()
        .map(|r| r.client_id.as_str())
        .collect();
    assert!(client_ids.contains(&"client-1"));
    assert!(client_ids.contains(&"client-2"));
}

#[test]
fn snapshot_members_are_sorted_by_client_id() {
    let mut server = make_server();
    add_client(&mut server, "zzz-client");
    add_client(&mut server, "aaa-client");

    let snap = server.snapshot();
    let ids: Vec<&str> = snap.members.iter().map(|m| m.client_id.as_str()).collect();

    assert_eq!(ids, vec!["aaa-client", "admin-1", "zzz-client"]);
}

#[test]
fn approved_request_is_removed_from_pending() {
    let mut server = make_server();
    server.handle_join_request(join_request("client-1")).unwrap();

    assert_eq!(server.snapshot().pending_requests.len(), 1);

    server
        .approve_join("admin-1", "req-client-1", PartyRole::Client, 2000)
        .unwrap();

    assert_eq!(server.snapshot().pending_requests.len(), 0);
    assert_eq!(server.snapshot().members.len(), 2);
}
