use meowify::demo::make_demo_room;
use meowify::gtk_shell::{
    offline_policy_text, party_end_event, party_lock_event, party_playback_text,
    party_unlock_event, shell_sections,
};
use meowify::model::{ConnectionState, PartyClient, RoomState, RoomVisibility, TrackRef};
use meowify::protocol::PlaybackCommandKind;
use meowify::rbac::{can, PartyPermission, PartyRole};
use meowify::room::RoomServer;
use meowify::tui::{
    detail_lines, end_room_event, key_action, lock_room_event, next_view_index, party_members_line,
    party_playback_line, party_queue_line, party_room_line, previous_view_index,
    unlock_room_event, TuiAction, TuiKey, TuiView, VIEW_COUNT,
};
use meowify::youtube::can_persist_youtube_audio;

fn test_room() -> RoomServer {
    let admin = PartyClient {
        client_id: "admin-1".to_string(),
        device_name: "laptop".to_string(),
        user_name: "Admin".to_string(),
        role: PartyRole::Admin,
        permissions_override: Vec::new(),
        connected_at_ms: 0,
        last_seen_ms: 0,
        connection_state: ConnectionState::Connected,
    };
    RoomServer::create("r1", "Test Room", RoomVisibility::LanVisible, admin, "invite", 0)
}

#[test]
fn navigation_wraps_in_both_directions() {
    let selected = 0;

    let selected = previous_view_index(selected);
    assert_eq!(TuiView::at(selected), TuiView::Offline);

    let selected = next_view_index(selected);
    assert_eq!(TuiView::at(selected), TuiView::Home);
}

#[test]
fn navigation_round_trips_from_every_view() {
    for i in 0..VIEW_COUNT {
        assert_eq!(previous_view_index(next_view_index(i)), i);
        assert_eq!(next_view_index(previous_view_index(i)), i);
    }
    assert_eq!(TuiView::at(3), TuiView::Party);
    assert_eq!(TuiView::Party.title(), "Party");
    assert_eq!(TuiView::Search.detail(), "YouTube Data API v3 search after OAuth setup");
}

#[test]
fn quit_keys_stop_event_loop() {
    assert_eq!(key_action(TuiKey::Char('q')), TuiAction::Quit);
    assert_eq!(key_action(TuiKey::Esc), TuiAction::Quit);
}

#[test]
fn keys_map_to_their_actions() {
    assert_eq!(key_action(TuiKey::Down), TuiAction::NextView);
    assert_eq!(key_action(TuiKey::Char('j')), TuiAction::NextView);
    assert_eq!(key_action(TuiKey::Char('k')), TuiAction::PreviousView);
    assert_eq!(key_action(TuiKey::Char(' ')), TuiAction::TogglePlayback);
    assert_eq!(key_action(TuiKey::Char('s')), TuiAction::StopPlayback);
    assert_eq!(key_action(TuiKey::Char('l')), TuiAction::LockRoom);
    assert_eq!(key_action(TuiKey::Char('u')), TuiAction::UnlockRoom);
    assert_eq!(key_action(TuiKey::Char('e')), TuiAction::EndRoom);
    assert_eq!(key_action(TuiKey::Char('x')), TuiAction::Ignore);
    assert_eq!(key_action(TuiKey::Other), TuiAction::Ignore);
}

#[test]
fn tui_guardrails_match_core_and_party_policy() {
    assert!(!can_persist_youtube_audio());
    assert!(!can(PartyRole::Client, PartyPermission::ControlPlayback));
}

#[test]
fn party_view_shows_demo_room_state() {
    let room = make_demo_room();
    let snap = room.snapshot();

    let room_line = party_room_line(&snap);
    assert!(room_line.contains("LAN Party Demo"));
    assert!(room_line.contains("Protocol v"));

    let members_line = party_members_line(&snap);
    assert!(members_line.contains('2'));

    let queue_line = party_queue_line(&snap);
    assert!(queue_line.contains('1'));
}

#[test]
fn demo_room_lines_are_exact() {
    let snap = make_demo_room().snapshot();
    assert_eq!(party_room_line(&snap), "Room: LAN Party Demo | State: Active | Protocol v1");
    assert_eq!(party_members_line(&snap), "Members: 2");
    assert_eq!(party_queue_line(&snap), "Queue: 1 item(s)");
    assert_eq!(
        party_playback_line(&snap),
        "Now playing: Never Gonna Give You Up (dQw4w9WgXcQ) at 0 ms"
    );
    assert_eq!(snap.members[0].user_name, "Alice (admin)");
}

#[test]
fn lock_key_updates_room_state_and_last_event() {
    let mut room = make_demo_room();
    assert_eq!(key_action(TuiKey::Char('l')), TuiAction::LockRoom);
    let event = lock_room_event(&mut room);

    assert_eq!(event, "room locked");
    assert_eq!(room.snapshot().room.state, RoomState::Locked);
    assert_eq!(unlock_room_event(&mut room), "room unlocked");
    assert_eq!(room.room().state, RoomState::Active);
}

#[test]
fn end_key_transitions_room_to_ended() {
    let mut room = make_demo_room();
    assert_eq!(key_action(TuiKey::Char('e')), TuiAction::EndRoom);
    let event = end_room_event(&mut room);

    assert_eq!(event, "room ended");
    assert_eq!(room.snapshot().room.state, RoomState::Ended);
}

#[test]
fn room_actions_of_a_non_admin_report_the_failure() {
    let host = PartyClient {
        client_id: "host-1".to_string(),
        device_name: "laptop".to_string(),
        user_name: "Host".to_string(),
        role: PartyRole::Admin,
        permissions_override: Vec::new(),
        connected_at_ms: 0,
        last_seen_ms: 0,
        connection_state: ConnectionState::Connected,
    };
    // The front ends act as "admin-1", who is no member of this room.
    let mut room = RoomServer::create("r2", "Other Room", RoomVisibility::Open, host, "code", 0);
    assert_eq!(lock_room_event(&mut room), "lock failed: client not found: admin-1");
    assert_eq!(party_lock_event(&mut room), "Lock failed: client not found: admin-1");
    assert_eq!(room.room().state, RoomState::WaitingForClients);
}

#[test]
fn shell_sections_include_party_and_offline_guardrails() {
    let sections = shell_sections();

    assert!(sections.iter().any(|section| section.title == "Party"));
    assert!(sections.iter().any(|section| section.title == "Offline"));
    assert_eq!(sections[1].detail, "YouTube Data API v3 search only");
}

#[test]
fn gtk_copy_reflects_core_offline_policy() {
    assert!(!can_persist_youtube_audio());
    assert!(offline_policy_text().contains("disabled"));
}

#[test]
fn gtk_copy_reflects_party_rbac_policy() {
    assert!(!can(PartyRole::Client, PartyPermission::ControlPlayback));
}

#[test]
fn party_state_text_includes_room_name_state_and_protocol() {
    let snap = test_room().snapshot();

    let text = party_room_line(&snap);
    assert!(text.contains("Test Room"));
    assert!(text.contains("WaitingForClients"));
    assert!(text.contains("Protocol v"));
}

#[test]
fn party_playback_text_reports_idle_without_track() {
    let snap = test_room().snapshot();

    assert_eq!(party_playback_text(&snap), "Playback: idle");
    assert_eq!(party_playback_line(&snap), "Playback: idle");
}

#[test]
fn card_playback_text_names_the_track() {
    let mut room = test_room();
    room.apply_playback_command(
        "admin-1",
        PlaybackCommandKind::SetTrack {
            track_ref: TrackRef::ImportedLocalFile {
                local_id: "local-7".to_string(),
                title: "Field Recording".to_string(),
            },
        },
        5,
    )
    .unwrap();
    room.apply_playback_command("admin-1", PlaybackCommandKind::Seek { position_ms: 1234 }, 6)
        .unwrap();
    let snap = room.snapshot();
    assert_eq!(party_playback_text(&snap), "Playing: [local] Field Recording — 1234 ms");
    assert_eq!(
        party_playback_line(&snap),
        "Now playing: [local] Field Recording at 1234 ms"
    );
}

#[test]
fn card_buttons_lock_unlock_and_end_the_demo_room() {
    let mut room = make_demo_room();
    assert_eq!(party_lock_event(&mut room), "Room locked.");
    assert_eq!(room.room().state, RoomState::Locked);
    assert_eq!(party_unlock_event(&mut room), "Room unlocked.");
    assert_eq!(room.room().state, RoomState::Active);
    assert_eq!(party_end_event(&mut room), "Room ended.");
    assert_eq!(room.room().state, RoomState::Ended);
}

#[test]
fn detail_panel_lists_view_keys_playback_and_policy() {
    let room = make_demo_room();
    let lines = detail_lines(
        TuiView::Home,
        "Playback: stopped at 0 ms",
        "Queue items: 0",
        "Current: none",
        "ready",
        &room,
    );
    assert_eq!(
        lines,
        vec![
            "Home",
            "",
            "Status and setup checklist",
            "",
            "Keys: j/down next view, k/up previous view, space play/pause, s stop, n/p skip, q/esc quit",
            "",
            "Playback: stopped at 0 ms",
            "Queue items: 0",
            "Current: none",
            "Last event: ready",
            "",
            "YouTube audio persistence: disabled; use local imports and metadata refs",
        ]
    );
}

#[test]
fn party_detail_panel_adds_the_room_lines() {
    let room = make_demo_room();
    let lines = detail_lines(TuiView::Party, "s", "q", "c", "room locked", &room);
    assert_eq!(lines.len(), 18);
    assert_eq!(lines[0], "Party");
    assert_eq!(
        &lines[12..],
        &[
            "".to_string(),
            "Room: LAN Party Demo | State: Active | Protocol v1".to_string(),
            "Members: 2".to_string(),
            "Queue: 1 item(s)".to_string(),
            "Now playing: Never Gonna Give You Up (dQw4w9WgXcQ) at 0 ms".to_string(),
            "Party keys: l lock room, u unlock room, e end room".to_string(),
        ]
    );
}
