use meowify::cli::{
    all_permissions, permission_name, render_command, render_party_command, render_party_stub,
    render_permissions, render_room_snapshot, render_snapshot, render_status, CliOutput, Command,
    PartyCommand, RoleArg, RoomStateArg,
};
use meowify::model::RoomState;
use meowify::rbac::{PartyPermission, PartyRole};

fn text(output: CliOutput) -> String {
    match output {
        CliOutput::Text(s) => s,
        CliOutput::SnapshotJson(_) => panic!("expected text output"),
    }
}

#[test]
fn status_reports_youtube_and_protocol_version() {
    let output = text(render_command(Some(&Command::Status)));

    assert!(output.contains("platform: YouTube"));
    assert!(output.contains("party protocol: v1"));
}

#[test]
fn no_command_prints_the_status() {
    assert_eq!(text(render_command(None)), render_status());
    assert_eq!(
        render_status(),
        "Meowify CLI\nplatform: YouTube\nparty protocol: v1\nnetwork: not started by debug CLI\n"
    );
}

#[test]
fn client_permissions_exclude_playback_control() {
    let output = render_permissions(Some(RoleArg::Client));

    assert!(output.contains("client:"));
    assert!(output.contains("SuggestTrack"));
    assert!(!output.contains("ControlPlayback"));
}

#[test]
fn admin_permissions_include_admin_actions() {
    let output = render_permissions(Some(RoleArg::Admin));

    assert!(output.contains("CreateRoom"));
    assert!(output.contains("TransferAdmin"));
    assert!(output.contains("ControlPlayback"));
}

#[test]
fn guest_permissions_are_listed_exactly() {
    assert_eq!(
        render_permissions(Some(RoleArg::Guest)),
        "Party permissions\nguest: DiscoverRooms, JoinRoom, ViewMembers\n"
    );
}

#[test]
fn all_roles_are_listed_without_a_filter() {
    let output = render_permissions(None);
    let lines: Vec<&str> = output.lines().collect();
    assert_eq!(lines.len(), 5);
    assert_eq!(lines[0], "Party permissions");
    assert!(lines[1].starts_with("admin: CreateRoom, DiscoverRooms, JoinRoom"));
    assert!(lines[1].ends_with("ViewMembers, SendChatMessage"));
    assert!(lines[2].starts_with("moderator: "));
    assert!(lines[3].starts_with("client: "));
    assert_eq!(lines[4], "guest: DiscoverRooms, JoinRoom, ViewMembers");
    assert_eq!(
        text(render_party_command(&PartyCommand::Permissions { role: None })),
        output
    );
}

#[test]
fn permission_names_and_order() {
    let all = all_permissions();
    assert_eq!(all.len(), 22);
    assert_eq!(all[0], PartyPermission::CreateRoom);
    assert_eq!(all[21], PartyPermission::SendChatMessage);
    assert_eq!(permission_name(PartyPermission::KickClient), "KickClient");
    assert_eq!(permission_name(PartyPermission::VoteSkip), "VoteSkip");
}

#[test]
fn role_args_map_to_roles() {
    assert_eq!(RoleArg::Moderator.party_role(), PartyRole::Moderator);
    assert_eq!(RoleArg::Guest.name(), "guest");
    assert!(RoomStateArg::Paused.matches(RoomState::PausedByAdminDisconnect));
    assert!(RoomStateArg::Waiting.matches(RoomState::WaitingForClients));
    assert!(!RoomStateArg::Active.matches(RoomState::Locked));
    assert!(!RoomStateArg::Ended.matches(RoomState::Ending));
}

#[test]
fn party_stubs_report_required_permission() {
    let output = text(render_party_command(&PartyCommand::Kick {
        client_id: "client-1".to_string(),
    }));

    assert!(output.contains("kick client client-1"));
    assert!(output.contains("required permission: KickClient"));
    assert!(output.contains("network handler not implemented"));
}

#[test]
fn party_stub_layout() {
    assert_eq!(
        render_party_stub("leave room", None),
        "party action: leave room\nstatus: parsed; network handler not implemented yet\npolicy: enforce RBAC before state changes\n"
    );
    assert_eq!(
        text(render_party_command(&PartyCommand::Unlock)),
        "party action: unlock room\nstatus: parsed; network handler not implemented yet\nrequired permission: LockRoom\npolicy: enforce RBAC before state changes\n"
    );
    let suggest = text(render_party_command(&PartyCommand::Suggest {
        track_ref: "yt:abc".to_string(),
    }));
    assert!(suggest.starts_with("party action: suggest track ref yt:abc\n"));
    assert!(suggest.contains("required permission: SuggestTrack\n"));
}

#[test]
fn snapshot_renders_room_members_queue_and_playback() {
    let output = text(render_snapshot(false, None, None));

    assert!(output.contains("room-demo"));
    assert!(output.contains("Demo Room"));
    assert!(output.contains("admin-1"));
    assert!(output.contains("client-bob"));
    assert!(output.contains("Members (2)"));
    assert!(output.contains("Queue (2 items)"));
    assert!(output.contains("Never Gonna Give You Up"));
    assert!(output.contains("GANGNAM STYLE"));
    assert!(output.contains("playing:  true"));
    assert!(output.contains("dQw4w9WgXcQ"));
}

#[test]
fn snapshot_text_is_laid_out_line_by_line() {
    let output = text(render_snapshot(false, None, None));
    let expected = [
        "=== Room Snapshot (protocol v1) ===",
        "room_id:    room-demo",
        "name:       Demo Room",
        "state:      Active",
        "visibility: LanVisible",
        "admin:      admin-1",
        "",
        "--- Members (2) ---",
        "  admin-1 | Admin | Connected | Alice",
        "  client-bob | Client | Connected | Bob",
        "",
        "--- Queue (2 items) ---",
        "  item-1 | votes:+0 | by:admin-1 | Never Gonna Give You Up — Rick Astley",
        "  item-2 | votes:+0 | by:client-bob | GANGNAM STYLE — officialpsy",
        "",
        "--- Playback ---",
        "  playing:  true",
        "  position: 0 ms",
        "  seq:      1",
        "  track:    Never Gonna Give You Up (dQw4w9WgXcQ)",
        "",
    ]
    .join("\n");
    assert_eq!(output, expected);
}

#[test]
fn snapshot_json_output_is_valid_json_with_expected_fields() {
    match render_snapshot(true, None, None) {
        CliOutput::SnapshotJson(snap) => {
            assert_eq!(snap.room.room_id, "room-demo");
            assert_eq!(snap.room.room_name, "Demo Room");
            assert_eq!(snap.current_admin, "admin-1");
            assert_eq!(snap.protocol_version, 1);
            assert_eq!(snap.members.len(), 2);
            assert_eq!(snap.queue.len(), 2);
            assert!(snap.playback_state.is_playing);
            assert_eq!(render_room_snapshot(&snap), text(render_snapshot(false, None, None)));
        }
        CliOutput::Text(t) => panic!("expected a snapshot, got {t}"),
    }
}

#[test]
fn snapshot_filter_state_active_matches_demo_room() {
    let output = text(render_snapshot(false, Some(RoomStateArg::Active), None));
    assert!(output.contains("room-demo"));
    assert!(!output.contains("No rooms match"));
}

#[test]
fn snapshot_filter_state_locked_excludes_active_demo_room() {
    let output = text(render_snapshot(false, Some(RoomStateArg::Locked), None));
    assert_eq!(output, "No rooms match the filter.\n");
}

#[test]
fn snapshot_filter_min_members_two_passes() {
    let output = text(render_snapshot(false, None, Some(2)));
    assert!(output.contains("room-demo"));
}

#[test]
fn snapshot_filter_min_members_three_excludes() {
    let output = text(render_snapshot(false, None, Some(3)));
    assert_eq!(output, "No rooms match the filter.\n");
}

#[test]
fn snapshot_filter_paused_excludes_active_demo_room() {
    let output = text(render_snapshot(false, Some(RoomStateArg::Paused), None));
    assert_eq!(output, "No rooms match the filter.\n");
}

#[test]
fn snapshot_filter_active_and_json_combined() {
    match render_snapshot(true, Some(RoomStateArg::Active), Some(2)) {
        CliOutput::SnapshotJson(snap) => assert_eq!(snap.room.room_id, "room-demo"),
        CliOutput::Text(t) => panic!("expected a snapshot, got {t}"),
    }
}

#[test]
fn filters_apply_before_json() {
    assert_eq!(
        render_snapshot(true, Some(RoomStateArg::Ended), None),
        CliOutput::Text("No rooms match the filter.\n".to_string())
    );
    assert_eq!(
        render_snapshot(true, None, Some(3)),
        CliOutput::Text("No rooms match the filter.\n".to_string())
    );
}

#[test]
fn snapshot_command_goes_through_render_command() {
    let command = Command::Party {
        command: PartyCommand::Snapshot {
            json: false,
            filter_state: Some(RoomStateArg::Waiting),
            filter_min_members: None,
        },
    };
    assert_eq!(
        render_command(Some(&command)),
        CliOutput::Text("No rooms match the filter.\n".to_string())
    );
}
