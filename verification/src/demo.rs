//! The demonstration rooms that the front ends show before any network is up.

use vstd::prelude::*;

use crate::model::{
    ConnectionState, JoinRequest, PartyClient, PartyClientView, PartyQueueItemView, PartyRoomView,
    PlaybackSyncView, QueueItemStatus, RoomSettings, RoomState, RoomVisibility, TrackRef,
    TrackRefView,
};
use crate::protocol::{PlaybackCommandKind, invite_code_digest, invite_hashable, invite_preimage};
use crate::rbac::PartyRole;
use crate::room::{RoomModel, RoomServer};
use crate::text::lemma_encode_utf8_len;

verus! {

/// A demonstration admin named `user_name`.
fn demo_admin(user_name: &str) -> (r: PartyClient)
    ensures
        r@ == demo_admin_view(user_name@),
{
    PartyClient {
        client_id: "admin-1".to_owned(),
        device_name: "laptop".to_owned(),
        user_name: user_name.to_owned(),
        role: PartyRole::Admin,
        permissions_override: Vec::new(),
        connected_at_ms: 0,
        last_seen_ms: 0,
        connection_state: ConnectionState::Connected,
    }
}

/// The request of Bob, on his phone, to join `room_id`.
fn bob_request(room_id: &str) -> (r: JoinRequest)
    ensures
        r.request_id@ == "req-bob"@,
        r.client_id@ == "client-bob"@,
        r.user_name@ == "Bob"@,
        r.device_name@ == "phone"@,
        r.invite_code_attempt is None,
{
    JoinRequest {
        request_id: "req-bob".to_owned(),
        room_id: room_id.to_owned(),
        client_id: "client-bob".to_owned(),
        user_name: "Bob".to_owned(),
        device_name: "phone".to_owned(),
        invite_code_attempt: None,
        requested_at_ms: 500,
    }
}

pub open spec fn rick_astley_view() -> TrackRefView {
    TrackRefView::YouTube {
        video_id: "dQw4w9WgXcQ"@,
        title: Some("Never Gonna Give You Up"@),
        channel_title: Some("Rick Astley"@),
    }
}

pub open spec fn gangnam_style_view() -> TrackRefView {
    TrackRefView::YouTube {
        video_id: "9bZkp7q19f0"@,
        title: Some("GANGNAM STYLE"@),
        channel_title: Some("officialpsy"@),
    }
}

/// The demo admin's view.
pub open spec fn demo_admin_view(user_name: Seq<char>) -> PartyClientView {
    PartyClientView {
        client_id: "admin-1"@,
        device_name: "laptop"@,
        user_name,
        role: PartyRole::Admin,
        permissions_override: seq![],
        connected_at_ms: 0,
        last_seen_ms: 0,
        connection_state: ConnectionState::Connected,
    }
}

/// Bob once admitted as a client at time 1000.
pub open spec fn demo_bob_view() -> PartyClientView {
    PartyClientView {
        client_id: "client-bob"@,
        device_name: "phone"@,
        user_name: "Bob"@,
        role: PartyRole::Client,
        permissions_override: seq![],
        connected_at_ms: 1000,
        last_seen_ms: 1000,
        connection_state: ConnectionState::Connected,
    }
}

pub open spec fn demo_item(id: Seq<char>, track: TrackRefView, by: Seq<char>) -> PartyQueueItemView {
    PartyQueueItemView {
        queue_item_id: id,
        track_ref: track,
        suggested_by: by,
        votes: 0,
        status: QueueItemStatus::Pending,
    }
}

/// A demo room as the server holds it.
pub open spec fn demo_model(
    room_id: Seq<char>,
    room_name: Seq<char>,
    admin_name: Seq<char>,
    queue: Seq<PartyQueueItemView>,
) -> RoomModel {
    RoomModel {
        room: PartyRoomView {
            room_id,
            room_name,
            visibility: RoomVisibility::LanVisible,
            admin_client_id: "admin-1"@,
            created_at_ms: 0,
            invite_code_hash: invite_code_digest("demo-invite"@, room_id),
            settings: RoomSettings {
                lan_discovery: false,
                bluetooth_experimental: false,
                voting_enabled: true,
                default_role: PartyRole::Client,
            },
            state: RoomState::Active,
        },
        members: map!["admin-1"@ => demo_admin_view(admin_name), "client-bob"@ => demo_bob_view()],
        pending: map![],
        queue,
        playback: PlaybackSyncView {
            track_ref: Some(rick_astley_view()),
            position_ms: 0,
            is_playing: true,
            updated_at_admin_clock_ms: 2000,
            sequence_number: 1,
        },
    }
}

fn rick_astley() -> (r: TrackRef)
    ensures
        r@ == rick_astley_view(),
{
    TrackRef::YouTube {
        video_id: "dQw4w9WgXcQ".to_owned(),
        title: Some("Never Gonna Give You Up".to_owned()),
        channel_title: Some("Rick Astley".to_owned()),
    }
}

proof fn lemma_short_invite(code: Seq<char>, room_id: Seq<char>)
    requires
        code.len() < 1000,
        room_id.len() < 1000,
    ensures
        invite_hashable(code, room_id),
{
    lemma_encode_utf8_len(code);
    lemma_encode_utf8_len(room_id);
    assert(invite_preimage(code, room_id).len() < 10000);
}

/// The command-line demo: "Demo Room", with Bob admitted, two tracks
/// queued (one by each member) and the first one playing.
pub fn snapshot_demo_room() -> (r: RoomServer)
    ensures
        r@ == demo_model(
            "room-demo"@,
            "Demo Room"@,
            "Alice"@,
            seq![
                demo_item("item-1"@, rick_astley_view(), "admin-1"@),
                demo_item("item-2"@, gangnam_style_view(), "client-bob"@),
            ],
        ),
{
    proof {
        reveal_strlit("demo-invite");
        reveal_strlit("room-demo");
        reveal_strlit("admin-1");
        reveal_strlit("client-bob");
        lemma_short_invite("demo-invite"@, "room-demo"@);
        assert("admin-1"@.len() != "client-bob"@.len());
    }
    let mut server = RoomServer::create(
        "room-demo",
        "Demo Room",
        RoomVisibility::LanVisible,
        demo_admin("Alice"),
        "demo-invite",
        0,
    );
    let joined = server.handle_join_request(bob_request("room-demo"));
    assert(joined is Ok);
    let approved = server.approve_join("admin-1", "req-bob", PartyRole::Client, 1000);
    assert(approved is Ok);
    let first = server.add_queue_item("admin-1", "item-1", rick_astley());
    assert(first is Ok);
    let second = server.add_queue_item(
        "client-bob",
        "item-2",
        TrackRef::YouTube {
            video_id: "9bZkp7q19f0".to_owned(),
            title: Some("GANGNAM STYLE".to_owned()),
            channel_title: Some("officialpsy".to_owned()),
        },
    );
    assert(second is Ok);
    let played = server.apply_playback_command(
        "admin-1",
        PlaybackCommandKind::SetTrack { track_ref: rick_astley() },
        2000,
    );
    assert(played is Ok);
    proof {
        let want = demo_model(
            "room-demo"@,
            "Demo Room"@,
            "Alice"@,
            seq![
                demo_item("item-1"@, rick_astley_view(), "admin-1"@),
                demo_item("item-2"@, gangnam_style_view(), "client-bob"@),
            ],
        );
        assert(server@.members =~= want.members);
        assert(server@.pending =~= want.pending);
        assert(server@.queue =~= want.queue);
    }
    server
}

/// The front ends' demo: "LAN Party Demo", with Bob admitted, one track
/// queued by the admin and playing.
pub fn make_demo_room() -> (r: RoomServer)
    ensures
        r@ == demo_model(
            "demo-room"@,
            "LAN Party Demo"@,
            "Alice (admin)"@,
            seq![demo_item("item-1"@, rick_astley_view(), "admin-1"@)],
        ),
{
    proof {
        reveal_strlit("demo-invite");
        reveal_strlit("demo-room");
        reveal_strlit("admin-1");
        reveal_strlit("client-bob");
        lemma_short_invite("demo-invite"@, "demo-room"@);
        assert("admin-1"@.len() != "client-bob"@.len());
    }
    let mut server = RoomServer::create(
        "demo-room",
        "LAN Party Demo",
        RoomVisibility::LanVisible,
        demo_admin("Alice (admin)"),
        "demo-invite",
        0,
    );
    let joined = server.handle_join_request(bob_request("demo-room"));
    assert(joined is Ok);
    let approved = server.approve_join("admin-1", "req-bob", PartyRole::Client, 1000);
    assert(approved is Ok);
    let queued = server.add_queue_item("admin-1", "item-1", rick_astley());
    assert(queued is Ok);
    let played = server.apply_playback_command(
        "admin-1",
        PlaybackCommandKind::SetTrack { track_ref: rick_astley() },
        2000,
    );
    assert(played is Ok);
    proof {
        let want = demo_model(
            "demo-room"@,
            "LAN Party Demo"@,
            "Alice (admin)"@,
            seq![demo_item("item-1"@, rick_astley_view(), "admin-1"@)],
        );
        assert(server@.members =~= want.members);
        assert(server@.pending =~= want.pending);
        assert(server@.queue =~= want.queue);
    }
    server
}

} // verus!
