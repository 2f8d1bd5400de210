//! The party room's data: rooms, members, join requests, the shared queue
//! and the synchronised playback state, each with its mathematical view.

use vstd::prelude::*;

use crate::keyed::Keyed;
use crate::rbac::{PartyPermission, PartyRole};

verus! {

#[derive(Debug, Clone, Copy, PartialEq, Eq, Structural)]
pub enum RoomVisibility {
    Private,
    LanVisible,
    Open,
}

#[derive(Debug, Clone, Copy, PartialEq, Eq, Structural)]
pub enum RoomState {
    Creating,
    WaitingForClients,
    Active,
    Locked,
    PausedByAdminDisconnect,
    Ending,
    Ended,
}

#[derive(Debug, Clone, Copy, PartialEq, Eq, Structural)]
pub enum ConnectionState {
    Pending,
    Connected,
    Disconnected,
    Kicked,
}

#[derive(Debug, Clone, Copy, PartialEq, Eq, Structural)]
pub enum QueueItemStatus {
    Pending,
    Approved,
    Playing,
    Played,
    Removed,
}

/// The view of an optional string.
pub open spec fn opt_text(o: Option<String>) -> Option<Seq<char>> {
    match o {
        Some(s) => Some(s@),
        None => None,
    }
}

/// Copies an optional string.
pub fn clone_opt_text(o: &Option<String>) -> (r: Option<String>)
    ensures
        opt_text(r) == opt_text(*o),
{
    match o {
        Some(s) => Some(s.clone()),
        None => None,
    }
}

/// A reference to a track: rooms share references, never audio.
#[derive(Debug, PartialEq, Eq)]
pub enum TrackRef {
    YouTube { video_id: String, title: Option<String>, channel_title: Option<String> },
    ImportedLocalFile { local_id: String, title: String },
}

pub enum TrackRefView {
    YouTube {
        video_id: Seq<char>,
        title: Option<Seq<char>>,
        channel_title: Option<Seq<char>>,
    },
    ImportedLocalFile { local_id: Seq<char>, title: Seq<char> },
}

impl View for TrackRef {
    type V = TrackRefView;

    open spec fn view(&self) -> TrackRefView {
        match self {
            TrackRef::YouTube { video_id, title, channel_title } => TrackRefView::YouTube {
                video_id: video_id@,
                title: opt_text(*title),
                channel_title: opt_text(*channel_title),
            },
            TrackRef::ImportedLocalFile { local_id, title } => TrackRefView::ImportedLocalFile {
                local_id: local_id@,
                title: title@,
            },
        }
    }
}

impl Clone for TrackRef {
    fn clone(&self) -> (r: Self)
        ensures
            r@ == self@,
    {
        match self {
            TrackRef::YouTube { video_id, title, channel_title } => TrackRef::YouTube {
                video_id: video_id.clone(),
                title: clone_opt_text(title),
                channel_title: clone_opt_text(channel_title),
            },
            TrackRef::ImportedLocalFile { local_id, title } => TrackRef::ImportedLocalFile {
                local_id: local_id.clone(),
                title: title.clone(),
            },
        }
    }
}

/// The view of an optional track reference.
pub open spec fn opt_track(o: Option<TrackRef>) -> Option<TrackRefView> {
    match o {
        Some(t) => Some(t@),
        None => None,
    }
}

#[derive(Debug, Clone, Copy, PartialEq, Eq, Structural)]
pub struct RoomSettings {
    pub lan_discovery: bool,
    pub bluetooth_experimental: bool,
    pub voting_enabled: bool,
    pub default_role: PartyRole,
}

impl Default for RoomSettings {
    fn default() -> (r: Self)
        ensures
            r == (RoomSettings {
                lan_discovery: false,
                bluetooth_experimental: false,
                voting_enabled: true,
                default_role: PartyRole::Client,
            }),
    {
        RoomSettings {
            lan_discovery: false,
            bluetooth_experimental: false,
            voting_enabled: true,
            default_role: PartyRole::Client,
        }
    }
}

#[derive(Debug, PartialEq, Eq)]
pub struct PartyRoom {
    pub room_id: String,
    pub room_name: String,
    pub visibility: RoomVisibility,
    pub admin_client_id: String,
    pub created_at_ms: u64,
    pub invite_code_hash: String,
    pub settings: RoomSettings,
    pub state: RoomState,
}

pub struct PartyRoomView {
    pub room_id: Seq<char>,
    pub room_name: Seq<char>,
    pub visibility: RoomVisibility,
    pub admin_client_id: Seq<char>,
    pub created_at_ms: u64,
    pub invite_code_hash: Seq<char>,
    pub settings: RoomSettings,
    pub state: RoomState,
}

impl View for PartyRoom {
    type V = PartyRoomView;

    open spec fn view(&self) -> PartyRoomView {
        PartyRoomView {
            room_id: self.room_id@,
            room_name: self.room_name@,
            visibility: self.visibility,
            admin_client_id: self.admin_client_id@,
            created_at_ms: self.created_at_ms,
            invite_code_hash: self.invite_code_hash@,
            settings: self.settings,
            state: self.state,
        }
    }
}

impl Clone for PartyRoom {
    fn clone(&self) -> (r: Self)
        ensures
            r@ == self@,
    {
        PartyRoom {
            room_id: self.room_id.clone(),
            room_name: self.room_name.clone(),
            visibility: self.visibility,
            admin_client_id: self.admin_client_id.clone(),
            created_at_ms: self.created_at_ms,
            invite_code_hash: self.invite_code_hash.clone(),
            settings: self.settings,
            state: self.state,
        }
    }
}

/// A room accepts join requests while it waits for clients or is active.
pub open spec fn accepts_joins(state: RoomState) -> bool {
    state == RoomState::WaitingForClients || state == RoomState::Active
}

impl PartyRoom {
    pub fn accepts_join_requests(&self) -> (r: bool)
        ensures
            r == accepts_joins(self.state),
    {
        match self.state {
            RoomState::WaitingForClients | RoomState::Active => true,
            _ => false,
        }
    }
}

#[derive(Debug, PartialEq, Eq)]
pub struct PartyClient {
    pub client_id: String,
    pub device_name: String,
    pub user_name: String,
    pub role: PartyRole,
    pub permissions_override: Vec<PartyPermission>,
    pub connected_at_ms: u64,
    pub last_seen_ms: u64,
    pub connection_state: ConnectionState,
}

pub struct PartyClientView {
    pub client_id: Seq<char>,
    pub device_name: Seq<char>,
    pub user_name: Seq<char>,
    pub role: PartyRole,
    pub permissions_override: Seq<PartyPermission>,
    pub connected_at_ms: u64,
    pub last_seen_ms: u64,
    pub connection_state: ConnectionState,
}

impl View for PartyClient {
    type V = PartyClientView;

    open spec fn view(&self) -> PartyClientView {
        PartyClientView {
            client_id: self.client_id@,
            device_name: self.device_name@,
            user_name: self.user_name@,
            role: self.role,
            permissions_override: self.permissions_override@,
            connected_at_ms: self.connected_at_ms,
            last_seen_ms: self.last_seen_ms,
            connection_state: self.connection_state,
        }
    }
}

impl Clone for PartyClient {
    fn clone(&self) -> (r: Self)
        ensures
            r@ == self@,
    {
        PartyClient {
            client_id: self.client_id.clone(),
            device_name: self.device_name.clone(),
            user_name: self.user_name.clone(),
            role: self.role,
            permissions_override: self.permissions_override.clone(),
            connected_at_ms: self.connected_at_ms,
            last_seen_ms: self.last_seen_ms,
            connection_state: self.connection_state,
        }
    }
}

impl Keyed for PartyClient {
    open spec fn key_view(&self) -> Seq<char> {
        self.client_id@
    }

    fn key(&self) -> (k: &str) {
        self.client_id.as_str()
    }
}

#[derive(Debug, PartialEq, Eq)]
pub struct PartyQueueItem {
    pub queue_item_id: String,
    pub track_ref: TrackRef,
    pub suggested_by: String,
    pub votes: i32,
    pub status: QueueItemStatus,
}

pub struct PartyQueueItemView {
    pub queue_item_id: Seq<char>,
    pub track_ref: TrackRefView,
    pub suggested_by: Seq<char>,
    pub votes: i32,
    pub status: QueueItemStatus,
}

impl View for PartyQueueItem {
    type V = PartyQueueItemView;

    open spec fn view(&self) -> PartyQueueItemView {
        PartyQueueItemView {
            queue_item_id: self.queue_item_id@,
            track_ref: self.track_ref@,
            suggested_by: self.suggested_by@,
            votes: self.votes,
            status: self.status,
        }
    }
}

impl Clone for PartyQueueItem {
    fn clone(&self) -> (r: Self)
        ensures
            r@ == self@,
    {
        PartyQueueItem {
            queue_item_id: self.queue_item_id.clone(),
            track_ref: self.track_ref.clone(),
            suggested_by: self.suggested_by.clone(),
            votes: self.votes,
            status: self.status,
        }
    }
}

#[derive(Debug, PartialEq, Eq)]
pub struct PlaybackSyncState {
    pub track_ref: Option<TrackRef>,
    pub position_ms: u64,
    pub is_playing: bool,
    pub updated_at_admin_clock_ms: u64,
    pub sequence_number: u64,
}

pub struct PlaybackSyncView {
    pub track_ref: Option<TrackRefView>,
    pub position_ms: u64,
    pub is_playing: bool,
    pub updated_at_admin_clock_ms: u64,
    pub sequence_number: u64,
}

impl View for PlaybackSyncState {
    type V = PlaybackSyncView;

    open spec fn view(&self) -> PlaybackSyncView {
        PlaybackSyncView {
            track_ref: opt_track(self.track_ref),
            position_ms: self.position_ms,
            is_playing: self.is_playing,
            updated_at_admin_clock_ms: self.updated_at_admin_clock_ms,
            sequence_number: self.sequence_number,
        }
    }
}

impl Clone for PlaybackSyncState {
    fn clone(&self) -> (r: Self)
        ensures
            r@ == self@,
    {
        let track_ref = match &self.track_ref {
            Some(t) => Some(t.clone()),
            None => None,
        };
        PlaybackSyncState {
            track_ref,
            position_ms: self.position_ms,
            is_playing: self.is_playing,
            updated_at_admin_clock_ms: self.updated_at_admin_clock_ms,
            sequence_number: self.sequence_number,
        }
    }
}

#[derive(Debug, PartialEq, Eq)]
pub struct JoinRequest {
    pub request_id: String,
    pub room_id: String,
    pub client_id: String,
    pub user_name: String,
    pub device_name: String,
    pub invite_code_attempt: Option<String>,
    pub requested_at_ms: u64,
}

pub struct JoinRequestView {
    pub request_id: Seq<char>,
    pub room_id: Seq<char>,
    pub client_id: Seq<char>,
    pub user_name: Seq<char>,
    pub device_name: Seq<char>,
    pub invite_code_attempt: Option<Seq<char>>,
    pub requested_at_ms: u64,
}

impl View for JoinRequest {
    type V = JoinRequestView;

    open spec fn view(&self) -> JoinRequestView {
        JoinRequestView {
            request_id: self.request_id@,
            room_id: self.room_id@,
            client_id: self.client_id@,
            user_name: self.user_name@,
            device_name: self.device_name@,
            invite_code_attempt: opt_text(self.invite_code_attempt),
            requested_at_ms: self.requested_at_ms,
        }
    }
}

impl Clone for JoinRequest {
    fn clone(&self) -> (r: Self)
        ensures
            r@ == self@,
    {
        JoinRequest {
            request_id: self.request_id.clone(),
            room_id: self.room_id.clone(),
            client_id: self.client_id.clone(),
            user_name: self.user_name.clone(),
            device_name: self.device_name.clone(),
            invite_code_attempt: clone_opt_text(&self.invite_code_attempt),
            requested_at_ms: self.requested_at_ms,
        }
    }
}

impl Keyed for JoinRequest {
    open spec fn key_view(&self) -> Seq<char> {
        self.request_id@
    }

    fn key(&self) -> (k: &str) {
        self.request_id.as_str()
    }
}

#[derive(Debug, PartialEq, Eq)]
pub struct RoomSnapshot {
    pub room: PartyRoom,
    pub current_admin: String,
    pub members: Vec<PartyClient>,
    pub pending_requests: Vec<JoinRequest>,
    pub queue: Vec<PartyQueueItem>,
    pub playback_state: PlaybackSyncState,
    pub protocol_version: u32,
}

pub struct RoomSnapshotView {
    pub room: PartyRoomView,
    pub current_admin: Seq<char>,
    pub members: Seq<PartyClientView>,
    pub pending_requests: Seq<JoinRequestView>,
    pub queue: Seq<PartyQueueItemView>,
    pub playback_state: PlaybackSyncView,
    pub protocol_version: u32,
}

impl View for RoomSnapshot {
    type V = RoomSnapshotView;

    open spec fn view(&self) -> RoomSnapshotView {
        RoomSnapshotView {
            room: self.room@,
            current_admin: self.current_admin@,
            members: self.members@.map_values(|c: PartyClient| c@),
            pending_requests: self.pending_requests@.map_values(|r: JoinRequest| r@),
            queue: self.queue@.map_values(|q: PartyQueueItem| q@),
            playback_state: self.playback_state@,
            protocol_version: self.protocol_version,
        }
    }
}

impl Clone for RoomSnapshot {
    fn clone(&self) -> (r: Self)
        ensures
            r@ == self@,
    {
        let r = RoomSnapshot {
            room: self.room.clone(),
            current_admin: self.current_admin.clone(),
            members: self.members.clone(),
            pending_requests: self.pending_requests.clone(),
            queue: self.queue.clone(),
            playback_state: self.playback_state.clone(),
            protocol_version: self.protocol_version,
        };
        assert(r@.members =~= self@.members);
        assert(r@.pending_requests =~= self@.pending_requests);
        assert(r@.queue =~= self@.queue);
        r
    }
}

} // verus!
