//! The room protocol: message shapes, invite codes (stored only as hashes)
//! and the admission rule for join requests.

use vstd::prelude::*;
use vstd::string::*;
use vstd::utf8::*;

use crate::digest::{digestible_len, sha256, sha256_of};
use crate::model::{
    JoinRequest, JoinRequestView, PartyClient, PartyQueueItem, PartyRoom, PartyRoomView,
    PlaybackSyncState, RoomSnapshot, RoomVisibility, TrackRef, accepts_joins,
};
use crate::rbac::{PartyPermission, PartyRole};
use crate::text::{hex_encode, hex_lower};

verus! {

pub const PROTOCOL_VERSION: u32 = 1;

/// Every state-changing message carries the room, the client, its session
/// token, a sequence number and a timestamp.
#[derive(Debug, Clone, PartialEq, Eq)]
pub struct StateEnvelope<T> {
    pub room_id: String,
    pub client_id: String,
    pub session_token: String,
    pub sequence_number: u64,
    pub timestamp_ms: u64,
    pub payload: T,
}

#[derive(Debug, Clone, Copy, PartialEq, Eq, Structural)]
pub enum Vote {
    Up,
    Down,
}

#[derive(Debug, Clone, PartialEq, Eq)]
pub enum PlaybackCommandKind {
    Play,
    Pause,
    Seek { position_ms: u64 },
    Next,
    Previous,
    SetTrack { track_ref: TrackRef },
}

#[derive(Debug, Clone, PartialEq, Eq)]
pub enum PartyMessage {
    RoomAnnounce {
        room_id: String,
        room_name: String,
        visibility: RoomVisibility,
        admin_name: String,
        protocol_version: u32,
    },
    RoomCreate { room_name: String, visibility: RoomVisibility },
    RoomCreated { room_id: String, invite_code: String, admin_client_id: String },
    RoomJoinRequest {
        room_id: String,
        invite_code: Option<String>,
        user_name: String,
        device_name: String,
        client_public_key: String,
    },
    RoomJoinApproved {
        room_id: String,
        client_id: String,
        assigned_role: PartyRole,
        session_token: String,
        server_time_ms: u64,
    },
    RoomJoinRejected { room_id: String, reason: String },
    RoomLeave { room_id: String, client_id: String },
    RoomEnded { room_id: String, reason: String },
    RoomLocked { room_id: String, locked: bool },
    RoomMemberSnapshot { room_id: String, members: Vec<PartyClient> },
    RoomRoleChanged { room_id: String, client_id: String, new_role: PartyRole },
    RoomPermissionChanged { room_id: String, role: PartyRole, permissions: Vec<PartyPermission> },
    AdminTransferRequest { room_id: String, target_client_id: String },
    AdminTransferAccepted { room_id: String, old_admin_id: String, new_admin_id: String },
    PlaybackCommand {
        room_id: String,
        command: PlaybackCommandKind,
        issued_by: String,
        sequence_number: u64,
    },
    PlaybackState(PlaybackSyncState),
    QueueSnapshot { room_id: String, queue: Vec<PartyQueueItem> },
    QueueAddRequest { room_id: String, track_ref: TrackRef, issued_by: String },
    QueueAddApproved { room_id: String, queue_item: PartyQueueItem },
    QueueRemoveRequest { room_id: String, queue_item_id: String, issued_by: String },
    QueueVote { room_id: String, queue_item_id: String, vote: Vote, issued_by: String },
    SkipVote { room_id: String, issued_by: String },
    KickClient { room_id: String, target_client_id: String, reason: Option<String> },
    RoomSnapshot(RoomSnapshot),
    Error { room_id: Option<String>, code: String, message: String },
}

#[derive(Debug, Clone, Copy, PartialEq, Eq, Structural)]
pub enum JoinError {
    RoomClosed,
    InvalidInviteCode,
}

/// The bytes that are hashed for an invite code: the room id, a colon, the code.
pub open spec fn invite_preimage(code: Seq<char>, room_id: Seq<char>) -> Seq<u8> {
    encode_utf8(room_id) + seq![58u8] + encode_utf8(code)
}

/// The stored form of an invite code: lowercase hex of the SHA-256 digest of
/// the room id, a colon and the code.
pub open spec fn invite_code_digest(code: Seq<char>, room_id: Seq<char>) -> Seq<char> {
    hex_lower(sha256_of(invite_preimage(code, room_id)))
}

/// The code and room id are short enough to be hashed.
pub open spec fn invite_hashable(code: Seq<char>, room_id: Seq<char>) -> bool {
    digestible_len(invite_preimage(code, room_id).len() as int)
}

/// Appends the bytes of `s` to `out`.
fn push_bytes(out: &mut Vec<u8>, s: &str)
    ensures
        final(out)@ == old(out)@ + s.spec_bytes(),
{
    let b = s.as_bytes();
    let mut i: usize = 0;
    while i < b.len()
        invariant
            i <= b@.len(),
            b@ == s.spec_bytes(),
            out@ == old(out)@ + b@.take(i as int),
        decreases b@.len() - i,
    {
        out.push(b[i]);
        proof {
            assert(b@.take(i + 1) =~= b@.take(i as int).push(b@[i as int]));
            assert(out@ =~= old(out)@ + b@.take(i + 1));
        }
        i = i + 1;
    }
    assert(b@.take(i as int) =~= b@);
}

/// Hashes an invite code for storage.
pub fn hash_invite_code(code: &str, room_id: &str) -> (r: String)
    requires
        invite_hashable(code@, room_id@),
    ensures
        r@ == invite_code_digest(code@, room_id@),
        r@.len() == 64,
{
    let mut bytes: Vec<u8> = Vec::new();
    push_bytes(&mut bytes, room_id);
    bytes.push(58u8);
    push_bytes(&mut bytes, code);
    assert(bytes@ =~= invite_preimage(code@, room_id@));
    let digest = sha256(bytes.as_slice());
    hex_encode(digest.as_slice())
}

/// Whether `code` is the room's invite code.
pub fn verify_invite_code(room: &PartyRoom, code: &str) -> (r: bool)
    requires
        invite_hashable(code@, room.room_id@),
    ensures
        r == (invite_code_digest(code@, room.room_id@) == room.invite_code_hash@),
{
    let h = hash_invite_code(code, room.room_id.as_str());
    h == room.invite_code_hash
}

/// The admission rule: the room must accept joins, and a private room asks
/// for its invite code.
pub open spec fn join_verdict(room: PartyRoomView, request: JoinRequestView) -> Result<
    (),
    JoinError,
> {
    if !accepts_joins(room.state) {
        Err(JoinError::RoomClosed)
    } else if room.visibility == RoomVisibility::Private {
        match request.invite_code_attempt {
            None => Err(JoinError::InvalidInviteCode),
            Some(code) => if invite_code_digest(code, room.room_id) == room.invite_code_hash {
                Ok(())
            } else {
                Err(JoinError::InvalidInviteCode)
            },
        }
    } else {
        Ok(())
    }
}

/// The invite code that a request offers to a private room can be hashed.
pub open spec fn join_checkable(room: PartyRoomView, request: JoinRequestView) -> bool {
    room.visibility == RoomVisibility::Private ==> match request.invite_code_attempt {
        Some(code) => invite_hashable(code, room.room_id),
        None => true,
    }
}

pub fn validate_join_request(room: &PartyRoom, request: &JoinRequest) -> (r: Result<(), JoinError>)
    requires
        join_checkable(room@, request@),
    ensures
        r == join_verdict(room@, request@),
{
    if !room.accepts_join_requests() {
        return Err(JoinError::RoomClosed);
    }
    if room.visibility == RoomVisibility::Private {
        let code = match &request.invite_code_attempt {
            Some(c) => c,
            None => {
                return Err(JoinError::InvalidInviteCode);
            },
        };
        if !verify_invite_code(room, code.as_str()) {
            return Err(JoinError::InvalidInviteCode);
        }
    }
    Ok(())
}

} // verus!
