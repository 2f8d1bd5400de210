//! What each room operation does, stated field by field over the room
//! before and after: which part of the room it touches, how, and what it
//! hands back.

use vstd::prelude::*;

use crate::model::{
    JoinRequestView, PartyClientView, QueueItemStatus, RoomState, RoomVisibility, TrackRefView,
    accepts_joins,
};
use crate::protocol::{JoinError, PlaybackCommandKind};
use crate::rbac::{PartyPermission, PartyRole, holds_permission};
use crate::room::{
    RoomErrorView, RoomModel, add_queue_step, approve_join_step, created_room, join_request_step,
    remove_client_step, kick_client_step, pause_step, playback_step,
    reject_join_step, remove_queue_step, resume_step, room_state_step, set_role_step, vote_step,
};

verus! {

/// A playback command touches only the playback state. An accepted command
/// takes the next sequence number, is stamped with the admin's clock, and
/// does what its kind says:
/// - play and pause start and stop playback where it is;
/// - seek moves to the given position, playing or not as before;
/// - next and previous rewind to the start of the track, playing or not as
///   before;
/// - setting a track plays it from the start.
/// A command is accepted exactly when the issuer is a member holding the
/// seek permission for a seek and the playback-control permission otherwise.
pub proof fn lemma_playback_commands(
    m: RoomModel,
    issuer: Seq<char>,
    command: PlaybackCommandKind,
    now_ms: u64,
)
    requires
        m.playback.sequence_number < u64::MAX,
    ensures
        ({
            let (n, r) = playback_step(m, issuer, command, now_ms);
            let p = m.playback;
            let q = n.playback;
            let needed = match command {
                PlaybackCommandKind::Seek { .. } => PartyPermission::SeekPlayback,
                _ => PartyPermission::ControlPlayback,
            };
            &&& n.room == m.room
            &&& n.members == m.members
            &&& n.pending == m.pending
            &&& n.queue == m.queue
            &&& (r is Ok <==> m.members.contains_key(issuer) && holds_permission(
                m.members[issuer],
                needed,
            ))
            &&& r is Err ==> q == p
            &&& r is Ok ==> {
                &&& r == Ok::<_, crate::room::RoomErrorView>(q)
                &&& q.sequence_number == p.sequence_number + 1
                &&& q.updated_at_admin_clock_ms == now_ms
                &&& match command {
                    PlaybackCommandKind::Play => q.is_playing && q.position_ms == p.position_ms
                        && q.track_ref == p.track_ref,
                    PlaybackCommandKind::Pause => !q.is_playing && q.position_ms == p.position_ms
                        && q.track_ref == p.track_ref,
                    PlaybackCommandKind::Seek { position_ms } => q.position_ms == position_ms
                        && q.is_playing == p.is_playing && q.track_ref == p.track_ref,
                    PlaybackCommandKind::Next => q.position_ms == 0 && q.is_playing == p.is_playing
                        && q.track_ref == p.track_ref,
                    PlaybackCommandKind::Previous => q.position_ms == 0 && q.is_playing
                        == p.is_playing && q.track_ref == p.track_ref,
                    PlaybackCommandKind::SetTrack { track_ref } => q.track_ref == Some(track_ref@)
                        && q.position_ms == 0 && q.is_playing,
                }
            }
        }),
{
}

/// A successful kick hands back the member that was removed, as it was; the
/// target is then no member, and no other member and nothing else changes.
/// A kick never removes the issuer or the room's admin.
pub proof fn lemma_kick_removes_target(m: RoomModel, issuer: Seq<char>, target: Seq<char>)
    ensures
        ({
            let (n, r) = kick_client_step(m, issuer, target);
            &&& (r is Ok <==> target != issuer && target != m.room.admin_client_id
                && m.members.contains_key(issuer) && holds_permission(
                m.members[issuer],
                PartyPermission::KickClient,
            ) && m.members.contains_key(target))
            &&& r is Ok ==> {
                &&& r == Ok::<_, crate::room::RoomErrorView>(m.members[target])
                &&& m.members.contains_key(target)
                &&& !n.members.contains_key(target)
                &&& target != issuer
                &&& target != m.room.admin_client_id
                &&& forall|k: Seq<char>|
                    k != target ==> (#[trigger] n.members.contains_key(k)
                        == m.members.contains_key(k) && n.members[k] == m.members[k])
            }
            &&& n.room == m.room
            &&& n.pending == m.pending
            &&& n.queue == m.queue
            &&& n.playback == m.playback
            &&& r is Err ==> n == m
        }),
{
}

/// Losing the admin's connection pauses an active or locked room and
/// nothing else; a room in any other state (waiting for clients, ending,
/// ended, already paused) is left exactly as it is.
pub proof fn lemma_pause_only_active_or_locked(m: RoomModel)
    ensures
        m.room.state != RoomState::Active && m.room.state != RoomState::Locked ==> pause_step(m)
            == m,
        m.room.state == RoomState::Active || m.room.state == RoomState::Locked ==> {
            let n = pause_step(m);
            &&& n.room.state == RoomState::PausedByAdminDisconnect
            &&& n.room.room_id == m.room.room_id
            &&& n.room.admin_client_id == m.room.admin_client_id
            &&& n.room.invite_code_hash == m.room.invite_code_hash
            &&& n.members == m.members
            &&& n.pending == m.pending
            &&& n.queue == m.queue
            &&& n.playback == m.playback
        },
{
}

/// The admin's reconnection reactivates a paused room and leaves a room in
/// any other state as it is.
pub proof fn lemma_resume_only_paused(m: RoomModel)
    ensures
        m.room.state != RoomState::PausedByAdminDisconnect ==> resume_step(m) == m,
        m.room.state == RoomState::PausedByAdminDisconnect ==> resume_step(m).room.state
            == RoomState::Active && resume_step(m).members == m.members && resume_step(m).queue
            == m.queue && resume_step(m).playback == m.playback,
{
}

/// Locking, unlocking and ending set the room's state and nothing else, and
/// need a member that holds the permission.
pub proof fn lemma_room_state_changes(
    m: RoomModel,
    issuer: Seq<char>,
    permission: PartyPermission,
    state: RoomState,
)
    ensures
        ({
            let (n, r) = room_state_step(m, issuer, permission, state);
            &&& (r is Ok <==> m.members.contains_key(issuer) && holds_permission(
                m.members[issuer],
                permission,
            ))
            &&& r is Ok ==> n.room.state == state && n.room.admin_client_id
                == m.room.admin_client_id && n.room.room_name == m.room.room_name && n.members
                == m.members && n.pending == m.pending && n.queue == m.queue && n.playback
                == m.playback
            &&& r is Err ==> n == m
        }),
{
}

/// A role change gives the target exactly the new role, keeps everything
/// else about it and about every other member, and hands the new role back.
pub proof fn lemma_set_role_changes_one_role(
    m: RoomModel,
    issuer: Seq<char>,
    target: Seq<char>,
    new_role: PartyRole,
)
    ensures
        ({
            let (n, r) = set_role_step(m, issuer, target, new_role);
            &&& r is Ok ==> {
                &&& r == Ok::<_, crate::room::RoomErrorView>(new_role)
                &&& new_role != PartyRole::Admin
                &&& target != issuer && target != m.room.admin_client_id
                &&& m.members.contains_key(target) && n.members.contains_key(target)
                &&& n.members[target].role == new_role
                &&& n.members[target].client_id == m.members[target].client_id
                &&& n.members[target].user_name == m.members[target].user_name
                &&& n.members[target].permissions_override == m.members[target].permissions_override
                &&& forall|k: Seq<char>|
                    k != target ==> (#[trigger] n.members.contains_key(k)
                        == m.members.contains_key(k) && n.members[k] == m.members[k])
            }
            &&& n.room == m.room
            &&& n.queue == m.queue
            &&& n.playback == m.playback
            &&& r is Err ==> n == m
        }),
{
}

/// Approving a pending request admits its client with the given role,
/// connected now and with no overrides, consumes the request, and makes a
/// room that was waiting for clients active.
pub proof fn lemma_approval_admits_the_requester(
    m: RoomModel,
    approver: Seq<char>,
    request_id: Seq<char>,
    role: PartyRole,
    now_ms: u64,
)
    ensures
        ({
            let (n, r) = approve_join_step(m, approver, request_id, role, now_ms);
            &&& r is Ok ==> {
                let q = m.pending[request_id];
                let c = n.members[q.client_id];
                &&& m.pending.contains_key(request_id)
                &&& !n.pending.contains_key(request_id)
                &&& n.members.contains_key(q.client_id)
                &&& r == Ok::<_, crate::room::RoomErrorView>(c)
                &&& c.client_id == q.client_id && c.user_name == q.user_name && c.device_name
                    == q.device_name
                &&& c.role == role && c.permissions_override.len() == 0
                &&& c.connected_at_ms == now_ms && c.last_seen_ms == now_ms
                &&& n.room.state == (if m.room.state == RoomState::WaitingForClients {
                    RoomState::Active
                } else {
                    m.room.state
                })
                &&& forall|k: Seq<char>|
                    k != q.client_id ==> (#[trigger] n.members.contains_key(k)
                        == m.members.contains_key(k) && n.members[k] == m.members[k])
                &&& forall|k: Seq<char>|
                    k != request_id ==> (#[trigger] n.pending.contains_key(k)
                        == m.pending.contains_key(k) && n.pending[k] == m.pending[k])
            }
            &&& n.queue == m.queue
            &&& n.playback == m.playback
            &&& r is Err ==> n == m
        }),
{
}

/// Rejecting a pending request removes it, hands it back, and admits no one.
pub proof fn lemma_reject_consumes_the_request(
    m: RoomModel,
    rejecter: Seq<char>,
    request_id: Seq<char>,
)
    ensures
        ({
            let (n, r) = reject_join_step(m, rejecter, request_id);
            &&& r is Ok ==> r == Ok::<_, crate::room::RoomErrorView>(m.pending[request_id])
                && m.pending.contains_key(request_id) && !n.pending.contains_key(request_id)
            &&& forall|k: Seq<char>|
                k != request_id ==> (#[trigger] n.pending.contains_key(k)
                    == m.pending.contains_key(k) && n.pending[k] == m.pending[k])
            &&& n.members == m.members
            &&& n.room == m.room
            &&& n.queue == m.queue
        }),
{
}

/// A suggestion is appended to the end of the queue as a pending item with
/// no votes, credited to its issuer, and handed back.
pub proof fn lemma_suggestion_appends(
    m: RoomModel,
    issuer: Seq<char>,
    item_id: Seq<char>,
    track: TrackRefView,
)
    ensures
        ({
            let (n, r) = add_queue_step(m, issuer, item_id, track);
            &&& r is Ok ==> {
                &&& n.queue.len() == m.queue.len() + 1
                &&& n.queue.take(m.queue.len() as int) == m.queue
                &&& r == Ok::<_, crate::room::RoomErrorView>(n.queue.last())
                &&& n.queue.last().queue_item_id == item_id
                &&& n.queue.last().track_ref == track
                &&& n.queue.last().suggested_by == issuer
                &&& n.queue.last().votes == 0
                &&& n.queue.last().status == QueueItemStatus::Pending
            }
            &&& r is Err ==> n == m
            &&& n.members == m.members
            &&& n.playback == m.playback
        }),
{
    let (n, r) = add_queue_step(m, issuer, item_id, track);
    if r is Ok {
        assert(n.queue.take(m.queue.len() as int) =~= m.queue);
    }
}

/// Removing an item takes out the first item with that id, hands it back,
/// and keeps the order of the rest.
pub proof fn lemma_removal_takes_first_match(m: RoomModel, issuer: Seq<char>, item_id: Seq<char>)
    ensures
        ({
            let (n, r) = remove_queue_step(m, issuer, item_id);
            &&& r is Ok ==> exists|i: int|
                0 <= i < m.queue.len() && #[trigger] m.queue[i].queue_item_id == item_id && (forall|
                    j: int,
                | 0 <= j < i ==> #[trigger] m.queue[j].queue_item_id != item_id) && r == Ok::<
                    _,
                    crate::room::RoomErrorView,
                >(m.queue[i]) && n.queue == m.queue.remove(i)
            &&& r is Err ==> n == m
            &&& n.members == m.members
            &&& n.playback == m.playback
        }),
{
    let (n, r) = remove_queue_step(m, issuer, item_id);
    if r is Ok {
        let i = crate::room::first_item_index(m.queue, item_id);
        assert(crate::room::is_first_item(m.queue, item_id, i));
    }
}

/// A vote moves the first item with that id by one, up or down, hands back
/// its new count, and changes nothing else in the queue.
pub proof fn lemma_vote_moves_by_one(m: RoomModel, issuer: Seq<char>, item_id: Seq<char>, up: bool)
    requires
        crate::room::vote_fits(m, item_id, up),
    ensures
        ({
            let (n, r) = vote_step(m, issuer, item_id, up);
            &&& r is Ok ==> exists|i: int|
                0 <= i < m.queue.len() && #[trigger] m.queue[i].queue_item_id == item_id && (forall|
                    j: int,
                | 0 <= j < i ==> #[trigger] m.queue[j].queue_item_id != item_id) && {
                    let v = if up {
                        m.queue[i].votes + 1
                    } else {
                        m.queue[i].votes - 1
                    };
                    &&& r == Ok::<i32, crate::room::RoomErrorView>(v as i32)
                    &&& n.queue.len() == m.queue.len()
                    &&& n.queue[i].votes == v
                    &&& n.queue[i].queue_item_id == m.queue[i].queue_item_id
                    &&& n.queue[i].track_ref == m.queue[i].track_ref
                    &&& n.queue[i].suggested_by == m.queue[i].suggested_by
                    &&& forall|j: int| 0 <= j < m.queue.len() && j != i ==> #[trigger] n.queue[j] == m.queue[j]
                }
            &&& r is Err ==> n == m
            &&& n.members == m.members
            &&& n.playback == m.playback
        }),
{
    let (n, r) = vote_step(m, issuer, item_id, up);
    if r is Ok {
        let i = crate::room::first_item_index(m.queue, item_id);
        assert(crate::room::is_first_item(m.queue, item_id, i));
    }
}

/// A new room holds its creator as its only member, as its admin and with
/// the Admin role; it waits for clients with nothing pending, nothing queued
/// and playback stopped at the start, sequence number zero.
pub proof fn lemma_new_room(
    room_id: Seq<char>,
    room_name: Seq<char>,
    visibility: RoomVisibility,
    admin: PartyClientView,
    invite_code_hash: Seq<char>,
    now_ms: u64,
)
    ensures
        ({
            let m = created_room(room_id, room_name, visibility, admin, invite_code_hash, now_ms);
            &&& m.room.room_id == room_id && m.room.room_name == room_name
            &&& m.room.visibility == visibility
            &&& m.room.admin_client_id == admin.client_id
            &&& m.room.invite_code_hash == invite_code_hash
            &&& m.room.created_at_ms == now_ms
            &&& m.room.state == RoomState::WaitingForClients
            &&& m.members.dom() == set![admin.client_id]
            &&& m.members[admin.client_id].role == PartyRole::Admin
            &&& m.members[admin.client_id].user_name == admin.user_name
            &&& m.pending.dom().len() == 0
            &&& m.queue.len() == 0
            &&& m.playback.track_ref is None && !m.playback.is_playing
            &&& m.playback.position_ms == 0 && m.playback.sequence_number == 0
            &&& m.playback.updated_at_admin_clock_ms == now_ms
        }),
{
    let m = created_room(room_id, room_name, visibility, admin, invite_code_hash, now_ms);
    assert(m.members.dom() =~= set![admin.client_id]);
    assert(m.pending.dom() =~= Set::<Seq<char>>::empty());
}

/// A join request that is admitted waits, under its request id, for a
/// decision, replacing an earlier request with that id; nothing else
/// changes. A room that accepts joins admits every request when it is not
/// private; a room that does not accept joins refuses every request as closed.
pub proof fn lemma_join_request_waits(m: RoomModel, request: JoinRequestView)
    ensures
        ({
            let (n, r) = join_request_step(m, request);
            &&& r is Ok ==> n.pending.contains_key(request.request_id) && n.pending[request.request_id]
                == request
            &&& forall|k: Seq<char>|
                k != request.request_id ==> (#[trigger] n.pending.contains_key(k)
                    == m.pending.contains_key(k) && n.pending[k] == m.pending[k])
            &&& n.room == m.room && n.members == m.members && n.queue == m.queue && n.playback
                == m.playback
            &&& r is Err ==> n == m
            &&& accepts_joins(m.room.state) && m.room.visibility != RoomVisibility::Private ==> r is Ok
            &&& !accepts_joins(m.room.state) ==> r == Err::<(), RoomErrorView>(
                RoomErrorView::JoinRejected(JoinError::RoomClosed),
            )
        }),
{
}

/// Removing a client drops exactly that member; the admin is never removed.
pub proof fn lemma_remove_client_drops_one(m: RoomModel, client_id: Seq<char>)
    ensures
        ({
            let (n, r) = remove_client_step(m, client_id);
            &&& r is Ok <==> m.members.contains_key(client_id) && client_id != m.room.admin_client_id
            &&& r is Ok ==> !n.members.contains_key(client_id)
            &&& forall|k: Seq<char>|
                k != client_id ==> (#[trigger] n.members.contains_key(k) == m.members.contains_key(k)
                    && n.members[k] == m.members[k])
            &&& n.room == m.room && n.pending == m.pending && n.queue == m.queue
            &&& r is Err ==> n == m
        }),
{
}

} // verus!
