//! Properties of the room server that span its operations.

use vstd::prelude::*;

use crate::model::{
    JoinRequestView, PartyClientView, PlaybackSyncView, RoomState, RoomVisibility, TrackRefView,
    accepts_joins,
};
use crate::protocol::{JoinError, PlaybackCommandKind, invite_code_digest, join_verdict};
use crate::rbac::{PartyPermission, PartyRole, PermissionError, holds_permission, role_grants};
use crate::room::{
    RoomErrorView, RoomModel, add_queue_step, approve_join_step, authorization,
    command_permission, created_room, first_item_index, stepped_down, join_request_step, kick_client_step,
    lemma_first_item_index, playback_step, pause_step, reject_join_step, remove_client_step,
    remove_queue_step, resume_step, role_change_permission, room_state_step, set_role_step,
    transfer_admin_step, vote_step, with_state,
};

verus! {

/// A refused request changes nothing: whenever an operation fails, the room
/// is left exactly as it was.
pub proof fn lemma_refusals_change_nothing(
    m: RoomModel,
    issuer: Seq<char>,
    target: Seq<char>,
    request: JoinRequestView,
    request_id: Seq<char>,
    role: PartyRole,
    now_ms: u64,
    permission: PartyPermission,
    state: RoomState,
    command: PlaybackCommandKind,
    item_id: Seq<char>,
    track: TrackRefView,
    up: bool,
)
    ensures
        join_request_step(m, request).1 is Err ==> join_request_step(m, request).0 == m,
        approve_join_step(m, issuer, request_id, role, now_ms).1 is Err ==> approve_join_step(
            m,
            issuer,
            request_id,
            role,
            now_ms,
        ).0 == m,
        reject_join_step(m, issuer, request_id).1 is Err ==> reject_join_step(
            m,
            issuer,
            request_id,
        ).0 == m,
        remove_client_step(m, target).1 is Err ==> remove_client_step(m, target).0 == m,
        kick_client_step(m, issuer, target).1 is Err ==> kick_client_step(m, issuer, target).0
            == m,
        set_role_step(m, issuer, target, role).1 is Err ==> set_role_step(
            m,
            issuer,
            target,
            role,
        ).0 == m,
        transfer_admin_step(m, issuer, target).1 is Err ==> transfer_admin_step(
            m,
            issuer,
            target,
        ).0 == m,
        room_state_step(m, issuer, permission, state).1 is Err ==> room_state_step(
            m,
            issuer,
            permission,
            state,
        ).0 == m,
        playback_step(m, issuer, command, now_ms).1 is Err ==> playback_step(
            m,
            issuer,
            command,
            now_ms,
        ).0 == m,
        add_queue_step(m, issuer, item_id, track).1 is Err ==> add_queue_step(
            m,
            issuer,
            item_id,
            track,
        ).0 == m,
        remove_queue_step(m, issuer, item_id).1 is Err ==> remove_queue_step(
            m,
            issuer,
            item_id,
        ).0 == m,
        vote_step(m, issuer, item_id, up).1 is Err ==> vote_step(m, issuer, item_id, up).0 == m,
{
}

/// Every state-changing request that succeeds came from a member who holds
/// the permission the action needs.
pub proof fn lemma_changes_need_permission(
    m: RoomModel,
    issuer: Seq<char>,
    target: Seq<char>,
    request_id: Seq<char>,
    role: PartyRole,
    now_ms: u64,
    command: PlaybackCommandKind,
    item_id: Seq<char>,
    track: TrackRefView,
    up: bool,
)
    ensures
        approve_join_step(m, issuer, request_id, role, now_ms).1 is Ok ==> m.members.contains_key(
            issuer,
        ) && holds_permission(m.members[issuer], PartyPermission::ApproveJoin),
        reject_join_step(m, issuer, request_id).1 is Ok ==> m.members.contains_key(issuer)
            && holds_permission(m.members[issuer], PartyPermission::RejectJoin),
        kick_client_step(m, issuer, target).1 is Ok ==> m.members.contains_key(issuer)
            && holds_permission(m.members[issuer], PartyPermission::KickClient),
        set_role_step(m, issuer, target, role).1 is Ok ==> m.members.contains_key(issuer)
            && m.members.contains_key(target) && holds_permission(
            m.members[issuer],
            role_change_permission(m.members[target].role, role),
        ),
        transfer_admin_step(m, issuer, target).1 is Ok ==> m.members.contains_key(issuer)
            && holds_permission(m.members[issuer], PartyPermission::TransferAdmin),
        room_state_step(m, issuer, PartyPermission::LockRoom, RoomState::Locked).1 is Ok
            ==> m.members.contains_key(issuer) && holds_permission(
            m.members[issuer],
            PartyPermission::LockRoom,
        ),
        room_state_step(m, issuer, PartyPermission::EndRoom, RoomState::Ended).1 is Ok
            ==> m.members.contains_key(issuer) && holds_permission(
            m.members[issuer],
            PartyPermission::EndRoom,
        ),
        playback_step(m, issuer, command, now_ms).1 is Ok ==> m.members.contains_key(issuer)
            && holds_permission(m.members[issuer], command_permission(command)),
        add_queue_step(m, issuer, item_id, track).1 is Ok ==> m.members.contains_key(issuer)
            && holds_permission(m.members[issuer], PartyPermission::SuggestTrack),
        remove_queue_step(m, issuer, item_id).1 is Ok ==> m.members.contains_key(issuer) && (
        holds_permission(m.members[issuer], PartyPermission::RemoveOwnSuggestion) || holds_permission(
            m.members[issuer],
            PartyPermission::RemoveAnyTrack,
        )),
        vote_step(m, issuer, item_id, up).1 is Ok ==> m.members.contains_key(issuer)
            && holds_permission(m.members[issuer], PartyPermission::VoteTrack),
{
}

/// Only approving a join request makes someone a member: no other
/// operation adds to the members.
pub proof fn lemma_only_approval_adds_members(
    m: RoomModel,
    issuer: Seq<char>,
    target: Seq<char>,
    request: JoinRequestView,
    request_id: Seq<char>,
    role: PartyRole,
    now_ms: u64,
    permission: PartyPermission,
    state: RoomState,
    command: PlaybackCommandKind,
    item_id: Seq<char>,
    track: TrackRefView,
    up: bool,
    k: Seq<char>,
)
    requires
        !m.members.contains_key(k),
    ensures
        !join_request_step(m, request).0.members.contains_key(k),
        !reject_join_step(m, issuer, request_id).0.members.contains_key(k),
        !remove_client_step(m, target).0.members.contains_key(k),
        !kick_client_step(m, issuer, target).0.members.contains_key(k),
        !set_role_step(m, issuer, target, role).0.members.contains_key(k),
        !transfer_admin_step(m, issuer, target).0.members.contains_key(k),
        !room_state_step(m, issuer, permission, state).0.members.contains_key(k),
        !pause_step(m).members.contains_key(k),
        !resume_step(m).members.contains_key(k),
        !playback_step(m, issuer, command, now_ms).0.members.contains_key(k),
        !add_queue_step(m, issuer, item_id, track).0.members.contains_key(k),
        !remove_queue_step(m, issuer, item_id).0.members.contains_key(k),
        !vote_step(m, issuer, item_id, up).0.members.contains_key(k),
        approve_join_step(m, issuer, request_id, role, now_ms).0.members.contains_key(k) ==> (
        approve_join_step(m, issuer, request_id, role, now_ms).1 is Ok && m.pending.contains_key(
            request_id,
        ) && m.pending[request_id].client_id == k),
{
}

/// The admin's playback sequence number never decreases, and each accepted
/// playback command advances it by exactly one.
pub proof fn lemma_sequence_numbers_advance(
    m: RoomModel,
    issuer: Seq<char>,
    target: Seq<char>,
    request: JoinRequestView,
    request_id: Seq<char>,
    role: PartyRole,
    now_ms: u64,
    permission: PartyPermission,
    state: RoomState,
    command: PlaybackCommandKind,
    item_id: Seq<char>,
    track: TrackRefView,
    up: bool,
)
    requires
        m.playback.sequence_number < u64::MAX,
    ensures
        playback_step(m, issuer, command, now_ms).1 is Ok ==> playback_step(
            m,
            issuer,
            command,
            now_ms,
        ).0.playback.sequence_number == m.playback.sequence_number + 1,
        playback_step(m, issuer, command, now_ms).1 is Err ==> playback_step(
            m,
            issuer,
            command,
            now_ms,
        ).0.playback == m.playback,
        !m.members.contains_key(issuer) ==> playback_step(m, issuer, command, now_ms).1 == Err::<
            PlaybackSyncView,
            RoomErrorView,
        >(RoomErrorView::ClientNotFound(issuer)),
        m.members.contains_key(issuer) && !holds_permission(
            m.members[issuer],
            command_permission(command),
        ) ==> playback_step(m, issuer, command, now_ms).1 == Err::<PlaybackSyncView, RoomErrorView>(
            RoomErrorView::Permission(
                PermissionError::Denied {
                    role: m.members[issuer].role,
                    permission: command_permission(command),
                },
            ),
        ),
        join_request_step(m, request).0.playback == m.playback,
        approve_join_step(m, issuer, request_id, role, now_ms).0.playback == m.playback,
        reject_join_step(m, issuer, request_id).0.playback == m.playback,
        remove_client_step(m, target).0.playback == m.playback,
        kick_client_step(m, issuer, target).0.playback == m.playback,
        set_role_step(m, issuer, target, role).0.playback == m.playback,
        transfer_admin_step(m, issuer, target).0.playback == m.playback,
        room_state_step(m, issuer, permission, state).0.playback == m.playback,
        pause_step(m).playback == m.playback,
        resume_step(m).playback == m.playback,
        add_queue_step(m, issuer, item_id, track).0.playback == m.playback,
        remove_queue_step(m, issuer, item_id).0.playback == m.playback,
        vote_step(m, issuer, item_id, up).0.playback == m.playback,
{
}

/// The room's admin can be neither kicked nor given another role by anyone.
pub proof fn lemma_admin_is_protected(m: RoomModel, issuer: Seq<char>, role: PartyRole)
    ensures
        kick_client_step(m, issuer, m.room.admin_client_id).1 is Err,
        kick_client_step(m, issuer, m.room.admin_client_id).0 == m,
        set_role_step(m, issuer, m.room.admin_client_id, role).1 is Err,
        set_role_step(m, issuer, m.room.admin_client_id, role).0 == m,
{
}

/// A room that is neither waiting for clients nor active (locked, paused,
/// ending or ended) turns every join request away as closed.
pub proof fn lemma_closed_room_refuses_joins(m: RoomModel, request: JoinRequestView)
    requires
        m.room.state != RoomState::WaitingForClients,
        m.room.state != RoomState::Active,
    ensures
        join_request_step(m, request) == (m, Err::<(), RoomErrorView>(
            RoomErrorView::JoinRejected(JoinError::RoomClosed),
        )),
{
}

/// Handing over the admin role makes the target the room's admin with the
/// Admin role, leaves the former admin a moderator, and keeps the members.
pub proof fn lemma_transfer_admin_hands_over(m: RoomModel, issuer: Seq<char>, target: Seq<char>)
    requires
        transfer_admin_step(m, issuer, target).1 is Ok,
        m.members.contains_key(m.room.admin_client_id),
    ensures
        ({
            let n = transfer_admin_step(m, issuer, target).0;
            let former = m.room.admin_client_id;
            &&& n.room.admin_client_id == target
            &&& n.members.contains_key(target) && n.members[target].role == PartyRole::Admin
            &&& former != target ==> n.members[former].role == PartyRole::Moderator
            &&& n.members.dom() == m.members.dom()
        }),
{
    let n = transfer_admin_step(m, issuer, target).0;
    assert(n.members.dom() =~= m.members.dom());
}

/// Removing one's own suggestion right after adding it restores the queue.
pub proof fn lemma_remove_undoes_add(
    m: RoomModel,
    issuer: Seq<char>,
    item_id: Seq<char>,
    track: TrackRefView,
)
    requires
        authorization(m, issuer, PartyPermission::SuggestTrack) is None,
        holds_permission(m.members[issuer], PartyPermission::RemoveOwnSuggestion),
        forall|j: int| 0 <= j < m.queue.len() ==> #[trigger] m.queue[j].queue_item_id != item_id,
    ensures
        ({
            let (m1, added) = add_queue_step(m, issuer, item_id, track);
            let (m2, removed) = remove_queue_step(m1, issuer, item_id);
            &&& added is Ok
            &&& removed == added
            &&& m2 == m
        }),
{
    let (m1, added) = add_queue_step(m, issuer, item_id, track);
    let n = m.queue.len() as int;
    assert(m1.queue.len() == n + 1);
    assert forall|j: int| 0 <= j < n implies #[trigger] m1.queue[j].queue_item_id != item_id by {
        assert(m1.queue[j] == m.queue[j]);
    }
    lemma_first_item_index(m1.queue, item_id, n);
    assert(m1.queue.remove(n) =~= m.queue);
}

/// A vote down right after a vote up on the same item restores the queue.
pub proof fn lemma_down_vote_undoes_up_vote(m: RoomModel, issuer: Seq<char>, item_id: Seq<char>)
    requires
        authorization(m, issuer, PartyPermission::VoteTrack) is None,
        first_item_index(m.queue, item_id) >= 0,
        m.queue[first_item_index(m.queue, item_id)].votes < i32::MAX,
    ensures
        ({
            let (m1, r1) = vote_step(m, issuer, item_id, true);
            let (m2, r2) = vote_step(m1, issuer, item_id, false);
            &&& r1 is Ok
            &&& r2 == Ok::<i32, RoomErrorView>(m.queue[first_item_index(m.queue, item_id)].votes)
            &&& m2 == m
        }),
{
    let i = first_item_index(m.queue, item_id);
    let (m1, r1) = vote_step(m, issuer, item_id, true);
    assert(crate::room::is_first_item(m.queue, item_id, i));
    assert forall|j: int| 0 <= j < i implies #[trigger] m1.queue[j].queue_item_id != item_id by {
        assert(m1.queue[j] == m.queue[j]);
    }
    lemma_first_item_index(m1.queue, item_id, i);
    let (m2, r2) = vote_step(m1, issuer, item_id, false);
    assert(m2.queue =~= m.queue);
}

/// Rejecting a join request right after receiving it restores the pending set.
pub proof fn lemma_reject_undoes_join_request(
    m: RoomModel,
    rejecter: Seq<char>,
    request: JoinRequestView,
)
    requires
        join_verdict(m.room, request) is Ok,
        !m.pending.contains_key(request.request_id),
        authorization(m, rejecter, PartyPermission::RejectJoin) is None,
    ensures
        ({
            let (m1, r1) = join_request_step(m, request);
            &&& r1 is Ok
            &&& reject_join_step(m1, rejecter, request.request_id) == (m, Ok::<
                JoinRequestView,
                RoomErrorView,
            >(request))
        }),
{
    let (m1, r1) = join_request_step(m, request);
    assert(m1.pending.remove(request.request_id) =~= m.pending);
}

/// Reconnecting the admin undoes a disconnect pause of an active room.
pub proof fn lemma_resume_undoes_pause(m: RoomModel)
    requires
        m.room.state == RoomState::Active,
    ensures
        resume_step(pause_step(m)) == m,
{
}

/// Unlocking right after locking leaves the room active and otherwise as it was.
pub proof fn lemma_unlock_after_lock(m: RoomModel, issuer: Seq<char>)
    requires
        authorization(m, issuer, PartyPermission::LockRoom) is None,
    ensures
        room_state_step(
            room_state_step(m, issuer, PartyPermission::LockRoom, RoomState::Locked).0,
            issuer,
            PartyPermission::LockRoom,
            RoomState::Active,
        ).0 == with_state(m, RoomState::Active),
{
}

/// An approved client becomes a member with exactly the role it was given,
/// no permission overrides, and its request leaves the pending set.
pub proof fn lemma_approval_admits_with_role(
    m: RoomModel,
    approver: Seq<char>,
    request_id: Seq<char>,
    role: PartyRole,
    now_ms: u64,
    permission: PartyPermission,
)
    requires
        approve_join_step(m, approver, request_id, role, now_ms).1 is Ok,
    ensures
        ({
            let n = approve_join_step(m, approver, request_id, role, now_ms).0;
            let id = m.pending[request_id].client_id;
            &&& n.members.contains_key(id)
            &&& n.members[id].role == role
            &&& holds_permission(n.members[id], permission) == role_grants(role, permission)
            &&& !n.pending.contains_key(request_id)
        }),
{
}

/// A join request that offers the room's invite code is admitted, and
/// waits for a decision, whenever the room accepts joins, whatever its
/// visibility.
pub proof fn lemma_invite_code_admits(m: RoomModel, code: Seq<char>, request: JoinRequestView)
    requires
        accepts_joins(m.room.state),
        m.room.invite_code_hash == invite_code_digest(code, m.room.room_id),
        request.invite_code_attempt == Some(code),
    ensures
        join_request_step(m, request).1 is Ok,
        join_request_step(m, request).0.pending == m.pending.insert(request.request_id, request),
        join_request_step(m, request).0.members == m.members,
{
}

/// A private room turns away, as an invalid invite code, every request
/// that offers no code.
pub proof fn lemma_private_room_needs_code(m: RoomModel, request: JoinRequestView)
    requires
        accepts_joins(m.room.state),
        m.room.visibility == RoomVisibility::Private,
        request.invite_code_attempt is None,
    ensures
        join_request_step(m, request) == (m, Err::<(), RoomErrorView>(
            RoomErrorView::JoinRejected(JoinError::InvalidInviteCode),
        )),
{
}

/// A new room admits a request that offers the invite code it was created with.
pub proof fn lemma_created_room_admits_its_code(
    room_id: Seq<char>,
    room_name: Seq<char>,
    visibility: RoomVisibility,
    admin: PartyClientView,
    code: Seq<char>,
    now_ms: u64,
    request: JoinRequestView,
)
    requires
        request.invite_code_attempt == Some(code),
    ensures
        join_request_step(
            created_room(
                room_id,
                room_name,
                visibility,
                admin,
                invite_code_digest(code, room_id),
                now_ms,
            ),
            request,
        ).1 is Ok,
{
    let m = created_room(room_id, room_name, visibility, admin, invite_code_digest(code, room_id), now_ms);
    lemma_invite_code_admits(m, code, request);
}

/// One room, one admin of record: only a successful handover changes who
/// the room's admin is.
pub proof fn lemma_only_transfer_changes_admin(
    m: RoomModel,
    issuer: Seq<char>,
    target: Seq<char>,
    request: JoinRequestView,
    request_id: Seq<char>,
    role: PartyRole,
    now_ms: u64,
    permission: PartyPermission,
    state: RoomState,
    command: PlaybackCommandKind,
    item_id: Seq<char>,
    track: TrackRefView,
    up: bool,
)
    ensures
        join_request_step(m, request).0.room.admin_client_id == m.room.admin_client_id,
        approve_join_step(m, issuer, request_id, role, now_ms).0.room.admin_client_id
            == m.room.admin_client_id,
        reject_join_step(m, issuer, request_id).0.room.admin_client_id == m.room.admin_client_id,
        remove_client_step(m, target).0.room.admin_client_id == m.room.admin_client_id,
        kick_client_step(m, issuer, target).0.room.admin_client_id == m.room.admin_client_id,
        set_role_step(m, issuer, target, role).0.room.admin_client_id == m.room.admin_client_id,
        room_state_step(m, issuer, permission, state).0.room.admin_client_id
            == m.room.admin_client_id,
        pause_step(m).room.admin_client_id == m.room.admin_client_id,
        resume_step(m).room.admin_client_id == m.room.admin_client_id,
        playback_step(m, issuer, command, now_ms).0.room.admin_client_id == m.room.admin_client_id,
        add_queue_step(m, issuer, item_id, track).0.room.admin_client_id == m.room.admin_client_id,
        remove_queue_step(m, issuer, item_id).0.room.admin_client_id == m.room.admin_client_id,
        vote_step(m, issuer, item_id, up).0.room.admin_client_id == m.room.admin_client_id,
        transfer_admin_step(m, issuer, target).1 is Err ==> transfer_admin_step(
            m,
            issuer,
            target,
        ).0.room.admin_client_id == m.room.admin_client_id,
{
}

/// One active admin per room: the room's admin is a member holding the
/// Admin role, and no other member holds it.
pub open spec fn single_admin(m: RoomModel) -> bool {
    &&& m.members.contains_key(m.room.admin_client_id)
    &&& m.members[m.room.admin_client_id].role == PartyRole::Admin
    &&& forall|k: Seq<char>| #[trigger]
        m.members.contains_key(k) && m.members[k].role == PartyRole::Admin ==> k
            == m.room.admin_client_id
}

/// A new room has exactly one admin: its creator.
pub proof fn lemma_created_room_has_single_admin(
    room_id: Seq<char>,
    room_name: Seq<char>,
    visibility: RoomVisibility,
    admin: PartyClientView,
    invite_code_hash: Seq<char>,
    now_ms: u64,
)
    ensures
        single_admin(created_room(room_id, room_name, visibility, admin, invite_code_hash, now_ms)),
{
}

/// Every operation keeps one active admin per room: roles other than Admin
/// are all that approval and role changes hand out, the admin can be
/// neither kicked nor removed, and a handover moves the role.
pub proof fn lemma_steps_keep_single_admin(
    m: RoomModel,
    issuer: Seq<char>,
    target: Seq<char>,
    request: JoinRequestView,
    request_id: Seq<char>,
    role: PartyRole,
    now_ms: u64,
    permission: PartyPermission,
    state: RoomState,
    command: PlaybackCommandKind,
    item_id: Seq<char>,
    track: TrackRefView,
    up: bool,
)
    requires
        single_admin(m),
    ensures
        single_admin(join_request_step(m, request).0),
        single_admin(approve_join_step(m, issuer, request_id, role, now_ms).0),
        single_admin(reject_join_step(m, issuer, request_id).0),
        single_admin(remove_client_step(m, target).0),
        single_admin(kick_client_step(m, issuer, target).0),
        single_admin(set_role_step(m, issuer, target, role).0),
        single_admin(transfer_admin_step(m, issuer, target).0),
        single_admin(room_state_step(m, issuer, permission, state).0),
        single_admin(pause_step(m)),
        single_admin(resume_step(m)),
        single_admin(playback_step(m, issuer, command, now_ms).0),
        single_admin(add_queue_step(m, issuer, item_id, track).0),
        single_admin(remove_queue_step(m, issuer, item_id).0),
        single_admin(vote_step(m, issuer, item_id, up).0),
{
    let a = m.room.admin_client_id;
    let n = transfer_admin_step(m, issuer, target).0;
    if transfer_admin_step(m, issuer, target).1 is Ok {
        assert forall|k: Seq<char>| #[trigger]
            n.members.contains_key(k) && n.members[k].role == PartyRole::Admin implies k == target by {
            if k != target && k == a {
                assert(stepped_down(m.members, a)[a].role == PartyRole::Moderator);
            }
        }
    }
    let k2 = kick_client_step(m, issuer, target).0;
    assert forall|k: Seq<char>| #[trigger]
        k2.members.contains_key(k) && k2.members[k].role == PartyRole::Admin implies k == a by {
        assert(m.members.contains_key(k));
    }
    let r2 = remove_client_step(m, target).0;
    assert forall|k: Seq<char>| #[trigger]
        r2.members.contains_key(k) && r2.members[k].role == PartyRole::Admin implies k == a by {
        assert(m.members.contains_key(k));
    }
    let s2 = set_role_step(m, issuer, target, role).0;
    assert forall|k: Seq<char>| #[trigger]
        s2.members.contains_key(k) && s2.members[k].role == PartyRole::Admin implies k == a by {
        if k != target {
            assert(m.members.contains_key(k));
        }
    }
    let p2 = approve_join_step(m, issuer, request_id, role, now_ms).0;
    assert forall|k: Seq<char>| #[trigger]
        p2.members.contains_key(k) && p2.members[k].role == PartyRole::Admin implies k == a by {
        if approve_join_step(m, issuer, request_id, role, now_ms).1 is Ok {
            if k != m.pending[request_id].client_id {
                assert(m.members.contains_key(k));
            }
        }
    }
}

} // verus!
