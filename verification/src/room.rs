//! The admin-side room server: the source of truth for membership, join
//! requests, the shared queue and the synchronised playback state. Every
//! state-changing request is checked against the issuer's permissions first.

use vstd::prelude::*;

use crate::keyed::{
    find_key, insert_keyed, keyed_map, lemma_keyed_map_at, lemma_same_entries, remove_at,
    replace_at, same_entries, sorted_keys,
};
use crate::model::{
    ConnectionState, JoinRequest, JoinRequestView, PartyClient, PartyClientView, PartyQueueItem,
    PartyQueueItemView, PartyRoom, PartyRoomView, PlaybackSyncState, PlaybackSyncView,
    QueueItemStatus, RoomSettings, RoomSnapshot, RoomState, RoomVisibility, TrackRef, TrackRefView,
};
use crate::protocol::{
    JoinError, PlaybackCommandKind, hash_invite_code, invite_hashable, join_checkable,
    join_verdict, validate_join_request,
};
use crate::rbac::{
    PartyPermission, PartyRole, PermissionError, holds_permission, require_permission, role_rank,
};
use crate::text::text_eq;

pub use crate::protocol::PROTOCOL_VERSION;

verus! {

#[derive(Debug, PartialEq, Eq)]
pub enum RoomError {
    JoinRejected(JoinError),
    ClientNotFound(String),
    Permission(PermissionError),
    JoinRequestNotFound(String),
    QueueItemNotFound(String),
    CannotTargetSelf,
    CannotTargetAdmin,
    AdminRoleNotAssignable,
}

pub enum RoomErrorView {
    JoinRejected(JoinError),
    ClientNotFound(Seq<char>),
    Permission(PermissionError),
    JoinRequestNotFound(Seq<char>),
    QueueItemNotFound(Seq<char>),
    CannotTargetSelf,
    CannotTargetAdmin,
    AdminRoleNotAssignable,
}

impl View for RoomError {
    type V = RoomErrorView;

    open spec fn view(&self) -> RoomErrorView {
        match self {
            RoomError::JoinRejected(e) => RoomErrorView::JoinRejected(*e),
            RoomError::ClientNotFound(id) => RoomErrorView::ClientNotFound(id@),
            RoomError::Permission(e) => RoomErrorView::Permission(*e),
            RoomError::JoinRequestNotFound(id) => RoomErrorView::JoinRequestNotFound(id@),
            RoomError::QueueItemNotFound(id) => RoomErrorView::QueueItemNotFound(id@),
            RoomError::CannotTargetSelf => RoomErrorView::CannotTargetSelf,
            RoomError::CannotTargetAdmin => RoomErrorView::CannotTargetAdmin,
            RoomError::AdminRoleNotAssignable => RoomErrorView::AdminRoleNotAssignable,
        }
    }
}

impl From<JoinError> for RoomError {
    fn from(e: JoinError) -> (r: Self) {
        RoomError::JoinRejected(e)
    }
}

impl vstd::std_specs::convert::FromSpecImpl<JoinError> for RoomError {
    open spec fn obeys_from_spec() -> bool {
        true
    }

    open spec fn from_spec(e: JoinError) -> RoomError {
        RoomError::JoinRejected(e)
    }
}

impl From<PermissionError> for RoomError {
    fn from(e: PermissionError) -> (r: Self) {
        RoomError::Permission(e)
    }
}

impl vstd::std_specs::convert::FromSpecImpl<PermissionError> for RoomError {
    open spec fn obeys_from_spec() -> bool {
        true
    }

    open spec fn from_spec(e: PermissionError) -> RoomError {
        RoomError::Permission(e)
    }
}

/// The room as the server sees it.
pub struct RoomModel {
    pub room: PartyRoomView,
    /// Members by client id.
    pub members: Map<Seq<char>, PartyClientView>,
    /// Join requests awaiting a decision, by request id.
    pub pending: Map<Seq<char>, JoinRequestView>,
    pub queue: Seq<PartyQueueItemView>,
    pub playback: PlaybackSyncView,
}

/// The outcome of an operation, taken by views.
pub open spec fn outcome<T, V>(r: Result<T, RoomError>, f: spec_fn(T) -> V) -> Result<
    V,
    RoomErrorView,
> {
    match r {
        Ok(t) => Ok(f(t)),
        Err(e) => Err(e@),
    }
}

/// The error, if any, that keeps `issuer` from an action that needs `permission`:
/// the issuer must be a member and hold the permission.
pub open spec fn authorization(
    m: RoomModel,
    issuer: Seq<char>,
    permission: PartyPermission,
) -> Option<RoomErrorView> {
    if !m.members.contains_key(issuer) {
        Some(RoomErrorView::ClientNotFound(issuer))
    } else if !holds_permission(m.members[issuer], permission) {
        Some(
            RoomErrorView::Permission(
                PermissionError::Denied { role: m.members[issuer].role, permission },
            ),
        )
    } else {
        None
    }
}

pub open spec fn with_state(m: RoomModel, state: RoomState) -> RoomModel {
    RoomModel { room: PartyRoomView { state, ..m.room }, ..m }
}

pub open spec fn with_role(c: PartyClientView, role: PartyRole) -> PartyClientView {
    PartyClientView { role, ..c }
}

/// A new room: the admin is its only member, nothing is queued or pending.
pub open spec fn created_room(
    room_id: Seq<char>,
    room_name: Seq<char>,
    visibility: RoomVisibility,
    admin: PartyClientView,
    invite_code_hash: Seq<char>,
    now_ms: u64,
) -> RoomModel {
    RoomModel {
        room: PartyRoomView {
            room_id,
            room_name,
            visibility,
            admin_client_id: admin.client_id,
            created_at_ms: now_ms,
            invite_code_hash,
            settings: RoomSettings {
                lan_discovery: false,
                bluetooth_experimental: false,
                voting_enabled: true,
                default_role: PartyRole::Client,
            },
            state: RoomState::WaitingForClients,
        },
        members: Map::empty().insert(admin.client_id, with_role(admin, PartyRole::Admin)),
        pending: Map::empty(),
        queue: Seq::empty(),
        playback: PlaybackSyncView {
            track_ref: None,
            position_ms: 0,
            is_playing: false,
            updated_at_admin_clock_ms: now_ms,
            sequence_number: 0,
        },
    }
}

pub open spec fn join_request_step(m: RoomModel, request: JoinRequestView) -> (
    RoomModel,
    Result<(), RoomErrorView>,
) {
    match join_verdict(m.room, request) {
        Err(e) => (m, Err(RoomErrorView::JoinRejected(e))),
        Ok(_) => (RoomModel { pending: m.pending.insert(request.request_id, request), ..m }, Ok(())),
    }
}

/// The member that an approved request becomes.
pub open spec fn approved_client(request: JoinRequestView, role: PartyRole, now_ms: u64) -> PartyClientView {
    PartyClientView {
        client_id: request.client_id,
        device_name: request.device_name,
        user_name: request.user_name,
        role,
        permissions_override: Seq::empty(),
        connected_at_ms: now_ms,
        last_seen_ms: now_ms,
        connection_state: ConnectionState::Connected,
    }
}

pub open spec fn approve_join_step(
    m: RoomModel,
    approver: Seq<char>,
    request_id: Seq<char>,
    role: PartyRole,
    now_ms: u64,
) -> (RoomModel, Result<PartyClientView, RoomErrorView>) {
    match authorization(m, approver, PartyPermission::ApproveJoin) {
        Some(e) => (m, Err(e)),
        None => if role == PartyRole::Admin {
            (m, Err(RoomErrorView::AdminRoleNotAssignable))
        } else if !m.pending.contains_key(request_id) {
            (m, Err(RoomErrorView::JoinRequestNotFound(request_id)))
        } else if m.pending[request_id].client_id == m.room.admin_client_id {
            (m, Err(RoomErrorView::CannotTargetAdmin))
        } else {
            let c = approved_client(m.pending[request_id], role, now_ms);
            let state = if m.room.state == RoomState::WaitingForClients {
                RoomState::Active
            } else {
                m.room.state
            };
            (
                RoomModel {
                    room: PartyRoomView { state, ..m.room },
                    members: m.members.insert(c.client_id, c),
                    pending: m.pending.remove(request_id),
                    ..m
                },
                Ok(c),
            )
        },
    }
}

pub open spec fn reject_join_step(m: RoomModel, rejecter: Seq<char>, request_id: Seq<char>) -> (
    RoomModel,
    Result<JoinRequestView, RoomErrorView>,
) {
    match authorization(m, rejecter, PartyPermission::RejectJoin) {
        Some(e) => (m, Err(e)),
        None => if !m.pending.contains_key(request_id) {
            (m, Err(RoomErrorView::JoinRequestNotFound(request_id)))
        } else {
            (RoomModel { pending: m.pending.remove(request_id), ..m }, Ok(m.pending[request_id]))
        },
    }
}

pub open spec fn remove_client_step(m: RoomModel, client_id: Seq<char>) -> (
    RoomModel,
    Result<(), RoomErrorView>,
) {
    if client_id == m.room.admin_client_id {
        (m, Err(RoomErrorView::CannotTargetAdmin))
    } else if !m.members.contains_key(client_id) {
        (m, Err(RoomErrorView::ClientNotFound(client_id)))
    } else {
        (RoomModel { members: m.members.remove(client_id), ..m }, Ok(()))
    }
}

pub open spec fn kick_client_step(m: RoomModel, issuer: Seq<char>, target: Seq<char>) -> (
    RoomModel,
    Result<PartyClientView, RoomErrorView>,
) {
    if issuer == target {
        (m, Err(RoomErrorView::CannotTargetSelf))
    } else if target == m.room.admin_client_id {
        (m, Err(RoomErrorView::CannotTargetAdmin))
    } else {
        match authorization(m, issuer, PartyPermission::KickClient) {
            Some(e) => (m, Err(e)),
            None => if !m.members.contains_key(target) {
                (m, Err(RoomErrorView::ClientNotFound(target)))
            } else {
                (RoomModel { members: m.members.remove(target), ..m }, Ok(m.members[target]))
            },
        }
    }
}

/// Raising a member to a more privileged role is a promotion; anything
/// else (the same role included) is a demotion.
pub open spec fn role_change_permission(current: PartyRole, new_role: PartyRole) -> PartyPermission {
    if role_rank(new_role) < role_rank(current) {
        PartyPermission::PromoteClient
    } else {
        PartyPermission::DemoteClient
    }
}

pub open spec fn set_role_step(
    m: RoomModel,
    issuer: Seq<char>,
    target: Seq<char>,
    new_role: PartyRole,
) -> (RoomModel, Result<PartyRole, RoomErrorView>) {
    if issuer == target {
        (m, Err(RoomErrorView::CannotTargetSelf))
    } else if target == m.room.admin_client_id {
        (m, Err(RoomErrorView::CannotTargetAdmin))
    } else if new_role == PartyRole::Admin {
        (m, Err(RoomErrorView::AdminRoleNotAssignable))
    } else if !m.members.contains_key(issuer) {
        (m, Err(RoomErrorView::ClientNotFound(issuer)))
    } else if !m.members.contains_key(target) {
        (m, Err(RoomErrorView::ClientNotFound(target)))
    } else {
        let permission = role_change_permission(m.members[target].role, new_role);
        if !holds_permission(m.members[issuer], permission) {
            (
                m,
                Err(
                    RoomErrorView::Permission(
                        PermissionError::Denied { role: m.members[issuer].role, permission },
                    ),
                ),
            )
        } else {
            (
                RoomModel {
                    members: m.members.insert(target, with_role(m.members[target], new_role)),
                    ..m
                },
                Ok(new_role),
            )
        }
    }
}

/// The members once the admin `admin` has stepped down to moderator.
pub open spec fn stepped_down(members: Map<Seq<char>, PartyClientView>, admin: Seq<char>) -> Map<
    Seq<char>,
    PartyClientView,
> {
    if members.contains_key(admin) {
        members.insert(admin, with_role(members[admin], PartyRole::Moderator))
    } else {
        members
    }
}

/// Handing the room over: the target becomes the admin, and whoever was
/// the admin steps down to moderator.
pub open spec fn transfer_admin_step(m: RoomModel, issuer: Seq<char>, target: Seq<char>) -> (
    RoomModel,
    Result<(), RoomErrorView>,
) {
    if issuer == target {
        (m, Err(RoomErrorView::CannotTargetSelf))
    } else {
        match authorization(m, issuer, PartyPermission::TransferAdmin) {
            Some(e) => (m, Err(e)),
            None => if !m.members.contains_key(target) {
                (m, Err(RoomErrorView::ClientNotFound(target)))
            } else {
                (
                    RoomModel {
                        room: PartyRoomView { admin_client_id: target, ..m.room },
                        members: stepped_down(m.members, m.room.admin_client_id).insert(
                            target,
                            with_role(m.members[target], PartyRole::Admin),
                        ),
                        ..m
                    },
                    Ok(()),
                )
            },
        }
    }
}

/// Lock, unlock and end: an authorised issuer moves the room to `state`.
pub open spec fn room_state_step(
    m: RoomModel,
    issuer: Seq<char>,
    permission: PartyPermission,
    state: RoomState,
) -> (RoomModel, Result<(), RoomErrorView>) {
    match authorization(m, issuer, permission) {
        Some(e) => (m, Err(e)),
        None => (with_state(m, state), Ok(())),
    }
}

pub open spec fn pause_step(m: RoomModel) -> RoomModel {
    if m.room.state == RoomState::Active || m.room.state == RoomState::Locked {
        with_state(m, RoomState::PausedByAdminDisconnect)
    } else {
        m
    }
}

pub open spec fn resume_step(m: RoomModel) -> RoomModel {
    if m.room.state == RoomState::PausedByAdminDisconnect {
        with_state(m, RoomState::Active)
    } else {
        m
    }
}

/// Seeking needs its own permission; every other command needs playback control.
pub open spec fn command_permission(command: PlaybackCommandKind) -> PartyPermission {
    match command {
        PlaybackCommandKind::Seek { .. } => PartyPermission::SeekPlayback,
        _ => PartyPermission::ControlPlayback,
    }
}

/// The playback state after a command, before it is stamped.
pub open spec fn commanded(p: PlaybackSyncView, command: PlaybackCommandKind) -> PlaybackSyncView {
    match command {
        PlaybackCommandKind::Play => PlaybackSyncView { is_playing: true, ..p },
        PlaybackCommandKind::Pause => PlaybackSyncView { is_playing: false, ..p },
        PlaybackCommandKind::Seek { position_ms } => PlaybackSyncView { position_ms, ..p },
        PlaybackCommandKind::Next => PlaybackSyncView { position_ms: 0, ..p },
        PlaybackCommandKind::Previous => PlaybackSyncView { position_ms: 0, ..p },
        PlaybackCommandKind::SetTrack { track_ref } => PlaybackSyncView {
            track_ref: Some(track_ref@),
            position_ms: 0,
            is_playing: true,
            ..p
        },
    }
}

pub open spec fn playback_step(
    m: RoomModel,
    issuer: Seq<char>,
    command: PlaybackCommandKind,
    now_ms: u64,
) -> (RoomModel, Result<PlaybackSyncView, RoomErrorView>) {
    match authorization(m, issuer, command_permission(command)) {
        Some(e) => (m, Err(e)),
        None => {
            let p = PlaybackSyncView {
                sequence_number: (m.playback.sequence_number + 1) as u64,
                updated_at_admin_clock_ms: now_ms,
                ..commanded(m.playback, command)
            };
            (RoomModel { playback: p, ..m }, Ok(p))
        },
    }
}

pub open spec fn add_queue_step(
    m: RoomModel,
    issuer: Seq<char>,
    queue_item_id: Seq<char>,
    track: TrackRefView,
) -> (RoomModel, Result<PartyQueueItemView, RoomErrorView>) {
    match authorization(m, issuer, PartyPermission::SuggestTrack) {
        Some(e) => (m, Err(e)),
        None => {
            let item = PartyQueueItemView {
                queue_item_id,
                track_ref: track,
                suggested_by: issuer,
                votes: 0,
                status: QueueItemStatus::Pending,
            };
            (RoomModel { queue: m.queue.push(item), ..m }, Ok(item))
        },
    }
}

/// `i` is the first position of the queue that holds item `id`.
pub open spec fn is_first_item(q: Seq<PartyQueueItemView>, id: Seq<char>, i: int) -> bool {
    &&& 0 <= i < q.len()
    &&& q[i].queue_item_id == id
    &&& forall|j: int| 0 <= j < i ==> #[trigger] q[j].queue_item_id != id
}

/// The first position of item `id` in the queue, or -1.
pub open spec fn first_item_index(q: Seq<PartyQueueItemView>, id: Seq<char>) -> int {
    if exists|i: int| is_first_item(q, id, i) {
        choose|i: int| is_first_item(q, id, i)
    } else {
        -1
    }
}

pub proof fn lemma_first_item_index(q: Seq<PartyQueueItemView>, id: Seq<char>, i: int)
    requires
        is_first_item(q, id, i),
    ensures
        first_item_index(q, id) == i,
{
    let k = first_item_index(q, id);
    assert(is_first_item(q, id, k));
    if k < i {
        assert(q[k].queue_item_id != id);
    } else if k > i {
        assert(q[i].queue_item_id != id);
    }
}

pub proof fn lemma_no_item(q: Seq<PartyQueueItemView>, id: Seq<char>)
    requires
        forall|j: int| 0 <= j < q.len() ==> #[trigger] q[j].queue_item_id != id,
    ensures
        first_item_index(q, id) == -1,
{
    if exists|i: int| is_first_item(q, id, i) {
        let k = choose|i: int| is_first_item(q, id, i);
        assert(q[k].queue_item_id != id);
    }
}

pub open spec fn remove_queue_step(m: RoomModel, issuer: Seq<char>, queue_item_id: Seq<char>) -> (
    RoomModel,
    Result<PartyQueueItemView, RoomErrorView>,
) {
    let index = first_item_index(m.queue, queue_item_id);
    if index < 0 {
        (m, Err(RoomErrorView::QueueItemNotFound(queue_item_id)))
    } else if !m.members.contains_key(issuer) {
        (m, Err(RoomErrorView::ClientNotFound(issuer)))
    } else {
        let permission = if m.queue[index].suggested_by == issuer {
            PartyPermission::RemoveOwnSuggestion
        } else {
            PartyPermission::RemoveAnyTrack
        };
        if !holds_permission(m.members[issuer], permission) {
            (
                m,
                Err(
                    RoomErrorView::Permission(
                        PermissionError::Denied { role: m.members[issuer].role, permission },
                    ),
                ),
            )
        } else {
            (RoomModel { queue: m.queue.remove(index), ..m }, Ok(m.queue[index]))
        }
    }
}

/// The votes of an item after one vote.
pub open spec fn voted(votes: i32, up: bool) -> int {
    if up {
        votes + 1
    } else {
        votes - 1
    }
}

/// A vote on item `id` keeps its count within `i32`.
pub open spec fn vote_fits(m: RoomModel, queue_item_id: Seq<char>, up: bool) -> bool {
    let index = first_item_index(m.queue, queue_item_id);
    index >= 0 ==> i32::MIN <= voted(m.queue[index].votes, up) <= i32::MAX
}

pub open spec fn vote_step(m: RoomModel, issuer: Seq<char>, queue_item_id: Seq<char>, up: bool) -> (
    RoomModel,
    Result<i32, RoomErrorView>,
) {
    match authorization(m, issuer, PartyPermission::VoteTrack) {
        Some(e) => (m, Err(e)),
        None => {
            let index = first_item_index(m.queue, queue_item_id);
            if index < 0 {
                (m, Err(RoomErrorView::QueueItemNotFound(queue_item_id)))
            } else {
                let votes = voted(m.queue[index].votes, up) as i32;
                (
                    RoomModel {
                        queue: m.queue.update(
                            index,
                            PartyQueueItemView { votes, ..m.queue[index] },
                        ),
                        ..m
                    },
                    Ok(votes),
                )
            }
        },
    }
}

pub struct RoomServer {
    room: PartyRoom,
    clients: Vec<PartyClient>,
    queue: Vec<PartyQueueItem>,
    playback: PlaybackSyncState,
    join_requests: Vec<JoinRequest>,
}

impl View for RoomServer {
    type V = RoomModel;

    open spec fn view(&self) -> RoomModel {
        self.model()
    }
}

impl RoomServer {
    /// Members and join requests are kept sorted by id.
    #[verifier::type_invariant]
    spec fn well_formed(self) -> bool {
        &&& sorted_keys(self.clients@)
        &&& sorted_keys(self.join_requests@)
    }

    pub closed spec fn model(&self) -> RoomModel {
        RoomModel {
            room: self.room@,
            members: keyed_map(self.clients@),
            pending: keyed_map(self.join_requests@),
            queue: self.queue@.map_values(|q: PartyQueueItem| q@),
            playback: self.playback@,
        }
    }

    pub fn create(
        room_id: &str,
        room_name: &str,
        visibility: RoomVisibility,
        admin: PartyClient,
        invite_code: &str,
        now_ms: u64,
    ) -> (r: Self)
        requires
            invite_hashable(invite_code@, room_id@),
        ensures
            r@ == created_room(
                room_id@,
                room_name@,
                visibility,
                admin@,
                crate::protocol::invite_code_digest(invite_code@, room_id@),
                now_ms,
            ),
            r@.room.invite_code_hash.len() == 64,
    {
        let room = PartyRoom {
            invite_code_hash: hash_invite_code(invite_code, room_id),
            admin_client_id: admin.client_id.clone(),
            room_id: room_id.to_owned(),
            room_name: room_name.to_owned(),
            visibility,
            created_at_ms: now_ms,
            settings: RoomSettings::default(),
            state: RoomState::WaitingForClients,
        };
        let mut admin = admin;
        admin.role = PartyRole::Admin;
        let ghost a = admin@;
        let mut clients: Vec<PartyClient> = Vec::new();
        clients.push(admin);
        proof {
            lemma_keyed_map_at(clients@, 0);
            assert(keyed_map(clients@) =~= Map::empty().insert(a.client_id, a));
        }
        let r = RoomServer {
            room,
            clients,
            queue: Vec::new(),
            playback: PlaybackSyncState {
                track_ref: None,
                position_ms: 0,
                is_playing: false,
                updated_at_admin_clock_ms: now_ms,
                sequence_number: 0,
            },
            join_requests: Vec::new(),
        };
        proof {
            assert(keyed_map(r.join_requests@) =~= Map::<Seq<char>, JoinRequestView>::empty());
            assert(r@.queue =~= Seq::<PartyQueueItemView>::empty());
        }
        r
    }

    pub fn room(&self) -> (r: &PartyRoom)
        ensures
            r@ == self@.room,
    {
        &self.room
    }

    pub fn client(&self, client_id: &str) -> (r: Option<&PartyClient>)
        ensures
            r is Some <==> self@.members.contains_key(client_id@),
            r matches Some(c) ==> c@ == self@.members[client_id@],
    {
        proof {
            use_type_invariant(self);
        }
        match find_key(&self.clients, client_id) {
            Some(i) => {
                proof {
                    lemma_keyed_map_at(self.clients@, i as int);
                }
                Some(&self.clients[i])
            },
            None => None,
        }
    }

    pub fn queue(&self) -> (r: &[PartyQueueItem])
        ensures
            r@.map_values(|q: PartyQueueItem| q@) == self@.queue,
    {
        self.queue.as_slice()
    }

    pub fn playback(&self) -> (r: &PlaybackSyncState)
        ensures
            r@ == self@.playback,
    {
        &self.playback
    }

    /// The pending join requests, in request-id order.
    pub fn join_requests(&self) -> (r: &[JoinRequest])
        ensures
            sorted_keys(r@),
            keyed_map(r@) == self@.pending,
    {
        proof {
            use_type_invariant(self);
        }
        self.join_requests.as_slice()
    }

    /// Everything a client needs to know about the room, members and
    /// pending requests in id order.
    pub fn snapshot(&self) -> (r: RoomSnapshot)
        ensures
            r@.room == self@.room,
            r@.current_admin == self@.room.admin_client_id,
            sorted_keys(r.members@),
            keyed_map(r.members@) == self@.members,
            sorted_keys(r.pending_requests@),
            keyed_map(r.pending_requests@) == self@.pending,
            r@.queue == self@.queue,
            r@.playback_state == self@.playback,
            r.protocol_version == PROTOCOL_VERSION,
    {
        proof {
            use_type_invariant(self);
        }
        let members = self.clients.clone();
        let pending = self.join_requests.clone();
        let queue = self.queue.clone();
        proof {
            assert(same_entries(self.clients@, members@));
            lemma_same_entries(self.clients@, members@);
            assert(same_entries(self.join_requests@, pending@));
            lemma_same_entries(self.join_requests@, pending@);
        }
        let r = RoomSnapshot {
            room: self.room.clone(),
            current_admin: self.room.admin_client_id.clone(),
            members,
            pending_requests: pending,
            queue,
            playback_state: self.playback.clone(),
            protocol_version: PROTOCOL_VERSION,
        };
        assert(r@.queue =~= self@.queue);
        r
    }

    pub fn handle_join_request(&mut self, request: JoinRequest) -> (r: Result<(), RoomError>)
        requires
            join_checkable(old(self)@.room, request@),
        ensures
            (final(self)@, outcome(r, |u: ()| u)) == join_request_step(old(self)@, request@),
    {
        proof {
            use_type_invariant(&*self);
        }
        match validate_join_request(&self.room, &request) {
            Ok(()) => {},
            Err(e) => {
                return Err(RoomError::JoinRejected(e));
            },
        }
        let mut table = Vec::new();
        std::mem::swap(&mut table, &mut self.join_requests);
        insert_keyed(&mut table, request);
        self.join_requests = table;
        Ok(())
    }

    fn require_client_owned(&self, client_id: &str) -> (r: Result<PartyClient, RoomError>)
        ensures
            r is Ok <==> self@.members.contains_key(client_id@),
            r matches Ok(c) ==> c@ == self@.members[client_id@] && c.client_id@ == client_id@,
            r matches Err(e) ==> e@ == RoomErrorView::ClientNotFound(client_id@),
    {
        proof {
            use_type_invariant(self);
        }
        match find_key(&self.clients, client_id) {
            Some(i) => {
                proof {
                    lemma_keyed_map_at(self.clients@, i as int);
                }
                Ok(self.clients[i].clone())
            },
            None => Err(RoomError::ClientNotFound(client_id.to_owned())),
        }
    }

    /// Checks that `issuer_id` is a member holding `permission`.
    fn authorize(&self, issuer_id: &str, permission: PartyPermission) -> (r: Result<
        PartyClient,
        RoomError,
    >)
        ensures
            r matches Err(e) ==> authorization(self@, issuer_id@, permission) == Some(e@),
            r matches Ok(c) ==> authorization(self@, issuer_id@, permission) is None && c@
                == self@.members[issuer_id@],
    {
        let issuer = match self.require_client_owned(issuer_id) {
            Ok(c) => c,
            Err(e) => {
                return Err(e);
            },
        };
        match require_permission(&issuer, permission) {
            Ok(()) => Ok(issuer),
            Err(e) => Err(RoomError::Permission(e)),
        }
    }

    pub fn approve_join(
        &mut self,
        approver_id: &str,
        request_id: &str,
        assigned_role: PartyRole,
        now_ms: u64,
    ) -> (r: Result<PartyClient, RoomError>)
        ensures
            (final(self)@, outcome(r, |c: PartyClient| c@)) == approve_join_step(
                old(self)@,
                approver_id@,
                request_id@,
                assigned_role,
                now_ms,
            ),
    {
        proof {
            use_type_invariant(&*self);
        }
        match self.authorize(approver_id, PartyPermission::ApproveJoin) {
            Ok(_) => {},
            Err(e) => {
                return Err(e);
            },
        }
        if assigned_role == PartyRole::Admin {
            return Err(RoomError::AdminRoleNotAssignable);
        }
        let index = match find_key(&self.join_requests, request_id) {
            Some(i) => i,
            None => {
                return Err(RoomError::JoinRequestNotFound(request_id.to_owned()));
            },
        };
        proof {
            lemma_keyed_map_at(self.join_requests@, index as int);
        }
        if text_eq(self.join_requests[index].client_id.as_str(), self.room.admin_client_id.as_str()) {
            return Err(RoomError::CannotTargetAdmin);
        }
        let mut table = Vec::new();
        std::mem::swap(&mut table, &mut self.join_requests);
        let request = remove_at(&mut table, index);
        self.join_requests = table;
        let client = PartyClient {
            client_id: request.client_id.clone(),
            device_name: request.device_name,
            user_name: request.user_name,
            role: assigned_role,
            permissions_override: Vec::new(),
            connected_at_ms: now_ms,
            last_seen_ms: now_ms,
            connection_state: ConnectionState::Connected,
        };
        proof {
            assert(client@ == approved_client(old(self)@.pending[request_id@], assigned_role, now_ms));
        }
        let mut members = Vec::new();
        std::mem::swap(&mut members, &mut self.clients);
        insert_keyed(&mut members, client.clone());
        self.clients = members;
        if self.room.state == RoomState::WaitingForClients {
            self.room.state = RoomState::Active;
        }
        Ok(client)
    }

    pub fn reject_join(&mut self, rejecter_id: &str, request_id: &str) -> (r: Result<
        JoinRequest,
        RoomError,
    >)
        ensures
            (final(self)@, outcome(r, |q: JoinRequest| q@)) == reject_join_step(
                old(self)@,
                rejecter_id@,
                request_id@,
            ),
    {
        proof {
            use_type_invariant(&*self);
        }
        match self.authorize(rejecter_id, PartyPermission::RejectJoin) {
            Ok(_) => {},
            Err(e) => {
                return Err(e);
            },
        }
        let index = match find_key(&self.join_requests, request_id) {
            Some(i) => i,
            None => {
                return Err(RoomError::JoinRequestNotFound(request_id.to_owned()));
            },
        };
        proof {
            lemma_keyed_map_at(self.join_requests@, index as int);
        }
        let mut table = Vec::new();
        std::mem::swap(&mut table, &mut self.join_requests);
        let request = remove_at(&mut table, index);
        self.join_requests = table;
        Ok(request)
    }

    pub fn remove_client(&mut self, client_id: &str) -> (r: Result<(), RoomError>)
        ensures
            (final(self)@, outcome(r, |u: ()| u)) == remove_client_step(old(self)@, client_id@),
    {
        proof {
            use_type_invariant(&*self);
        }
        if text_eq(client_id, self.room.admin_client_id.as_str()) {
            return Err(RoomError::CannotTargetAdmin);
        }
        let index = match find_key(&self.clients, client_id) {
            Some(i) => i,
            None => {
                return Err(RoomError::ClientNotFound(client_id.to_owned()));
            },
        };
        proof {
            lemma_keyed_map_at(self.clients@, index as int);
        }
        let mut members = Vec::new();
        std::mem::swap(&mut members, &mut self.clients);
        let _ = remove_at(&mut members, index);
        self.clients = members;
        Ok(())
    }

    pub fn kick_client(&mut self, issuer_id: &str, target_id: &str) -> (r: Result<
        PartyClient,
        RoomError,
    >)
        ensures
            (final(self)@, outcome(r, |c: PartyClient| c@)) == kick_client_step(
                old(self)@,
                issuer_id@,
                target_id@,
            ),
            r matches Ok(c) ==> c.client_id@ == target_id@,
    {
        proof {
            use_type_invariant(&*self);
        }
        if text_eq(issuer_id, target_id) {
            return Err(RoomError::CannotTargetSelf);
        }
        if text_eq(target_id, self.room.admin_client_id.as_str()) {
            return Err(RoomError::CannotTargetAdmin);
        }
        match self.authorize(issuer_id, PartyPermission::KickClient) {
            Ok(_) => {},
            Err(e) => {
                return Err(e);
            },
        }
        let index = match find_key(&self.clients, target_id) {
            Some(i) => i,
            None => {
                return Err(RoomError::ClientNotFound(target_id.to_owned()));
            },
        };
        proof {
            lemma_keyed_map_at(self.clients@, index as int);
        }
        let mut members = Vec::new();
        std::mem::swap(&mut members, &mut self.clients);
        let kicked = remove_at(&mut members, index);
        self.clients = members;
        Ok(kicked)
    }

    pub fn set_role(&mut self, issuer_id: &str, target_id: &str, new_role: PartyRole) -> (r: Result<
        PartyRole,
        RoomError,
    >)
        ensures
            (final(self)@, outcome(r, |x: PartyRole| x)) == set_role_step(
                old(self)@,
                issuer_id@,
                target_id@,
                new_role,
            ),
    {
        proof {
            use_type_invariant(&*self);
        }
        if text_eq(issuer_id, target_id) {
            return Err(RoomError::CannotTargetSelf);
        }
        if text_eq(target_id, self.room.admin_client_id.as_str()) {
            return Err(RoomError::CannotTargetAdmin);
        }
        if new_role == PartyRole::Admin {
            return Err(RoomError::AdminRoleNotAssignable);
        }
        let issuer = match self.require_client_owned(issuer_id) {
            Ok(c) => c,
            Err(e) => {
                return Err(e);
            },
        };
        let index = match find_key(&self.clients, target_id) {
            Some(i) => i,
            None => {
                return Err(RoomError::ClientNotFound(target_id.to_owned()));
            },
        };
        proof {
            lemma_keyed_map_at(self.clients@, index as int);
        }
        let current_role = self.clients[index].role;
        let permission = if new_role.rank() < current_role.rank() {
            PartyPermission::PromoteClient
        } else {
            PartyPermission::DemoteClient
        };
        match require_permission(&issuer, permission) {
            Ok(()) => {},
            Err(e) => {
                return Err(RoomError::Permission(e));
            },
        }
        let mut updated = self.clients[index].clone();
        updated.role = new_role;
        let mut members = Vec::new();
        std::mem::swap(&mut members, &mut self.clients);
        replace_at(&mut members, index, updated);
        self.clients = members;
        Ok(new_role)
    }

    pub fn transfer_admin(&mut self, issuer_id: &str, target_id: &str) -> (r: Result<(), RoomError>)
        ensures
            (final(self)@, outcome(r, |u: ()| u)) == transfer_admin_step(
                old(self)@,
                issuer_id@,
                target_id@,
            ),
    {
        proof {
            use_type_invariant(&*self);
        }
        if text_eq(issuer_id, target_id) {
            return Err(RoomError::CannotTargetSelf);
        }
        match self.authorize(issuer_id, PartyPermission::TransferAdmin) {
            Ok(_) => {},
            Err(e) => {
                return Err(e);
            },
        }
        let target_index = match find_key(&self.clients, target_id) {
            Some(i) => i,
            None => {
                return Err(RoomError::ClientNotFound(target_id.to_owned()));
            },
        };
        proof {
            lemma_keyed_map_at(self.clients@, target_index as int);
        }
        let mut promoted = self.clients[target_index].clone();
        promoted.role = PartyRole::Admin;
        let mut members = Vec::new();
        std::mem::swap(&mut members, &mut self.clients);
        match find_key(&members, self.room.admin_client_id.as_str()) {
            Some(admin_index) => {
                proof {
                    lemma_keyed_map_at(members@, admin_index as int);
                }
                let mut demoted = members[admin_index].clone();
                demoted.role = PartyRole::Moderator;
                replace_at(&mut members, admin_index, demoted);
            },
            None => {},
        }
        replace_at(&mut members, target_index, promoted);
        self.clients = members;
        self.room.admin_client_id = target_id.to_owned();
        Ok(())
    }

    pub fn lock_room(&mut self, issuer_id: &str) -> (r: Result<(), RoomError>)
        ensures
            (final(self)@, outcome(r, |u: ()| u)) == room_state_step(
                old(self)@,
                issuer_id@,
                PartyPermission::LockRoom,
                RoomState::Locked,
            ),
    {
        proof {
            use_type_invariant(&*self);
        }
        match self.authorize(issuer_id, PartyPermission::LockRoom) {
            Ok(_) => {},
            Err(e) => {
                return Err(e);
            },
        }
        self.room.state = RoomState::Locked;
        Ok(())
    }

    pub fn unlock_room(&mut self, issuer_id: &str) -> (r: Result<(), RoomError>)
        ensures
            (final(self)@, outcome(r, |u: ()| u)) == room_state_step(
                old(self)@,
                issuer_id@,
                PartyPermission::LockRoom,
                RoomState::Active,
            ),
    {
        proof {
            use_type_invariant(&*self);
        }
        match self.authorize(issuer_id, PartyPermission::LockRoom) {
            Ok(_) => {},
            Err(e) => {
                return Err(e);
            },
        }
        self.room.state = RoomState::Active;
        Ok(())
    }

    pub fn end_room(&mut self, issuer_id: &str) -> (r: Result<(), RoomError>)
        ensures
            (final(self)@, outcome(r, |u: ()| u)) == room_state_step(
                old(self)@,
                issuer_id@,
                PartyPermission::EndRoom,
                RoomState::Ended,
            ),
    {
        proof {
            use_type_invariant(&*self);
        }
        match self.authorize(issuer_id, PartyPermission::EndRoom) {
            Ok(_) => {},
            Err(e) => {
                return Err(e);
            },
        }
        self.room.state = RoomState::Ended;
        Ok(())
    }

    /// Called when the admin's connection is lost: an active or locked room
    /// pauses until the admin returns.
    pub fn pause_by_admin_disconnect(&mut self)
        ensures
            final(self)@ == pause_step(old(self)@),
    {
        proof {
            use_type_invariant(&*self);
        }
        match self.room.state {
            RoomState::Active | RoomState::Locked => {
                self.room.state = RoomState::PausedByAdminDisconnect;
            },
            _ => {},
        }
    }

    /// Called when the admin reconnects: a paused room becomes active again.
    pub fn resume_after_admin_reconnect(&mut self)
        ensures
            final(self)@ == resume_step(old(self)@),
    {
        proof {
            use_type_invariant(&*self);
        }
        if self.room.state == RoomState::PausedByAdminDisconnect {
            self.room.state = RoomState::Active;
        }
    }

    pub fn apply_playback_command(
        &mut self,
        issuer_id: &str,
        command: PlaybackCommandKind,
        now_ms: u64,
    ) -> (r: Result<&PlaybackSyncState, RoomError>)
        requires
            old(self)@.playback.sequence_number < u64::MAX,
        ensures
            (final(self)@, outcome(r, |p: &PlaybackSyncState| p@)) == playback_step(
                old(self)@,
                issuer_id@,
                command,
                now_ms,
            ),
    {
        proof {
            use_type_invariant(&*self);
        }
        let permission = match &command {
            PlaybackCommandKind::Seek { .. } => PartyPermission::SeekPlayback,
            _ => PartyPermission::ControlPlayback,
        };
        match self.authorize(issuer_id, permission) {
            Ok(_) => {},
            Err(e) => {
                return Err(e);
            },
        }
        let ghost before = self.playback@;
        match command {
            PlaybackCommandKind::Play => self.playback.is_playing = true,
            PlaybackCommandKind::Pause => self.playback.is_playing = false,
            PlaybackCommandKind::Seek { position_ms } => {
                self.playback.position_ms = position_ms;
            },
            PlaybackCommandKind::Next | PlaybackCommandKind::Previous => {
                self.playback.position_ms = 0;
            },
            PlaybackCommandKind::SetTrack { track_ref } => {
                self.playback.track_ref = Some(track_ref);
                self.playback.position_ms = 0;
                self.playback.is_playing = true;
            },
        }
        self.playback.sequence_number = self.playback.sequence_number + 1;
        self.playback.updated_at_admin_clock_ms = now_ms;
        Ok(&self.playback)
    }

    pub fn add_queue_item(&mut self, issuer_id: &str, queue_item_id: &str, track_ref: TrackRef) -> (r:
        Result<&PartyQueueItem, RoomError>)
        ensures
            (final(self)@, outcome(r, |q: &PartyQueueItem| q@)) == add_queue_step(
                old(self)@,
                issuer_id@,
                queue_item_id@,
                track_ref@,
            ),
    {
        proof {
            use_type_invariant(&*self);
        }
        match self.authorize(issuer_id, PartyPermission::SuggestTrack) {
            Ok(_) => {},
            Err(e) => {
                return Err(e);
            },
        }
        let ghost before = self.queue@;
        let mut queue = Vec::new();
        std::mem::swap(&mut queue, &mut self.queue);
        queue.push(
            PartyQueueItem {
                queue_item_id: queue_item_id.to_owned(),
                track_ref,
                suggested_by: issuer_id.to_owned(),
                votes: 0,
                status: QueueItemStatus::Pending,
            },
        );
        self.queue = queue;
        let last = self.queue.len() - 1;
        proof {
            assert(self.queue@.map_values(|q: PartyQueueItem| q@) =~= before.map_values(
                |q: PartyQueueItem| q@,
            ).push(self.queue@[last as int]@));
        }
        Ok(&self.queue[last])
    }

    /// The first position of item `item_id` in the queue.
    fn find_queue_item(&self, item_id: &str) -> (r: Option<usize>)
        ensures
            r matches Some(i) ==> first_item_index(self@.queue, item_id@) == i,
            r is None ==> first_item_index(self@.queue, item_id@) == -1,
    {
        let mut i: usize = 0;
        while i < self.queue.len()
            invariant
                i <= self.queue@.len(),
                forall|j: int| 0 <= j < i ==> #[trigger] self@.queue[j].queue_item_id != item_id@,
            decreases self.queue@.len() - i,
        {
            if text_eq(self.queue[i].queue_item_id.as_str(), item_id) {
                proof {
                    lemma_first_item_index(self@.queue, item_id@, i as int);
                }
                return Some(i);
            }
            i = i + 1;
        }
        proof {
            lemma_no_item(self@.queue, item_id@);
        }
        None
    }

    pub fn remove_queue_item(&mut self, issuer_id: &str, item_id: &str) -> (r: Result<
        PartyQueueItem,
        RoomError,
    >)
        ensures
            (final(self)@, outcome(r, |q: PartyQueueItem| q@)) == remove_queue_step(
                old(self)@,
                issuer_id@,
                item_id@,
            ),
    {
        proof {
            use_type_invariant(&*self);
        }
        let index = match self.find_queue_item(item_id) {
            Some(i) => i,
            None => {
                return Err(RoomError::QueueItemNotFound(item_id.to_owned()));
            },
        };
        let issuer = match self.require_client_owned(issuer_id) {
            Ok(c) => c,
            Err(e) => {
                return Err(e);
            },
        };
        let permission = if text_eq(self.queue[index].suggested_by.as_str(), issuer_id) {
            PartyPermission::RemoveOwnSuggestion
        } else {
            PartyPermission::RemoveAnyTrack
        };
        match require_permission(&issuer, permission) {
            Ok(()) => {},
            Err(e) => {
                return Err(RoomError::Permission(e));
            },
        }
        let ghost before = self.queue@;
        let mut queue = Vec::new();
        std::mem::swap(&mut queue, &mut self.queue);
        let removed = queue.remove(index);
        self.queue = queue;
        proof {
            assert(self.queue@.map_values(|q: PartyQueueItem| q@) =~= before.map_values(
                |q: PartyQueueItem| q@,
            ).remove(index as int));
        }
        Ok(removed)
    }

    pub fn vote_queue_item(&mut self, issuer_id: &str, item_id: &str, up: bool) -> (r: Result<
        i32,
        RoomError,
    >)
        requires
            vote_fits(old(self)@, item_id@, up),
        ensures
            (final(self)@, outcome(r, |v: i32| v)) == vote_step(
                old(self)@,
                issuer_id@,
                item_id@,
                up,
            ),
    {
        proof {
            use_type_invariant(&*self);
        }
        match self.authorize(issuer_id, PartyPermission::VoteTrack) {
            Ok(_) => {},
            Err(e) => {
                return Err(e);
            },
        }
        let index = match self.find_queue_item(item_id) {
            Some(i) => i,
            None => {
                return Err(RoomError::QueueItemNotFound(item_id.to_owned()));
            },
        };
        let ghost before = self.queue@;
        let mut item = self.queue[index].clone();
        item.votes = if up {
            item.votes + 1
        } else {
            item.votes - 1
        };
        let votes = item.votes;
        let mut queue = Vec::new();
        std::mem::swap(&mut queue, &mut self.queue);
        queue.set(index, item);
        self.queue = queue;
        proof {
            assert(self.queue@.map_values(|q: PartyQueueItem| q@) =~= before.map_values(
                |q: PartyQueueItem| q@,
            ).update(index as int, PartyQueueItemView { votes, ..before[index as int]@ }));
        }
        Ok(votes)
    }
}

} // verus!
