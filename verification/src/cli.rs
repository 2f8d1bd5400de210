//! The debug/admin command line: what each command prints.

use vstd::prelude::*;

use crate::demo::{demo_item, demo_model, gangnam_style_view, rick_astley_view, snapshot_demo_room};
use crate::keyed::{Keyed, keyed_map, lemma_keyed_map_at, lemma_sorted_len, sorted_keys};
use crate::labels::{connection_label, permission_label, role_label, room_state_label, visibility_label};
use crate::model::{
    PartyClient, PartyClientView, PartyQueueItemView, RoomSnapshot, RoomSnapshotView, RoomState,
    TrackRef, TrackRefView,
};
use crate::protocol::PROTOCOL_VERSION;
use crate::rbac::{PartyPermission, PartyRole, can, role_grants};
use crate::request::concat;
use crate::room::RoomModel;
use crate::text::{
    TextOrder, compare_text, decimal, lemma_text_lt_first_ascii, push_decimal, push_signed_decimal,
    signed_decimal, text_lt,
};

verus! {

#[derive(Debug, Clone, Copy, PartialEq, Eq, Structural)]
pub enum RoleArg {
    Admin,
    Moderator,
    Client,
    Guest,
}

#[derive(Debug, Clone, Copy, PartialEq, Eq, Structural)]
pub enum RoomStateArg {
    Waiting,
    Active,
    Locked,
    Paused,
    Ended,
}

pub open spec fn arg_role(r: RoleArg) -> PartyRole {
    match r {
        RoleArg::Admin => PartyRole::Admin,
        RoleArg::Moderator => PartyRole::Moderator,
        RoleArg::Client => PartyRole::Client,
        RoleArg::Guest => PartyRole::Guest,
    }
}

pub open spec fn arg_role_name(r: RoleArg) -> Seq<char> {
    match r {
        RoleArg::Admin => "admin"@,
        RoleArg::Moderator => "moderator"@,
        RoleArg::Client => "client"@,
        RoleArg::Guest => "guest"@,
    }
}

/// Which room state a filter argument selects.
pub open spec fn state_arg_selects(a: RoomStateArg, s: RoomState) -> bool {
    match a {
        RoomStateArg::Waiting => s == RoomState::WaitingForClients,
        RoomStateArg::Active => s == RoomState::Active,
        RoomStateArg::Locked => s == RoomState::Locked,
        RoomStateArg::Paused => s == RoomState::PausedByAdminDisconnect,
        RoomStateArg::Ended => s == RoomState::Ended,
    }
}

impl RoleArg {
    pub fn party_role(self) -> (r: PartyRole)
        ensures
            r == arg_role(self),
    {
        match self {
            RoleArg::Admin => PartyRole::Admin,
            RoleArg::Moderator => PartyRole::Moderator,
            RoleArg::Client => PartyRole::Client,
            RoleArg::Guest => PartyRole::Guest,
        }
    }

    pub fn name(self) -> (r: &'static str)
        ensures
            r@ == arg_role_name(self),
    {
        match self {
            RoleArg::Admin => "admin",
            RoleArg::Moderator => "moderator",
            RoleArg::Client => "client",
            RoleArg::Guest => "guest",
        }
    }
}

impl RoomStateArg {
    pub fn matches(self, state: RoomState) -> (r: bool)
        ensures
            r == state_arg_selects(self, state),
    {
        match (self, state) {
            (RoomStateArg::Waiting, RoomState::WaitingForClients) => true,
            (RoomStateArg::Active, RoomState::Active) => true,
            (RoomStateArg::Locked, RoomState::Locked) => true,
            (RoomStateArg::Paused, RoomState::PausedByAdminDisconnect) => true,
            (RoomStateArg::Ended, RoomState::Ended) => true,
            _ => false,
        }
    }
}

#[derive(Debug, Clone, PartialEq, Eq)]
pub enum PartyCommand {
    Create,
    Rooms,
    Join { room_id: String },
    JoinCode { code: String },
    Leave,
    Members,
    Approve { client_id: String },
    Reject { client_id: String },
    Promote { client_id: String },
    Demote { client_id: String },
    TransferAdmin { client_id: String },
    Kick { client_id: String },
    Lock,
    Unlock,
    End,
    Queue,
    Vote { queue_item_id: String },
    Suggest { track_ref: String },
    Permissions { role: Option<RoleArg> },
    Snapshot {
        json: bool,
        filter_state: Option<RoomStateArg>,
        filter_min_members: Option<usize>,
    },
}

#[derive(Debug, Clone, PartialEq, Eq)]
pub enum Command {
    Status,
    Party { command: PartyCommand },
}

/// What a command prints: text, or a room snapshot to be printed as JSON.
#[derive(Debug, PartialEq, Eq)]
pub enum CliOutput {
    Text(String),
    SnapshotJson(RoomSnapshot),
}

pub open spec fn status_text() -> Seq<char> {
    "Meowify CLI\nplatform: YouTube\nparty protocol: v"@ + decimal(PROTOCOL_VERSION as nat)
        + "\nnetwork: not started by debug CLI\n"@
}

pub fn render_status() -> (r: String)
    ensures
        r@ == status_text(),
{
    let mut out = "Meowify CLI\nplatform: YouTube\nparty protocol: v".to_owned();
    push_decimal(&mut out, PROTOCOL_VERSION as u64);
    out.append("\nnetwork: not started by debug CLI\n");
    out
}

/// The text of a command that is parsed but not carried out here.
pub open spec fn stub_text(action: Seq<char>, required: Option<PartyPermission>) -> Seq<char> {
    "party action: "@ + action + "\n"@ + "status: parsed; network handler not implemented yet\n"@
        + match required {
        Some(p) => "required permission: "@ + permission_label(p) + "\n"@,
        None => seq![],
    } + "policy: enforce RBAC before state changes\n"@
}

pub fn render_party_stub(action: &str, required: Option<PartyPermission>) -> (r: String)
    ensures
        r@ == stub_text(action@, required),
{
    let mut out = concat("party action: ", action);
    out.append("\n");
    out.append("status: parsed; network handler not implemented yet\n");
    let ghost before = out@;
    match required {
        Some(permission) => {
            out.append("required permission: ");
            out.append(permission.label());
            out.append("\n");
        },
        None => {},
    }
    out.append("policy: enforce RBAC before state changes\n");
    assert(out@ =~= stub_text(action@, required));
    out
}

/// The action and required permission of each command answered by a stub.
pub open spec fn stub_of(c: PartyCommand) -> (Seq<char>, Option<PartyPermission>) {
    match c {
        PartyCommand::Create => ("create room"@, Some(PartyPermission::CreateRoom)),
        PartyCommand::Rooms => ("list rooms"@, Some(PartyPermission::DiscoverRooms)),
        PartyCommand::Join { room_id } => ("join room "@ + room_id@, Some(PartyPermission::JoinRoom)),
        PartyCommand::JoinCode { code } => (
            "join with invite code "@ + code@,
            Some(PartyPermission::JoinRoom),
        ),
        PartyCommand::Leave => ("leave room"@, None),
        PartyCommand::Members => ("list members"@, Some(PartyPermission::ViewMembers)),
        PartyCommand::Approve { client_id } => (
            "approve client "@ + client_id@,
            Some(PartyPermission::ApproveJoin),
        ),
        PartyCommand::Reject { client_id } => (
            "reject client "@ + client_id@,
            Some(PartyPermission::RejectJoin),
        ),
        PartyCommand::Promote { client_id } => (
            "promote client "@ + client_id@,
            Some(PartyPermission::PromoteClient),
        ),
        PartyCommand::Demote { client_id } => (
            "demote client "@ + client_id@,
            Some(PartyPermission::DemoteClient),
        ),
        PartyCommand::TransferAdmin { client_id } => (
            "transfer admin to "@ + client_id@,
            Some(PartyPermission::TransferAdmin),
        ),
        PartyCommand::Kick { client_id } => (
            "kick client "@ + client_id@,
            Some(PartyPermission::KickClient),
        ),
        PartyCommand::Lock => ("lock room"@, Some(PartyPermission::LockRoom)),
        PartyCommand::Unlock => ("unlock room"@, Some(PartyPermission::LockRoom)),
        PartyCommand::End => ("end room"@, Some(PartyPermission::EndRoom)),
        PartyCommand::Queue => ("show queue"@, Some(PartyPermission::ViewMembers)),
        PartyCommand::Vote { queue_item_id } => (
            "vote for queue item "@ + queue_item_id@,
            Some(PartyPermission::VoteTrack),
        ),
        PartyCommand::Suggest { track_ref } => (
            "suggest track ref "@ + track_ref@,
            Some(PartyPermission::SuggestTrack),
        ),
        _ => (seq![], None),
    }
}

/// Every permission, in declaration order.
pub open spec fn every_permission() -> Seq<PartyPermission> {
    seq![
        PartyPermission::CreateRoom,
        PartyPermission::DiscoverRooms,
        PartyPermission::JoinRoom,
        PartyPermission::ApproveJoin,
        PartyPermission::RejectJoin,
        PartyPermission::LockRoom,
        PartyPermission::EndRoom,
        PartyPermission::TransferAdmin,
        PartyPermission::PromoteClient,
        PartyPermission::DemoteClient,
        PartyPermission::KickClient,
        PartyPermission::ControlPlayback,
        PartyPermission::SeekPlayback,
        PartyPermission::ModifyQueue,
        PartyPermission::SuggestTrack,
        PartyPermission::RemoveOwnSuggestion,
        PartyPermission::RemoveAnyTrack,
        PartyPermission::VoteTrack,
        PartyPermission::VoteSkip,
        PartyPermission::ChangeRoomSettings,
        PartyPermission::ViewMembers,
        PartyPermission::SendChatMessage,
    ]
}

pub fn all_permissions() -> (r: Vec<PartyPermission>)
    ensures
        r@ == every_permission(),
{
    let r = vec![
        PartyPermission::CreateRoom,
        PartyPermission::DiscoverRooms,
        PartyPermission::JoinRoom,
        PartyPermission::ApproveJoin,
        PartyPermission::RejectJoin,
        PartyPermission::LockRoom,
        PartyPermission::EndRoom,
        PartyPermission::TransferAdmin,
        PartyPermission::PromoteClient,
        PartyPermission::DemoteClient,
        PartyPermission::KickClient,
        PartyPermission::ControlPlayback,
        PartyPermission::SeekPlayback,
        PartyPermission::ModifyQueue,
        PartyPermission::SuggestTrack,
        PartyPermission::RemoveOwnSuggestion,
        PartyPermission::RemoveAnyTrack,
        PartyPermission::VoteTrack,
        PartyPermission::VoteSkip,
        PartyPermission::ChangeRoomSettings,
        PartyPermission::ViewMembers,
        PartyPermission::SendChatMessage,
    ];
    assert(r@ =~= every_permission());
    r
}

pub fn permission_name(permission: PartyPermission) -> (r: &'static str)
    ensures
        r@ == permission_label(permission),
{
    permission.label()
}

pub open spec fn grants(role: PartyRole) -> spec_fn(PartyPermission) -> bool {
    |p: PartyPermission| role_grants(role, p)
}

/// The permissions a role grants, in declaration order.
pub open spec fn granted(role: PartyRole) -> Seq<PartyPermission> {
    every_permission().filter(grants(role))
}

/// Permission names separated by ", ".
pub open spec fn joined_labels(ps: Seq<PartyPermission>) -> Seq<char>
    decreases ps.len(),
{
    if ps.len() == 0 {
        seq![]
    } else if ps.len() == 1 {
        permission_label(ps[0])
    } else {
        joined_labels(ps.drop_last()) + ", "@ + permission_label(ps.last())
    }
}

pub open spec fn role_line(r: RoleArg) -> Seq<char> {
    arg_role_name(r) + ": "@ + joined_labels(granted(arg_role(r))) + "\n"@
}

pub open spec fn role_lines(rs: Seq<RoleArg>) -> Seq<char>
    decreases rs.len(),
{
    if rs.len() == 0 {
        seq![]
    } else {
        role_lines(rs.drop_last()) + role_line(rs.last())
    }
}

/// The roles that a permissions listing covers.
pub open spec fn listed_roles(filter: Option<RoleArg>) -> Seq<RoleArg> {
    match filter {
        Some(r) => seq![r],
        None => seq![RoleArg::Admin, RoleArg::Moderator, RoleArg::Client, RoleArg::Guest],
    }
}

pub open spec fn permissions_text(filter: Option<RoleArg>) -> Seq<char> {
    "Party permissions\n"@ + role_lines(listed_roles(filter))
}

fn granted_permissions(role: PartyRole) -> (r: Vec<PartyPermission>)
    ensures
        r@ == granted(role),
{
    let all = all_permissions();
    let mut r: Vec<PartyPermission> = Vec::new();
    let mut i: usize = 0;
    while i < all.len()
        invariant
            i <= all@.len(),
            all@ == every_permission(),
            r@ == all@.take(i as int).filter(grants(role)),
        decreases all@.len() - i,
    {
        let p = all[i];
        proof {
            reveal_with_fuel(Seq::filter, 1);
            assert(all@.take(i + 1).drop_last() =~= all@.take(i as int));
        }
        if can(role, p) {
            r.push(p);
        }
        i = i + 1;
    }
    assert(all@.take(i as int) =~= all@);
    r
}

fn join_permission_names(ps: &Vec<PartyPermission>) -> (r: String)
    ensures
        r@ == joined_labels(ps@),
{
    let mut out = String::new();
    let mut i: usize = 0;
    while i < ps.len()
        invariant
            i <= ps@.len(),
            out@ == joined_labels(ps@.take(i as int)),
        decreases ps@.len() - i,
    {
        proof {
            assert(ps@.take(i + 1).drop_last() =~= ps@.take(i as int));
        }
        if i > 0 {
            out.append(", ");
        }
        out.append(ps[i].label());
        proof {
            if i == 0 {
                assert(out@ =~= joined_labels(ps@.take(1)));
            }
        }
        i = i + 1;
    }
    assert(ps@.take(i as int) =~= ps@);
    out
}

fn render_role_line(role: RoleArg) -> (r: String)
    ensures
        r@ == role_line(role),
{
    let allowed = granted_permissions(role.party_role());
    let names = join_permission_names(&allowed);
    let mut out = concat(role.name(), ": ");
    out.append(names.as_str());
    out.append("\n");
    out
}

pub fn render_permissions(role_filter: Option<RoleArg>) -> (r: String)
    ensures
        r@ == permissions_text(role_filter),
{
    let roles: Vec<RoleArg> = match role_filter {
        Some(role) => vec![role],
        None => vec![RoleArg::Admin, RoleArg::Moderator, RoleArg::Client, RoleArg::Guest],
    };
    assert(roles@ =~= listed_roles(role_filter));
    let mut out = "Party permissions\n".to_owned();
    let mut i: usize = 0;
    while i < roles.len()
        invariant
            i <= roles@.len(),
            roles@ == listed_roles(role_filter),
            out@ == "Party permissions\n"@ + role_lines(roles@.take(i as int)),
        decreases roles@.len() - i,
    {
        let line = render_role_line(roles[i]);
        out.append(line.as_str());
        proof {
            assert(roles@.take(i + 1).drop_last() =~= roles@.take(i as int));
        }
        i = i + 1;
    }
    assert(roles@.take(i as int) =~= roles@);
    out
}

// ---------------------------------------------------------------------------
// Room snapshots as text
// ---------------------------------------------------------------------------

/// Places `x` after the members of a list whose ids do not exceed its id.
pub open spec fn insert_by_id(s: Seq<PartyClientView>, x: PartyClientView) -> Seq<PartyClientView>
    decreases s.len(),
{
    if s.len() == 0 {
        seq![x]
    } else if text_lt(x.client_id, s.last().client_id) {
        insert_by_id(s.drop_last(), x).push(s.last())
    } else {
        s.push(x)
    }
}

/// Members in client-id order; members with equal ids keep their order.
pub open spec fn sorted_by_id(s: Seq<PartyClientView>) -> Seq<PartyClientView>
    decreases s.len(),
{
    if s.len() == 0 {
        seq![]
    } else {
        insert_by_id(sorted_by_id(s.drop_last()), s.last())
    }
}

pub open spec fn client_views(v: Seq<PartyClient>) -> Seq<PartyClientView> {
    v.map_values(|c: PartyClient| c@)
}

/// Sorts members by client id, stably.
pub fn sort_members_by_id(members: &Vec<PartyClient>) -> (r: Vec<PartyClient>)
    ensures
        client_views(r@) == sorted_by_id(client_views(members@)),
{
    let mut out: Vec<PartyClient> = Vec::new();
    let mut i: usize = 0;
    while i < members.len()
        invariant
            i <= members@.len(),
            client_views(out@) == sorted_by_id(client_views(members@).take(i as int)),
        decreases members@.len() - i,
    {
        let x = members[i].clone();
        let ghost xv = x@;
        let ghost s = client_views(out@);
        let mut p: usize = out.len();
        proof {
            assert(s.take(p as int) =~= s);
            assert(insert_by_id(s, xv) =~= insert_by_id(s.take(p as int), xv) + s.skip(p as int));
        }
        while p > 0 && matches!(compare_text(x.client_id.as_str(), out[p - 1].client_id.as_str()), TextOrder::Less)
            invariant
                p <= out@.len(),
                s == client_views(out@),
                xv == x@,
                insert_by_id(s, xv) == insert_by_id(s.take(p as int), xv) + s.skip(p as int),
            decreases p,
        {
            proof {
                let t = s.take(p as int);
                assert(t.last() == s[p - 1]);
                assert(t.drop_last() =~= s.take(p - 1));
                assert(s.skip(p - 1) =~= seq![s[p - 1]] + s.skip(p as int));
                assert(insert_by_id(t, xv) == insert_by_id(s.take(p - 1), xv).push(s[p - 1]));
                assert(insert_by_id(t, xv) + s.skip(p as int) =~= insert_by_id(s.take(p - 1), xv)
                    + s.skip(p - 1));
            }
            p = p - 1;
        }
        proof {
            let t = s.take(p as int);
            if p > 0 {
                assert(t.last() == s[p - 1]);
                assert(insert_by_id(t, xv) == t.push(xv));
            } else {
                assert(insert_by_id(t, xv) == seq![xv]);
            }
            assert(insert_by_id(s, xv) =~= s.insert(p as int, xv));
            assert(client_views(members@).take(i + 1).drop_last() =~= client_views(members@).take(
                i as int,
            ));
            assert(client_views(members@).take(i + 1).last() == xv);
        }
        out.insert(p, x);
        proof {
            assert(client_views(out@) =~= s.insert(p as int, xv));
        }
        i = i + 1;
    }
    assert(client_views(members@).take(i as int) =~= client_views(members@));
    out
}

pub open spec fn bool_text(b: bool) -> Seq<char> {
    if b {
        "true"@
    } else {
        "false"@
    }
}

pub open spec fn or_else(o: Option<Seq<char>>, fallback: Seq<char>) -> Seq<char> {
    match o {
        Some(t) => t,
        None => fallback,
    }
}

pub open spec fn member_line(m: PartyClientView) -> Seq<char> {
    "  "@ + m.client_id + " | "@ + role_label(m.role) + " | "@ + connection_label(
        m.connection_state,
    ) + " | "@ + m.user_name + "\n"@
}

pub open spec fn track_label(t: TrackRefView) -> Seq<char> {
    match t {
        TrackRefView::YouTube { title, channel_title, .. } => or_else(title, "(no title)"@)
            + " — "@ + or_else(channel_title, "(no channel)"@),
        TrackRefView::ImportedLocalFile { title, .. } => "[local] "@ + title,
    }
}

pub open spec fn queue_line(q: PartyQueueItemView) -> Seq<char> {
    "  "@ + q.queue_item_id + " | votes:"@ + signed_decimal(q.votes as int) + " | by:"@
        + q.suggested_by + " | "@ + track_label(q.track_ref) + "\n"@
}

pub open spec fn member_lines(s: Seq<PartyClientView>) -> Seq<char>
    decreases s.len(),
{
    if s.len() == 0 {
        seq![]
    } else {
        member_lines(s.drop_last()) + member_line(s.last())
    }
}

pub open spec fn queue_lines(s: Seq<PartyQueueItemView>) -> Seq<char>
    decreases s.len(),
{
    if s.len() == 0 {
        seq![]
    } else {
        queue_lines(s.drop_last()) + queue_line(s.last())
    }
}

pub open spec fn now_playing_line(t: Option<TrackRefView>) -> Seq<char> {
    match t {
        Some(TrackRefView::YouTube { title, video_id, .. }) => "  track:    "@ + or_else(
            title,
            "(no title)"@,
        ) + " ("@ + video_id + ")\n"@,
        Some(TrackRefView::ImportedLocalFile { title, local_id }) => "  track:    [local] "@ + title
            + " ("@ + local_id + ")\n"@,
        None => "  track:    none\n"@,
    }
}

pub open spec fn snapshot_header_text(s: RoomSnapshotView) -> Seq<char> {
    "=== Room Snapshot (protocol v"@ + decimal(s.protocol_version as nat) + ") ===\n"@
        + "room_id:    "@ + s.room.room_id + "\n"@ + "name:       "@ + s.room.room_name + "\n"@
        + "state:      "@ + room_state_label(s.room.state) + "\n"@ + "visibility: "@
        + visibility_label(s.room.visibility) + "\n"@ + "admin:      "@ + s.current_admin + "\n"@
        + "\n"@
}

pub open spec fn snapshot_members_text(s: RoomSnapshotView) -> Seq<char> {
    "--- Members ("@ + decimal(s.members.len()) + ") ---\n"@ + member_lines(
        sorted_by_id(s.members),
    ) + "\n"@
}

pub open spec fn snapshot_queue_text(s: RoomSnapshotView) -> Seq<char> {
    "--- Queue ("@ + decimal(s.queue.len()) + " items) ---\n"@ + queue_lines(s.queue) + "\n"@
}

pub open spec fn snapshot_playback_text(s: RoomSnapshotView) -> Seq<char> {
    "--- Playback ---\n"@ + "  playing:  "@ + bool_text(s.playback_state.is_playing) + "\n"@
        + "  position: "@ + decimal(s.playback_state.position_ms as nat) + " ms\n"@
        + "  seq:      "@ + decimal(s.playback_state.sequence_number as nat) + "\n"@
        + now_playing_line(s.playback_state.track_ref)
}

/// The human-readable rendering of a room snapshot.
pub open spec fn room_snapshot_text(s: RoomSnapshotView) -> Seq<char> {
    snapshot_header_text(s) + snapshot_members_text(s) + snapshot_queue_text(s)
        + snapshot_playback_text(s)
}

fn append_line(out: &mut String, label: &str, value: &str)
    ensures
        final(out)@ == old(out)@ + label@ + value@ + "\n"@,
{
    out.append(label);
    out.append(value);
    out.append("\n");
    assert(final(out)@ =~= old(out)@ + label@ + value@ + "\n"@);
}

fn render_snapshot_header(snap: &RoomSnapshot) -> (r: String)
    ensures
        r@ == snapshot_header_text(snap@),
{
    let mut out = "=== Room Snapshot (protocol v".to_owned();
    push_decimal(&mut out, snap.protocol_version as u64);
    out.append(") ===\n");
    append_line(&mut out, "room_id:    ", snap.room.room_id.as_str());
    append_line(&mut out, "name:       ", snap.room.room_name.as_str());
    append_line(&mut out, "state:      ", snap.room.state.label());
    append_line(&mut out, "visibility: ", snap.room.visibility.label());
    append_line(&mut out, "admin:      ", snap.current_admin.as_str());
    out.append("\n");
    assert(out@ =~= snapshot_header_text(snap@));
    out
}

fn render_member_line(m: &PartyClient) -> (r: String)
    ensures
        r@ == member_line(m@),
{
    let mut out = concat("  ", m.client_id.as_str());
    out.append(" | ");
    out.append(m.role.label());
    out.append(" | ");
    out.append(m.connection_state.label());
    out.append(" | ");
    out.append(m.user_name.as_str());
    out.append("\n");
    assert(out@ =~= member_line(m@));
    out
}

fn render_snapshot_members(snap: &RoomSnapshot) -> (r: String)
    ensures
        r@ == snapshot_members_text(snap@),
{
    let mut out = "--- Members (".to_owned();
    push_decimal(&mut out, snap.members.len() as u64);
    out.append(") ---\n");
    let members = sort_members_by_id(&snap.members);
    let ghost head = out@;
    let mut i: usize = 0;
    while i < members.len()
        invariant
            i <= members@.len(),
            out@ == head + member_lines(client_views(members@).take(i as int)),
        decreases members@.len() - i,
    {
        let line = render_member_line(&members[i]);
        out.append(line.as_str());
        proof {
            assert(client_views(members@).take(i + 1).drop_last() =~= client_views(members@).take(
                i as int,
            ));
            assert(out@ =~= head + member_lines(client_views(members@).take(i + 1)));
        }
        i = i + 1;
    }
    assert(client_views(members@).take(i as int) =~= client_views(members@));
    out.append("\n");
    assert(snap@.members == client_views(snap.members@));
    assert(out@ =~= snapshot_members_text(snap@));
    out
}

fn render_track_label(t: &TrackRef) -> (r: String)
    ensures
        r@ == track_label(t@),
{
    match t {
        TrackRef::YouTube { title, channel_title, .. } => {
            let mut out = match title {
                Some(s) => s.clone(),
                None => "(no title)".to_owned(),
            };
            out.append(" — ");
            match channel_title {
                Some(s) => out.append(s.as_str()),
                None => out.append("(no channel)"),
            }
            assert(out@ =~= track_label(t@));
            out
        },
        TrackRef::ImportedLocalFile { title, .. } => concat("[local] ", title.as_str()),
    }
}

fn render_queue_line(q: &crate::model::PartyQueueItem) -> (r: String)
    ensures
        r@ == queue_line(q@),
{
    let mut out = concat("  ", q.queue_item_id.as_str());
    out.append(" | votes:");
    push_signed_decimal(&mut out, q.votes);
    out.append(" | by:");
    out.append(q.suggested_by.as_str());
    out.append(" | ");
    let label = render_track_label(&q.track_ref);
    out.append(label.as_str());
    out.append("\n");
    assert(out@ =~= queue_line(q@));
    out
}

fn render_snapshot_queue(snap: &RoomSnapshot) -> (r: String)
    ensures
        r@ == snapshot_queue_text(snap@),
{
    let mut out = "--- Queue (".to_owned();
    push_decimal(&mut out, snap.queue.len() as u64);
    out.append(" items) ---\n");
    let ghost head = out@;
    let ghost qs = snap@.queue;
    let mut i: usize = 0;
    while i < snap.queue.len()
        invariant
            i <= snap.queue@.len(),
            qs == snap@.queue,
            out@ == head + queue_lines(qs.take(i as int)),
        decreases snap.queue@.len() - i,
    {
        let line = render_queue_line(&snap.queue[i]);
        out.append(line.as_str());
        proof {
            assert(qs.take(i + 1).drop_last() =~= qs.take(i as int));
            assert(qs.take(i + 1).last() == snap.queue@[i as int]@);
            assert(out@ =~= head + queue_lines(qs.take(i + 1)));
        }
        i = i + 1;
    }
    assert(qs.take(i as int) =~= qs);
    out.append("\n");
    assert(out@ =~= snapshot_queue_text(snap@));
    out
}

fn render_snapshot_playback(snap: &RoomSnapshot) -> (r: String)
    ensures
        r@ == snapshot_playback_text(snap@),
{
    let pb = &snap.playback_state;
    let mut out = "--- Playback ---\n".to_owned();
    append_line(&mut out, "  playing:  ", if pb.is_playing { "true" } else { "false" });
    out.append("  position: ");
    push_decimal(&mut out, pb.position_ms);
    out.append(" ms\n");
    out.append("  seq:      ");
    push_decimal(&mut out, pb.sequence_number);
    out.append("\n");
    let ghost mid = out@;
    match &pb.track_ref {
        Some(TrackRef::YouTube { title, video_id, .. }) => {
            out.append("  track:    ");
            match title {
                Some(t) => out.append(t.as_str()),
                None => out.append("(no title)"),
            }
            out.append(" (");
            out.append(video_id.as_str());
            out.append(")\n");
        },
        Some(TrackRef::ImportedLocalFile { title, local_id }) => {
            out.append("  track:    [local] ");
            out.append(title.as_str());
            out.append(" (");
            out.append(local_id.as_str());
            out.append(")\n");
        },
        None => {
            out.append("  track:    none\n");
        },
    }
    assert(out@ =~= mid + now_playing_line(snap@.playback_state.track_ref));
    assert(out@ =~= snapshot_playback_text(snap@));
    out
}

/// Renders a room snapshot for people to read.
pub fn render_room_snapshot(snap: &RoomSnapshot) -> (r: String)
    ensures
        r@ == room_snapshot_text(snap@),
{
    let mut out = render_snapshot_header(snap);
    let members = render_snapshot_members(snap);
    let queue = render_snapshot_queue(snap);
    let playback = render_snapshot_playback(snap);
    out.append(members.as_str());
    out.append(queue.as_str());
    out.append(playback.as_str());
    out
}

// ---------------------------------------------------------------------------
// The demo snapshot
// ---------------------------------------------------------------------------

/// The demo room behind the snapshot command.
pub open spec fn cli_demo_model() -> RoomModel {
    demo_model(
        "room-demo"@,
        "Demo Room"@,
        "Alice"@,
        seq![
            demo_item("item-1"@, rick_astley_view(), "admin-1"@),
            demo_item("item-2"@, gangnam_style_view(), "client-bob"@),
        ],
    )
}

/// The snapshot of the demo room: its two members listed in id order.
pub open spec fn cli_demo_snapshot() -> RoomSnapshotView {
    let m = cli_demo_model();
    RoomSnapshotView {
        room: m.room,
        current_admin: m.room.admin_client_id,
        members: seq![m.members["admin-1"@], m.members["client-bob"@]],
        pending_requests: seq![],
        queue: m.queue,
        playback_state: m.playback,
        protocol_version: PROTOCOL_VERSION,
    }
}

/// The demo room's snapshot.
pub fn demo_snapshot() -> (r: RoomSnapshot)
    ensures
        r@ == cli_demo_snapshot(),
        r.members@.len() == 2,
{
    let server = snapshot_demo_room();
    let snap = server.snapshot();
    proof {
        let m = cli_demo_model();
        reveal_strlit("admin-1");
        reveal_strlit("client-bob");
        let a = "admin-1"@;
        let b = "client-bob"@;
        assert(a[0] == 'a');
        assert(b[0] == 'c');
        lemma_text_lt_first_ascii(a, b);
        lemma_sorted_len(snap.members@);
        assert(m.members.dom() =~= set![a, b]);
        assert(a != b);
        assert(set![a, b].len() == 2) by {
            assert(set![a].len() == 1);
        }
        let s = snap.members@;
        assert(s.len() == 2);
        lemma_keyed_map_at(s, 0);
        lemma_keyed_map_at(s, 1);
        assert(text_lt(s[0].key_view(), s[1].key_view()));
        if s[0].key_view() == b {
            assert(s[1].key_view() == a);
        }
        assert(s[0].key_view() == a);
        assert(s[1].key_view() == b);
        assert(snap@.members =~= cli_demo_snapshot().members);
        lemma_sorted_len(snap.pending_requests@);
        assert(snap.pending_requests@.len() == 0);
        assert(snap@.pending_requests =~= seq![]);
    }
    snap
}

pub open spec fn no_match_text() -> Seq<char> {
    "No rooms match the filter.\n"@
}

/// The filters leave the demo room out.
pub open spec fn demo_filtered_out(
    filter_state: Option<RoomStateArg>,
    filter_min_members: Option<usize>,
) -> bool {
    ||| (filter_state matches Some(f) && !state_arg_selects(f, RoomState::Active))
    ||| (filter_min_members matches Some(min) && 2 < min)
}

pub open spec fn snapshot_output(
    r: CliOutput,
    json: bool,
    filter_state: Option<RoomStateArg>,
    filter_min_members: Option<usize>,
) -> bool {
    if demo_filtered_out(filter_state, filter_min_members) {
        r matches CliOutput::Text(t) && t@ == no_match_text()
    } else if json {
        r matches CliOutput::SnapshotJson(s) && s@ == cli_demo_snapshot()
    } else {
        r matches CliOutput::Text(t) && t@ == room_snapshot_text(cli_demo_snapshot())
    }
}

/// The snapshot command: the demo room's snapshot, unless the filters
/// exclude it.
pub fn render_snapshot(
    json: bool,
    filter_state: Option<RoomStateArg>,
    filter_min_members: Option<usize>,
) -> (r: CliOutput)
    ensures
        snapshot_output(r, json, filter_state, filter_min_members),
{
    let snap = demo_snapshot();
    match filter_state {
        Some(state_filter) => {
            if !state_filter.matches(snap.room.state) {
                return CliOutput::Text("No rooms match the filter.\n".to_owned());
            }
        },
        None => {},
    }
    match filter_min_members {
        Some(min) => {
            if snap.members.len() < min {
                return CliOutput::Text("No rooms match the filter.\n".to_owned());
            }
        },
        None => {},
    }
    if json {
        CliOutput::SnapshotJson(snap)
    } else {
        let text = render_room_snapshot(&snap);
        CliOutput::Text(text)
    }
}

pub open spec fn party_command_output(c: PartyCommand, r: CliOutput) -> bool {
    match c {
        PartyCommand::Permissions { role } => r matches CliOutput::Text(t) && t@ == permissions_text(
            role,
        ),
        PartyCommand::Snapshot { json, filter_state, filter_min_members } => snapshot_output(
            r,
            json,
            filter_state,
            filter_min_members,
        ),
        _ => r matches CliOutput::Text(t) && t@ == stub_text(stub_of(c).0, stub_of(c).1),
    }
}

fn stub_with_target(prefix: &str, target: &String, required: PartyPermission) -> (r: CliOutput)
    ensures
        r matches CliOutput::Text(t) && t@ == stub_text(prefix@ + target@, Some(required)),
{
    let action = concat(prefix, target.as_str());
    CliOutput::Text(render_party_stub(action.as_str(), Some(required)))
}

pub fn render_party_command(command: &PartyCommand) -> (r: CliOutput)
    ensures
        party_command_output(*command, r),
{
    match command {
        PartyCommand::Create => CliOutput::Text(
            render_party_stub("create room", Some(PartyPermission::CreateRoom)),
        ),
        PartyCommand::Rooms => CliOutput::Text(
            render_party_stub("list rooms", Some(PartyPermission::DiscoverRooms)),
        ),
        PartyCommand::Join { room_id } => stub_with_target(
            "join room ",
            room_id,
            PartyPermission::JoinRoom,
        ),
        PartyCommand::JoinCode { code } => stub_with_target(
            "join with invite code ",
            code,
            PartyPermission::JoinRoom,
        ),
        PartyCommand::Leave => CliOutput::Text(render_party_stub("leave room", None)),
        PartyCommand::Members => CliOutput::Text(
            render_party_stub("list members", Some(PartyPermission::ViewMembers)),
        ),
        PartyCommand::Approve { client_id } => stub_with_target(
            "approve client ",
            client_id,
            PartyPermission::ApproveJoin,
        ),
        PartyCommand::Reject { client_id } => stub_with_target(
            "reject client ",
            client_id,
            PartyPermission::RejectJoin,
        ),
        PartyCommand::Promote { client_id } => stub_with_target(
            "promote client ",
            client_id,
            PartyPermission::PromoteClient,
        ),
        PartyCommand::Demote { client_id } => stub_with_target(
            "demote client ",
            client_id,
            PartyPermission::DemoteClient,
        ),
        PartyCommand::TransferAdmin { client_id } => stub_with_target(
            "transfer admin to ",
            client_id,
            PartyPermission::TransferAdmin,
        ),
        PartyCommand::Kick { client_id } => stub_with_target(
            "kick client ",
            client_id,
            PartyPermission::KickClient,
        ),
        PartyCommand::Lock => CliOutput::Text(
            render_party_stub("lock room", Some(PartyPermission::LockRoom)),
        ),
        PartyCommand::Unlock => CliOutput::Text(
            render_party_stub("unlock room", Some(PartyPermission::LockRoom)),
        ),
        PartyCommand::End => CliOutput::Text(
            render_party_stub("end room", Some(PartyPermission::EndRoom)),
        ),
        PartyCommand::Queue => CliOutput::Text(
            render_party_stub("show queue", Some(PartyPermission::ViewMembers)),
        ),
        PartyCommand::Vote { queue_item_id } => stub_with_target(
            "vote for queue item ",
            queue_item_id,
            PartyPermission::VoteTrack,
        ),
        PartyCommand::Suggest { track_ref } => stub_with_target(
            "suggest track ref ",
            track_ref,
            PartyPermission::SuggestTrack,
        ),
        PartyCommand::Permissions { role } => CliOutput::Text(render_permissions(*role)),
        PartyCommand::Snapshot { json, filter_state, filter_min_members } => render_snapshot(
            *json,
            *filter_state,
            *filter_min_members,
        ),
    }
}

/// What the command line prints for a command; no command means status.
pub fn render_command(command: Option<&Command>) -> (r: CliOutput)
    ensures
        match command {
            None => r matches CliOutput::Text(t) && t@ == status_text(),
            Some(Command::Status) => r matches CliOutput::Text(t) && t@ == status_text(),
            Some(Command::Party { command }) => party_command_output(*command, r),
        },
{
    match command {
        None | Some(Command::Status) => CliOutput::Text(render_status()),
        Some(Command::Party { command }) => render_party_command(command),
    }
}

} // verus!
