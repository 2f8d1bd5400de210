//! The terminal front end's logic: its views, key bindings, party actions
//! and the lines that describe the room.

use vstd::prelude::*;

use crate::labels::{room_error_text, room_state_label};
use crate::keyed::lemma_sorted_len;
use crate::model::{PlaybackSyncView, RoomSnapshot, RoomSnapshotView, TrackRef, TrackRefView};
use crate::protocol::PROTOCOL_VERSION;
use crate::youtube::can_persist_youtube_audio;
use crate::request::concat;
use crate::room::{RoomModel, RoomServer, room_state_step};
use crate::rbac::PartyPermission;
use crate::model::RoomState;
use crate::text::{decimal, push_decimal};

verus! {

/// The screens of the terminal front end, in navigation order.
#[derive(Debug, Clone, Copy, PartialEq, Eq, Structural)]
pub enum TuiView {
    Home,
    Search,
    Library,
    Party,
    Offline,
}

pub open spec fn view_title(v: TuiView) -> Seq<char> {
    match v {
        TuiView::Home => "Home"@,
        TuiView::Search => "Search"@,
        TuiView::Library => "Library"@,
        TuiView::Party => "Party"@,
        TuiView::Offline => "Offline"@,
    }
}

pub open spec fn view_detail(v: TuiView) -> Seq<char> {
    match v {
        TuiView::Home => "Status and setup checklist"@,
        TuiView::Search => "YouTube Data API v3 search after OAuth setup"@,
        TuiView::Library => "Local playlists, follows, favorites, and imports"@,
        TuiView::Party => "LAN room state, queue, roles, and permissions"@,
        TuiView::Offline => "Local files and metadata refs; no YouTube audio persistence"@,
    }
}

/// The views in navigation order.
pub open spec fn view_order() -> Seq<TuiView> {
    seq![TuiView::Home, TuiView::Search, TuiView::Library, TuiView::Party, TuiView::Offline]
}

pub const VIEW_COUNT: usize = 5;

impl TuiView {
    pub fn title(self) -> (r: &'static str)
        ensures
            r@ == view_title(self),
    {
        match self {
            TuiView::Home => "Home",
            TuiView::Search => "Search",
            TuiView::Library => "Library",
            TuiView::Party => "Party",
            TuiView::Offline => "Offline",
        }
    }

    pub fn detail(self) -> (r: &'static str)
        ensures
            r@ == view_detail(self),
    {
        match self {
            TuiView::Home => "Status and setup checklist",
            TuiView::Search => "YouTube Data API v3 search after OAuth setup",
            TuiView::Library => "Local playlists, follows, favorites, and imports",
            TuiView::Party => "LAN room state, queue, roles, and permissions",
            TuiView::Offline => "Local files and metadata refs; no YouTube audio persistence",
        }
    }

    /// The view at a position of the navigation order.
    pub fn at(index: usize) -> (r: Self)
        requires
            index < VIEW_COUNT,
        ensures
            r == view_order()[index as int],
    {
        match index {
            0 => TuiView::Home,
            1 => TuiView::Search,
            2 => TuiView::Library,
            3 => TuiView::Party,
            _ => TuiView::Offline,
        }
    }
}

/// Moving down the list wraps from the last view to the first.
pub fn next_view_index(selected: usize) -> (r: usize)
    requires
        selected < VIEW_COUNT,
    ensures
        r == (selected + 1) % (VIEW_COUNT as int),
{
    (selected + 1) % VIEW_COUNT
}

/// Moving up the list wraps from the first view to the last.
pub fn previous_view_index(selected: usize) -> (r: usize)
    requires
        selected < VIEW_COUNT,
    ensures
        r == if selected == 0 {
            VIEW_COUNT - 1
        } else {
            selected - 1
        },
{
    if selected == 0 {
        VIEW_COUNT - 1
    } else {
        selected - 1
    }
}

/// Moving down then up, or up then down, returns to the same view.
pub proof fn lemma_navigation_round_trip(selected: int)
    requires
        0 <= selected < VIEW_COUNT,
    ensures
        ({
            let down = (selected + 1) % (VIEW_COUNT as int);
            let up = if selected == 0 {
                VIEW_COUNT - 1
            } else {
                selected - 1
            };
            &&& (if down == 0 {
                VIEW_COUNT - 1
            } else {
                down - 1
            }) == selected
            &&& (up + 1) % (VIEW_COUNT as int) == selected
        }),
{
}

/// A key as the terminal reports it.
#[derive(Debug, Clone, Copy, PartialEq, Eq, Structural)]
pub enum TuiKey {
    Char(char),
    Esc,
    Up,
    Down,
    Other,
}

/// What a key asks for.
#[derive(Debug, Clone, Copy, PartialEq, Eq, Structural)]
pub enum TuiAction {
    Quit,
    NextView,
    PreviousView,
    TogglePlayback,
    StopPlayback,
    SkipNext,
    SkipPrevious,
    LockRoom,
    UnlockRoom,
    EndRoom,
    Ignore,
}

pub open spec fn key_binding(key: TuiKey) -> TuiAction {
    match key {
        TuiKey::Char('q') | TuiKey::Esc => TuiAction::Quit,
        TuiKey::Down | TuiKey::Char('j') => TuiAction::NextView,
        TuiKey::Up | TuiKey::Char('k') => TuiAction::PreviousView,
        TuiKey::Char(' ') => TuiAction::TogglePlayback,
        TuiKey::Char('s') => TuiAction::StopPlayback,
        TuiKey::Char('n') => TuiAction::SkipNext,
        TuiKey::Char('p') => TuiAction::SkipPrevious,
        TuiKey::Char('l') => TuiAction::LockRoom,
        TuiKey::Char('u') => TuiAction::UnlockRoom,
        TuiKey::Char('e') => TuiAction::EndRoom,
        _ => TuiAction::Ignore,
    }
}

pub fn key_action(key: TuiKey) -> (r: TuiAction)
    ensures
        r == key_binding(key),
{
    match key {
        TuiKey::Char('q') | TuiKey::Esc => TuiAction::Quit,
        TuiKey::Down | TuiKey::Char('j') => TuiAction::NextView,
        TuiKey::Up | TuiKey::Char('k') => TuiAction::PreviousView,
        TuiKey::Char(' ') => TuiAction::TogglePlayback,
        TuiKey::Char('s') => TuiAction::StopPlayback,
        TuiKey::Char('n') => TuiAction::SkipNext,
        TuiKey::Char('p') => TuiAction::SkipPrevious,
        TuiKey::Char('l') => TuiAction::LockRoom,
        TuiKey::Char('u') => TuiAction::UnlockRoom,
        TuiKey::Char('e') => TuiAction::EndRoom,
        _ => TuiAction::Ignore,
    }
}

/// The event line after a room action: its success text, or the failure
/// prefix and the error's message.
pub open spec fn action_event(
    r: Result<(), crate::room::RoomErrorView>,
    done: Seq<char>,
    failed: Seq<char>,
) -> Seq<char> {
    match r {
        Ok(_) => done,
        Err(e) => failed + room_error_text(e),
    }
}

/// The admin of the front end's demo room locks it.
pub fn lock_room_event(room: &mut RoomServer) -> (r: String)
    ensures
        ({
            let (m, res) = room_state_step(
                old(room)@,
                "admin-1"@,
                PartyPermission::LockRoom,
                RoomState::Locked,
            );
            &&& final(room)@ == m
            &&& r@ == action_event(res, "room locked"@, "lock failed: "@)
        }),
{
    match room.lock_room("admin-1") {
        Ok(()) => "room locked".to_owned(),
        Err(e) => {
            let m = e.message();
            concat("lock failed: ", m.as_str())
        },
    }
}

/// The admin of the front end's demo room unlocks it.
pub fn unlock_room_event(room: &mut RoomServer) -> (r: String)
    ensures
        ({
            let (m, res) = room_state_step(
                old(room)@,
                "admin-1"@,
                PartyPermission::LockRoom,
                RoomState::Active,
            );
            &&& final(room)@ == m
            &&& r@ == action_event(res, "room unlocked"@, "unlock failed: "@)
        }),
{
    match room.unlock_room("admin-1") {
        Ok(()) => "room unlocked".to_owned(),
        Err(e) => {
            let m = e.message();
            concat("unlock failed: ", m.as_str())
        },
    }
}

/// The admin of the front end's demo room ends it.
pub fn end_room_event(room: &mut RoomServer) -> (r: String)
    ensures
        ({
            let (m, res) = room_state_step(
                old(room)@,
                "admin-1"@,
                PartyPermission::EndRoom,
                RoomState::Ended,
            );
            &&& final(room)@ == m
            &&& r@ == action_event(res, "room ended"@, "end failed: "@)
        }),
{
    match room.end_room("admin-1") {
        Ok(()) => "room ended".to_owned(),
        Err(e) => {
            let m = e.message();
            concat("end failed: ", m.as_str())
        },
    }
}

pub open spec fn party_room_text(s: RoomSnapshotView) -> Seq<char> {
    "Room: "@ + s.room.room_name + " | State: "@ + room_state_label(s.room.state)
        + " | Protocol v"@ + decimal(s.protocol_version as nat)
}

/// What the room is playing, as the party view says it.
pub open spec fn now_playing_text(p: PlaybackSyncView) -> Seq<char> {
    match p.track_ref {
        Some(TrackRefView::YouTube { title, video_id, .. }) => "Now playing: "@ + match title {
            Some(t) => t,
            None => "(no title)"@,
        } + " ("@ + video_id + ") at "@ + decimal(p.position_ms as nat) + " ms"@,
        Some(TrackRefView::ImportedLocalFile { title, .. }) => "Now playing: [local] "@ + title
            + " at "@ + decimal(p.position_ms as nat) + " ms"@,
        None => "Playback: idle"@,
    }
}

pub open spec fn party_playback_text(s: RoomSnapshotView) -> Seq<char> {
    now_playing_text(s.playback_state)
}

pub fn party_room_line(snap: &RoomSnapshot) -> (r: String)
    ensures
        r@ == party_room_text(snap@),
{
    let mut out = concat("Room: ", snap.room.room_name.as_str());
    out.append(" | State: ");
    out.append(snap.room.state.label());
    out.append(" | Protocol v");
    push_decimal(&mut out, snap.protocol_version as u64);
    assert(out@ =~= party_room_text(snap@));
    out
}

pub fn party_members_line(snap: &RoomSnapshot) -> (r: String)
    ensures
        r@ == "Members: "@ + decimal(snap@.members.len()),
{
    let mut out = "Members: ".to_owned();
    push_decimal(&mut out, snap.members.len() as u64);
    out
}

pub fn party_queue_line(snap: &RoomSnapshot) -> (r: String)
    ensures
        r@ == "Queue: "@ + decimal(snap@.queue.len()) + " item(s)"@,
{
    let mut out = "Queue: ".to_owned();
    push_decimal(&mut out, snap.queue.len() as u64);
    out.append(" item(s)");
    out
}

pub fn party_playback_line(snap: &RoomSnapshot) -> (r: String)
    ensures
        r@ == party_playback_text(snap@),
{
    let pb = &snap.playback_state;
    match &pb.track_ref {
        Some(TrackRef::YouTube { title, video_id, .. }) => {
            let mut out = "Now playing: ".to_owned();
            match title {
                Some(t) => out.append(t.as_str()),
                None => out.append("(no title)"),
            }
            out.append(" (");
            out.append(video_id.as_str());
            out.append(") at ");
            push_decimal(&mut out, pb.position_ms);
            out.append(" ms");
            assert(out@ =~= party_playback_text(snap@));
            out
        },
        Some(TrackRef::ImportedLocalFile { title, .. }) => {
            let mut out = concat("Now playing: [local] ", title.as_str());
            out.append(" at ");
            push_decimal(&mut out, pb.position_ms);
            out.append(" ms");
            assert(out@ =~= party_playback_text(snap@));
            out
        },
        None => "Playback: idle".to_owned(),
    }
}

/// The offline policy as the terminal front end states it.
pub open spec fn tui_offline_policy(persist: bool) -> Seq<char> {
    if persist {
        "YouTube audio persistence: enabled, verify explicit rights before use"@
    } else {
        "YouTube audio persistence: disabled; use local imports and metadata refs"@
    }
}

/// The lines that describe the party room in the detail panel.
pub open spec fn party_detail_lines(m: RoomModel) -> Seq<Seq<char>> {
    seq![
        ""@,
        "Room: "@ + m.room.room_name + " | State: "@ + room_state_label(m.room.state)
            + " | Protocol v"@ + decimal(PROTOCOL_VERSION as nat),
        "Members: "@ + decimal(m.members.dom().len()),
        "Queue: "@ + decimal(m.queue.len()) + " item(s)"@,
        now_playing_text(m.playback),
        "Party keys: l lock room, u unlock room, e end room"@,
    ]
}

/// The detail panel's lines: the view, the keys, the playback lines, the
/// last event, the offline policy, and the party room on the party view.
pub open spec fn detail_text(
    view: TuiView,
    playback_lines: Seq<Seq<char>>,
    last_event: Seq<char>,
    room: RoomModel,
) -> Seq<Seq<char>> {
    seq![
        view_title(view),
        ""@,
        view_detail(view),
        ""@,
        "Keys: j/down next view, k/up previous view, space play/pause, s stop, n/p skip, q/esc quit"@,
        ""@,
    ] + playback_lines + seq!["Last event: "@ + last_event, ""@, tui_offline_policy(false)] + if view
        == TuiView::Party {
        party_detail_lines(room)
    } else {
        seq![]
    }
}

/// The text lines of the detail panel, given the three lines that describe
/// local playback (status, queue, current item).
pub fn detail_lines(
    view: TuiView,
    playback_status: &str,
    playback_queue: &str,
    playback_current: &str,
    last_event: &str,
    room: &RoomServer,
) -> (r: Vec<String>)
    ensures
        r@.map_values(|l: String| l@) == detail_text(
            view,
            seq![playback_status@, playback_queue@, playback_current@],
            last_event@,
            room@,
        ),
{
    proof {
        reveal_strlit("");
    }
    let offline_policy = if can_persist_youtube_audio() {
        "YouTube audio persistence: enabled, verify explicit rights before use"
    } else {
        "YouTube audio persistence: disabled; use local imports and metadata refs"
    };
    let mut lines: Vec<String> = Vec::new();
    lines.push(view.title().to_owned());
    lines.push(String::new());
    lines.push(view.detail().to_owned());
    lines.push(String::new());
    lines.push(
        "Keys: j/down next view, k/up previous view, space play/pause, s stop, n/p skip, q/esc quit".to_owned(),
    );
    lines.push(String::new());
    lines.push(playback_status.to_owned());
    lines.push(playback_queue.to_owned());
    lines.push(playback_current.to_owned());
    lines.push(concat("Last event: ", last_event));
    lines.push(String::new());
    lines.push(offline_policy.to_owned());
    let ghost base = lines@.map_values(|l: String| l@);
    if view == TuiView::Party {
        let snap = room.snapshot();
        proof {
            lemma_sorted_len(snap.members@);
        }
        lines.push(String::new());
        lines.push(party_room_line(&snap));
        lines.push(party_members_line(&snap));
        lines.push(party_queue_line(&snap));
        lines.push(party_playback_line(&snap));
        lines.push("Party keys: l lock room, u unlock room, e end room".to_owned());
        proof {
            assert(snap@.members.len() == room@.members.dom().len());
            let party = party_detail_lines(room@);
            let all = lines@.map_values(|l: String| l@);
            assert(all.len() == base.len() + 6);
            assert(all[base.len() as int + 0] == party[0]);
            assert(all[base.len() as int + 1] == party[1]);
            assert(all[base.len() as int + 2] == party[2]);
            assert(all[base.len() as int + 3] == party[3]);
            assert(all[base.len() as int + 4] == party[4]);
            assert(all[base.len() as int + 5] == party[5]);
            assert(all =~= base + party);
        }
    } else {
        assert(lines@.map_values(|l: String| l@) =~= base + seq![]);
    }
    proof {
        assert(base.len() == 12);
        assert(base[0] == view_title(view));
        assert(base[1] == ""@);
        assert(base[4] == "Keys: j/down next view, k/up previous view, space play/pause, s stop, n/p skip, q/esc quit"@);
        assert(base[6] == playback_status@);
        assert(base[9] == "Last event: "@ + last_event@);
        assert(base[11] == tui_offline_policy(false));
        assert(base =~= seq![
            view_title(view),
            ""@,
            view_detail(view),
            ""@,
            "Keys: j/down next view, k/up previous view, space play/pause, s stop, n/p skip, q/esc quit"@,
            ""@,
        ] + seq![playback_status@, playback_queue@, playback_current@] + seq![
            "Last event: "@ + last_event@,
            ""@,
            tui_offline_policy(false),
        ]);
    }
    lines
}

} // verus!
