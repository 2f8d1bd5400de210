//! The desktop shell's logic: its sections, the offline policy it shows,
//! the playback line of its party card and the card's admin actions.

use vstd::prelude::*;

use crate::model::{RoomSnapshot, RoomSnapshotView, RoomState, TrackRef, TrackRefView};
use crate::rbac::PartyPermission;
use crate::request::concat;
use crate::room::{RoomServer, room_state_step};
use crate::text::{decimal, push_decimal};
use crate::tui::action_event;
use crate::youtube::can_persist_youtube_audio;

verus! {

/// A section of the shell's sidebar.
#[derive(Debug, Clone, Copy, PartialEq, Eq)]
pub struct ShellSection {
    pub title: &'static str,
    pub detail: &'static str,
}

/// The sidebar's sections, in order, as title and detail.
pub open spec fn shell_section_texts() -> Seq<(Seq<char>, Seq<char>)> {
    seq![
        ("Home"@, "Status and setup checklist"@),
        ("Search"@, "YouTube Data API v3 search only"@),
        ("Library"@, "Local playlists, follows, favorites"@),
        ("Party"@, "LAN room controls and permissions"@),
        ("Offline"@, "Local imports, no YouTube audio persistence"@),
    ]
}

pub fn shell_sections() -> (r: [ShellSection; 5])
    ensures
        forall|i: int|
            0 <= i < 5 ==> (#[trigger] r@[i].title@, r@[i].detail@) == shell_section_texts()[i],
{
    let r = [
        ShellSection { title: "Home", detail: "Status and setup checklist" },
        ShellSection { title: "Search", detail: "YouTube Data API v3 search only" },
        ShellSection { title: "Library", detail: "Local playlists, follows, favorites" },
        ShellSection { title: "Party", detail: "LAN room controls and permissions" },
        ShellSection { title: "Offline", detail: "Local imports, no YouTube audio persistence" },
    ];
    assert forall|i: int| 0 <= i < 5 implies (#[trigger] r@[i].title@, r@[i].detail@)
        == shell_section_texts()[i] by {
        if i == 0 {
        } else if i == 1 {
        } else if i == 2 {
        } else if i == 3 {
        } else {
        }
    }
    r
}

pub open spec fn offline_policy(persist: bool) -> Seq<char> {
    if persist {
        "YouTube audio persistence is enabled. Verify explicit rights before use."@
    } else {
        "YouTube audio persistence is disabled. Offline mode uses local files and metadata references."@
    }
}

/// The offline policy as the shell states it.
pub fn offline_policy_text() -> (r: &'static str)
    ensures
        r@ == offline_policy(false),
{
    if can_persist_youtube_audio() {
        "YouTube audio persistence is enabled. Verify explicit rights before use."
    } else {
        "YouTube audio persistence is disabled. Offline mode uses local files and metadata references."
    }
}

/// The party card's playback line.
pub open spec fn card_playback_text(s: RoomSnapshotView) -> Seq<char> {
    match s.playback_state.track_ref {
        Some(TrackRefView::YouTube { title, video_id, .. }) => "Playing: "@ + match title {
            Some(t) => t,
            None => "(no title)"@,
        } + " ("@ + video_id + ") — "@ + decimal(s.playback_state.position_ms as nat) + " ms"@,
        Some(TrackRefView::ImportedLocalFile { title, .. }) => "Playing: [local] "@ + title
            + " — "@ + decimal(s.playback_state.position_ms as nat) + " ms"@,
        None => "Playback: idle"@,
    }
}

pub fn party_playback_text(snap: &RoomSnapshot) -> (r: String)
    ensures
        r@ == card_playback_text(snap@),
{
    let pb = &snap.playback_state;
    match &pb.track_ref {
        Some(TrackRef::YouTube { title, video_id, .. }) => {
            let mut out = "Playing: ".to_owned();
            match title {
                Some(t) => out.append(t.as_str()),
                None => out.append("(no title)"),
            }
            out.append(" (");
            out.append(video_id.as_str());
            out.append(") — ");
            push_decimal(&mut out, pb.position_ms);
            out.append(" ms");
            assert(out@ =~= card_playback_text(snap@));
            out
        },
        Some(TrackRef::ImportedLocalFile { title, .. }) => {
            let mut out = concat("Playing: [local] ", title.as_str());
            out.append(" — ");
            push_decimal(&mut out, pb.position_ms);
            out.append(" ms");
            assert(out@ =~= card_playback_text(snap@));
            out
        },
        None => "Playback: idle".to_owned(),
    }
}

/// The card's "Lock" button: the demo room's admin locks it.
pub fn party_lock_event(room: &mut RoomServer) -> (r: String)
    ensures
        ({
            let (m, res) = room_state_step(
                old(room)@,
                "admin-1"@,
                PartyPermission::LockRoom,
                RoomState::Locked,
            );
            &&& final(room)@ == m
            &&& r@ == action_event(res, "Room locked."@, "Lock failed: "@)
        }),
{
    match room.lock_room("admin-1") {
        Ok(()) => "Room locked.".to_owned(),
        Err(e) => {
            let m = e.message();
            concat("Lock failed: ", m.as_str())
        },
    }
}

/// The card's "Unlock" button: the demo room's admin unlocks it.
pub fn party_unlock_event(room: &mut RoomServer) -> (r: String)
    ensures
        ({
            let (m, res) = room_state_step(
                old(room)@,
                "admin-1"@,
                PartyPermission::LockRoom,
                RoomState::Active,
            );
            &&& final(room)@ == m
            &&& r@ == action_event(res, "Room unlocked."@, "Unlock failed: "@)
        }),
{
    match room.unlock_room("admin-1") {
        Ok(()) => "Room unlocked.".to_owned(),
        Err(e) => {
            let m = e.message();
            concat("Unlock failed: ", m.as_str())
        },
    }
}

/// The card's "End Room" button: the demo room's admin ends it.
pub fn party_end_event(room: &mut RoomServer) -> (r: String)
    ensures
        ({
            let (m, res) = room_state_step(
                old(room)@,
                "admin-1"@,
                PartyPermission::EndRoom,
                RoomState::Ended,
            );
            &&& final(room)@ == m
            &&& r@ == action_event(res, "Room ended."@, "End failed: "@)
        }),
{
    match room.end_room("admin-1") {
        Ok(()) => "Room ended.".to_owned(),
        Err(e) => {
            let m = e.message();
            concat("End failed: ", m.as_str())
        },
    }
}

} // verus!
