//! The names under which states, roles and permissions are shown, and the
//! messages of the library's errors.

use vstd::prelude::*;

use crate::config::ConfigError;
use crate::model::{ConnectionState, RoomState, RoomVisibility};
use crate::playback::QueueError;
use crate::protocol::JoinError;
use crate::rbac::{PartyPermission, PartyRole, PermissionError};
use crate::request::concat;
use crate::room::{RoomError, RoomErrorView};

verus! {

pub open spec fn room_state_label(s: RoomState) -> Seq<char> {
    match s {
        RoomState::Creating => "Creating"@,
        RoomState::WaitingForClients => "WaitingForClients"@,
        RoomState::Active => "Active"@,
        RoomState::Locked => "Locked"@,
        RoomState::PausedByAdminDisconnect => "PausedByAdminDisconnect"@,
        RoomState::Ending => "Ending"@,
        RoomState::Ended => "Ended"@,
    }
}

pub open spec fn visibility_label(v: RoomVisibility) -> Seq<char> {
    match v {
        RoomVisibility::Private => "Private"@,
        RoomVisibility::LanVisible => "LanVisible"@,
        RoomVisibility::Open => "Open"@,
    }
}

pub open spec fn role_label(r: PartyRole) -> Seq<char> {
    match r {
        PartyRole::Admin => "Admin"@,
        PartyRole::Moderator => "Moderator"@,
        PartyRole::Client => "Client"@,
        PartyRole::Guest => "Guest"@,
    }
}

pub open spec fn connection_label(c: ConnectionState) -> Seq<char> {
    match c {
        ConnectionState::Pending => "Pending"@,
        ConnectionState::Connected => "Connected"@,
        ConnectionState::Disconnected => "Disconnected"@,
        ConnectionState::Kicked => "Kicked"@,
    }
}

pub open spec fn permission_label(p: PartyPermission) -> Seq<char> {
    match p {
        PartyPermission::CreateRoom => "CreateRoom"@,
        PartyPermission::DiscoverRooms => "DiscoverRooms"@,
        PartyPermission::JoinRoom => "JoinRoom"@,
        PartyPermission::ApproveJoin => "ApproveJoin"@,
        PartyPermission::RejectJoin => "RejectJoin"@,
        PartyPermission::LockRoom => "LockRoom"@,
        PartyPermission::EndRoom => "EndRoom"@,
        PartyPermission::TransferAdmin => "TransferAdmin"@,
        PartyPermission::PromoteClient => "PromoteClient"@,
        PartyPermission::DemoteClient => "DemoteClient"@,
        PartyPermission::KickClient => "KickClient"@,
        PartyPermission::ControlPlayback => "ControlPlayback"@,
        PartyPermission::SeekPlayback => "SeekPlayback"@,
        PartyPermission::ModifyQueue => "ModifyQueue"@,
        PartyPermission::SuggestTrack => "SuggestTrack"@,
        PartyPermission::RemoveOwnSuggestion => "RemoveOwnSuggestion"@,
        PartyPermission::RemoveAnyTrack => "RemoveAnyTrack"@,
        PartyPermission::VoteTrack => "VoteTrack"@,
        PartyPermission::VoteSkip => "VoteSkip"@,
        PartyPermission::ChangeRoomSettings => "ChangeRoomSettings"@,
        PartyPermission::ViewMembers => "ViewMembers"@,
        PartyPermission::SendChatMessage => "SendChatMessage"@,
    }
}

impl RoomState {
    pub fn label(self) -> (r: &'static str)
        ensures
            r@ == room_state_label(self),
    {
        match self {
            RoomState::Creating => "Creating",
            RoomState::WaitingForClients => "WaitingForClients",
            RoomState::Active => "Active",
            RoomState::Locked => "Locked",
            RoomState::PausedByAdminDisconnect => "PausedByAdminDisconnect",
            RoomState::Ending => "Ending",
            RoomState::Ended => "Ended",
        }
    }
}

impl RoomVisibility {
    pub fn label(self) -> (r: &'static str)
        ensures
            r@ == visibility_label(self),
    {
        match self {
            RoomVisibility::Private => "Private",
            RoomVisibility::LanVisible => "LanVisible",
            RoomVisibility::Open => "Open",
        }
    }
}

impl PartyRole {
    pub fn label(self) -> (r: &'static str)
        ensures
            r@ == role_label(self),
    {
        match self {
            PartyRole::Admin => "Admin",
            PartyRole::Moderator => "Moderator",
            PartyRole::Client => "Client",
            PartyRole::Guest => "Guest",
        }
    }
}

impl ConnectionState {
    pub fn label(self) -> (r: &'static str)
        ensures
            r@ == connection_label(self),
    {
        match self {
            ConnectionState::Pending => "Pending",
            ConnectionState::Connected => "Connected",
            ConnectionState::Disconnected => "Disconnected",
            ConnectionState::Kicked => "Kicked",
        }
    }
}

impl PartyPermission {
    pub fn label(self) -> (r: &'static str)
        ensures
            r@ == permission_label(self),
    {
        match self {
            PartyPermission::CreateRoom => "CreateRoom",
            PartyPermission::DiscoverRooms => "DiscoverRooms",
            PartyPermission::JoinRoom => "JoinRoom",
            PartyPermission::ApproveJoin => "ApproveJoin",
            PartyPermission::RejectJoin => "RejectJoin",
            PartyPermission::LockRoom => "LockRoom",
            PartyPermission::EndRoom => "EndRoom",
            PartyPermission::TransferAdmin => "TransferAdmin",
            PartyPermission::PromoteClient => "PromoteClient",
            PartyPermission::DemoteClient => "DemoteClient",
            PartyPermission::KickClient => "KickClient",
            PartyPermission::ControlPlayback => "ControlPlayback",
            PartyPermission::SeekPlayback => "SeekPlayback",
            PartyPermission::ModifyQueue => "ModifyQueue",
            PartyPermission::SuggestTrack => "SuggestTrack",
            PartyPermission::RemoveOwnSuggestion => "RemoveOwnSuggestion",
            PartyPermission::RemoveAnyTrack => "RemoveAnyTrack",
            PartyPermission::VoteTrack => "VoteTrack",
            PartyPermission::VoteSkip => "VoteSkip",
            PartyPermission::ChangeRoomSettings => "ChangeRoomSettings",
            PartyPermission::ViewMembers => "ViewMembers",
            PartyPermission::SendChatMessage => "SendChatMessage",
        }
    }
}

pub open spec fn permission_error_text(e: PermissionError) -> Seq<char> {
    match e {
        PermissionError::Denied { role, permission } => "role "@ + role_label(role)
            + " lacks permission "@ + permission_label(permission),
    }
}

pub open spec fn join_error_text(e: JoinError) -> Seq<char> {
    match e {
        JoinError::RoomClosed => "room is locked or not accepting joins"@,
        JoinError::InvalidInviteCode => "invite code is invalid"@,
    }
}

pub open spec fn room_error_text(e: RoomErrorView) -> Seq<char> {
    match e {
        RoomErrorView::JoinRejected(j) => "join rejected: "@ + join_error_text(j),
        RoomErrorView::ClientNotFound(id) => "client not found: "@ + id,
        RoomErrorView::Permission(p) => permission_error_text(p),
        RoomErrorView::JoinRequestNotFound(id) => "join request not found: "@ + id,
        RoomErrorView::QueueItemNotFound(id) => "queue item not found: "@ + id,
        RoomErrorView::CannotTargetSelf => "cannot target self"@,
        RoomErrorView::CannotTargetAdmin => "cannot target admin"@,
        RoomErrorView::AdminRoleNotAssignable => "the admin role passes only by transfer"@,
    }
}

pub open spec fn config_error_text(e: ConfigError) -> Seq<char> {
    match e {
        ConfigError::EmptyCacheLimit => "max cache size must be greater than zero"@,
        ConfigError::EmptyCacheDir => "cache directory must not be empty"@,
        ConfigError::ProjectDirsUnavailable => "project directories are unavailable on this platform"@,
    }
}

impl PermissionError {
    pub fn message(&self) -> (r: String)
        ensures
            r@ == permission_error_text(*self),
    {
        match self {
            PermissionError::Denied { role, permission } => {
                let mut s = concat("role ", role.label());
                s.append(" lacks permission ");
                s.append(permission.label());
                s
            },
        }
    }
}

impl JoinError {
    pub fn message(&self) -> (r: String)
        ensures
            r@ == join_error_text(*self),
    {
        match self {
            JoinError::RoomClosed => "room is locked or not accepting joins".to_owned(),
            JoinError::InvalidInviteCode => "invite code is invalid".to_owned(),
        }
    }
}

impl RoomError {
    pub fn message(&self) -> (r: String)
        ensures
            r@ == room_error_text(self@),
    {
        match self {
            RoomError::JoinRejected(e) => {
                let m = e.message();
                concat("join rejected: ", m.as_str())
            },
            RoomError::ClientNotFound(id) => concat("client not found: ", id.as_str()),
            RoomError::Permission(e) => e.message(),
            RoomError::JoinRequestNotFound(id) => concat("join request not found: ", id.as_str()),
            RoomError::QueueItemNotFound(id) => concat("queue item not found: ", id.as_str()),
            RoomError::CannotTargetSelf => "cannot target self".to_owned(),
            RoomError::CannotTargetAdmin => "cannot target admin".to_owned(),
            RoomError::AdminRoleNotAssignable => "the admin role passes only by transfer".to_owned(),
        }
    }
}

impl ConfigError {
    pub fn message(&self) -> (r: String)
        ensures
            r@ == config_error_text(*self),
    {
        match self {
            ConfigError::EmptyCacheLimit => "max cache size must be greater than zero".to_owned(),
            ConfigError::EmptyCacheDir => "cache directory must not be empty".to_owned(),
            ConfigError::ProjectDirsUnavailable => "project directories are unavailable on this platform".to_owned(),
        }
    }
}

impl QueueError {
    pub fn message(&self) -> (r: String)
        ensures
            r@ == "queue item not found"@,
    {
        "queue item not found".to_owned()
    }
}

} // verus!
