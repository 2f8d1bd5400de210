//! Role-based access control for party rooms.

use vstd::prelude::*;

use crate::model::{PartyClient, PartyClientView};

verus! {

/// A member's role. Earlier variants carry more privilege.
#[derive(Debug, Clone, Copy, PartialEq, Eq, PartialOrd, Ord, Hash, Structural)]
pub enum PartyRole {
    Admin,
    Moderator,
    Client,
    Guest,
}

#[derive(Debug, Clone, Copy, PartialEq, Eq, PartialOrd, Ord, Hash, Structural)]
pub enum PartyPermission {
    CreateRoom,
    DiscoverRooms,
    JoinRoom,
    ApproveJoin,
    RejectJoin,
    LockRoom,
    EndRoom,
    TransferAdmin,
    PromoteClient,
    DemoteClient,
    KickClient,
    ControlPlayback,
    SeekPlayback,
    ModifyQueue,
    SuggestTrack,
    RemoveOwnSuggestion,
    RemoveAnyTrack,
    VoteTrack,
    VoteSkip,
    ChangeRoomSettings,
    ViewMembers,
    SendChatMessage,
}

#[derive(Debug, Clone, Copy, PartialEq, Eq, Structural)]
pub enum PermissionError {
    Denied { role: PartyRole, permission: PartyPermission },
}

/// The privilege rank of a role: 0 is the highest.
pub open spec fn role_rank(role: PartyRole) -> nat {
    match role {
        PartyRole::Admin => 0,
        PartyRole::Moderator => 1,
        PartyRole::Client => 2,
        PartyRole::Guest => 3,
    }
}

/// The permissions that each role grants.
pub open spec fn role_grants(role: PartyRole, permission: PartyPermission) -> bool {
    match role {
        PartyRole::Admin => true,
        PartyRole::Moderator => match permission {
            PartyPermission::DiscoverRooms
            | PartyPermission::JoinRoom
            | PartyPermission::ControlPlayback
            | PartyPermission::SeekPlayback
            | PartyPermission::ModifyQueue
            | PartyPermission::SuggestTrack
            | PartyPermission::RemoveOwnSuggestion
            | PartyPermission::RemoveAnyTrack
            | PartyPermission::VoteTrack
            | PartyPermission::VoteSkip
            | PartyPermission::ViewMembers
            | PartyPermission::SendChatMessage => true,
            _ => false,
        },
        PartyRole::Client => match permission {
            PartyPermission::DiscoverRooms
            | PartyPermission::JoinRoom
            | PartyPermission::SuggestTrack
            | PartyPermission::RemoveOwnSuggestion
            | PartyPermission::VoteTrack
            | PartyPermission::VoteSkip
            | PartyPermission::ViewMembers
            | PartyPermission::SendChatMessage => true,
            _ => false,
        },
        PartyRole::Guest => match permission {
            PartyPermission::DiscoverRooms
            | PartyPermission::JoinRoom
            | PartyPermission::ViewMembers => true,
            _ => false,
        },
    }
}

/// A member holds a permission when its role grants it or its overrides name it.
pub open spec fn holds_permission(client: PartyClientView, permission: PartyPermission) -> bool {
    client.permissions_override.contains(permission) || role_grants(client.role, permission)
}

impl PartyRole {
    /// The privilege rank of the role: 0 is the highest.
    pub fn rank(self) -> (r: u8)
        ensures
            r == role_rank(self),
    {
        match self {
            PartyRole::Admin => 0,
            PartyRole::Moderator => 1,
            PartyRole::Client => 2,
            PartyRole::Guest => 3,
        }
    }
}

/// Whether `role` grants `permission`.
pub fn can(role: PartyRole, permission: PartyPermission) -> (r: bool)
    ensures
        r == role_grants(role, permission),
{
    match role {
        PartyRole::Admin => true,
        PartyRole::Moderator => match permission {
            PartyPermission::DiscoverRooms
            | PartyPermission::JoinRoom
            | PartyPermission::ControlPlayback
            | PartyPermission::SeekPlayback
            | PartyPermission::ModifyQueue
            | PartyPermission::SuggestTrack
            | PartyPermission::RemoveOwnSuggestion
            | PartyPermission::RemoveAnyTrack
            | PartyPermission::VoteTrack
            | PartyPermission::VoteSkip
            | PartyPermission::ViewMembers
            | PartyPermission::SendChatMessage => true,
            _ => false,
        },
        PartyRole::Client => match permission {
            PartyPermission::DiscoverRooms
            | PartyPermission::JoinRoom
            | PartyPermission::SuggestTrack
            | PartyPermission::RemoveOwnSuggestion
            | PartyPermission::VoteTrack
            | PartyPermission::VoteSkip
            | PartyPermission::ViewMembers
            | PartyPermission::SendChatMessage => true,
            _ => false,
        },
        PartyRole::Guest => match permission {
            PartyPermission::DiscoverRooms
            | PartyPermission::JoinRoom
            | PartyPermission::ViewMembers => true,
            _ => false,
        },
    }
}

/// Whether `permission` occurs in `list`.
pub fn permission_listed(list: &Vec<PartyPermission>, permission: PartyPermission) -> (r: bool)
    ensures
        r == list@.contains(permission),
{
    let mut i: usize = 0;
    while i < list.len()
        invariant
            i <= list@.len(),
            forall|j: int| 0 <= j < i ==> list@[j] != permission,
        decreases list@.len() - i,
    {
        if list[i] == permission {
            assert(list@[i as int] == permission);
            return true;
        }
        i = i + 1;
    }
    false
}

/// Succeeds when the client holds `permission`, through an override or its role;
/// otherwise names the client's role and the permission it lacks.
pub fn require_permission(client: &PartyClient, permission: PartyPermission) -> (r: Result<
    (),
    PermissionError,
>)
    ensures
        r is Ok <==> holds_permission(client@, permission),
        r is Err ==> r == Err::<(), PermissionError>(
            PermissionError::Denied { role: client.role, permission },
        ),
{
    if permission_listed(&client.permissions_override, permission) || can(client.role, permission) {
        return Ok(());
    }
    Err(PermissionError::Denied { role: client.role, permission })
}

/// The admin role grants every permission.
pub proof fn lemma_admin_grants_everything(permission: PartyPermission)
    ensures
        role_grants(PartyRole::Admin, permission),
{
}

/// Roles are nested: a role grants every permission that a less privileged
/// role grants.
pub proof fn lemma_roles_are_nested(
    higher: PartyRole,
    lower: PartyRole,
    permission: PartyPermission,
)
    requires
        role_rank(higher) <= role_rank(lower),
        role_grants(lower, permission),
    ensures
        role_grants(higher, permission),
{
}

/// The permission table, role by role: an admin may do everything; a
/// moderator may also steer playback and the whole queue; a client may
/// suggest, remove its own suggestions, vote and vote to skip; a guest may
/// only find and join rooms and see who is in them. Everyone but a guest may
/// chat.
pub proof fn lemma_permission_table(p: PartyPermission)
    ensures
        role_grants(PartyRole::Admin, p),
        role_grants(PartyRole::Moderator, p) <==> (p == PartyPermission::DiscoverRooms || p
            == PartyPermission::JoinRoom || p == PartyPermission::ControlPlayback || p
            == PartyPermission::SeekPlayback || p == PartyPermission::ModifyQueue || p
            == PartyPermission::SuggestTrack || p == PartyPermission::RemoveOwnSuggestion || p
            == PartyPermission::RemoveAnyTrack || p == PartyPermission::VoteTrack || p
            == PartyPermission::VoteSkip || p == PartyPermission::ViewMembers || p
            == PartyPermission::SendChatMessage),
        role_grants(PartyRole::Client, p) <==> (p == PartyPermission::DiscoverRooms || p
            == PartyPermission::JoinRoom || p == PartyPermission::SuggestTrack || p
            == PartyPermission::RemoveOwnSuggestion || p == PartyPermission::VoteTrack || p
            == PartyPermission::VoteSkip || p == PartyPermission::ViewMembers || p
            == PartyPermission::SendChatMessage),
        role_grants(PartyRole::Guest, p) <==> (p == PartyPermission::DiscoverRooms || p
            == PartyPermission::JoinRoom || p == PartyPermission::ViewMembers),
{
}

/// A member without overrides holds exactly what its role grants; an
/// override adds its permission whatever the role.
pub proof fn lemma_overrides_add_permissions(client: PartyClientView, p: PartyPermission)
    ensures
        client.permissions_override.len() == 0 ==> (holds_permission(client, p) <==> role_grants(
            client.role,
            p,
        )),
        client.permissions_override.contains(p) ==> holds_permission(client, p),
{
}

} // verus!
