//! The local library: playlists of references, follows and favorites kept
//! on this device.

use vstd::prelude::*;

verus! {

#[derive(Debug, Clone, PartialEq, Eq)]
pub struct LocalPlaylist {
    pub id: String,
    pub name: String,
    pub created_at_ms: i64,
    pub updated_at_ms: i64,
}

#[derive(Debug, Clone, PartialEq, Eq)]
pub struct LocalPlaylistItem {
    pub id: String,
    pub playlist_id: String,
    pub position: i64,
    pub source_type: String,
    pub source_ref: String,
    pub title: String,
}

#[derive(Debug, Clone, Copy, PartialEq, Eq, Structural)]
pub enum LocalFavoriteKind {
    Track,
    Playlist,
}

/// The name under which a kind of favorite is stored.
pub open spec fn favorite_kind_name(kind: LocalFavoriteKind) -> Seq<char> {
    match kind {
        LocalFavoriteKind::Track => "track"@,
        LocalFavoriteKind::Playlist => "playlist"@,
    }
}

impl LocalFavoriteKind {
    pub fn as_str(self) -> (r: &'static str)
        ensures
            r@ == favorite_kind_name(self),
    {
        match self {
            LocalFavoriteKind::Track => "track",
            LocalFavoriteKind::Playlist => "playlist",
        }
    }
}

#[derive(Debug, Clone, PartialEq, Eq)]
pub struct LocalFavorite {
    pub kind: LocalFavoriteKind,
    pub urn: String,
    pub title: String,
    pub tags: Option<String>,
    pub notes: Option<String>,
}

#[derive(Debug, Clone, PartialEq, Eq)]
pub struct LocalFollow {
    pub user_urn: String,
    pub username: String,
    pub tags: Option<String>,
    pub notes: Option<String>,
}

} // verus!
