//! Verified core of the Meowify media client: party rooms with role-based
//! access control, the room protocol's invite codes, the playback queue,
//! and the YouTube / SoundCloud request rules.

pub mod text;
pub mod keyed;
pub mod model;
pub mod rbac;
pub mod digest;
pub mod protocol;
pub mod room;
pub mod room_laws;
pub mod room_behaviour;
pub mod playback;
pub mod request;
pub mod youtube;
pub mod auth;
pub mod config;
pub mod library;
pub mod discovery;
pub mod labels;
pub mod demo;
pub mod cli;
pub mod tui;
pub mod gtk_shell;
