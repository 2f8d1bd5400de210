//! YouTube Data API v3: the data it returns, the offline rules for it, and
//! the documented requests, built as plain values.

use vstd::prelude::*;

use crate::request::{HttpMethod, RequestPlan, RequestPlanView, concat, pair, pairs_view};

verus! {

pub const YOUTUBE_API_BASE_URL: &'static str = "https://www.googleapis.com/youtube/v3";

#[derive(Debug, Clone, Copy, PartialEq, Eq, Structural)]
pub enum VideoPrivacyStatus {
    Public,
    Unlisted,
    Private,
}

#[derive(Debug, Clone, PartialEq, Eq)]
pub struct YouTubeVideo {
    pub id: String,
    pub title: String,
    pub channel_id: String,
    pub channel_title: String,
    pub description: Option<String>,
    pub duration_iso: Option<String>,
    pub privacy_status: Option<VideoPrivacyStatus>,
}

#[derive(Debug, Clone, PartialEq, Eq)]
pub struct YouTubeChannel {
    pub id: String,
    pub title: String,
    pub description: Option<String>,
    pub custom_url: Option<String>,
}

#[derive(Debug, Clone, PartialEq, Eq)]
pub struct YouTubePlaylist {
    pub id: String,
    pub title: String,
    pub channel_id: String,
    pub description: Option<String>,
}

#[derive(Debug, Clone, PartialEq, Eq)]
pub struct PagedResponse<T> {
    pub items: Vec<T>,
    pub next_page_token: Option<String>,
    pub total_results: Option<u64>,
}

#[derive(Debug, Clone, Copy, PartialEq, Eq, Structural)]
pub enum OfflineStatus {
    StreamOnly,
    UnavailableOffline,
    ImportedLocalFile,
}

/// A private video cannot be had offline; any other video is stream-only.
pub open spec fn offline_status_of(privacy: Option<VideoPrivacyStatus>) -> OfflineStatus {
    match privacy {
        Some(VideoPrivacyStatus::Private) => OfflineStatus::UnavailableOffline,
        _ => OfflineStatus::StreamOnly,
    }
}

impl YouTubeVideo {
    /// The standard watch page of the video.
    pub fn permalink_url(&self) -> (r: String)
        ensures
            r@ == "https://www.youtube.com/watch?v="@ + self.id@,
    {
        concat("https://www.youtube.com/watch?v=", self.id.as_str())
    }

    pub fn offline_status(&self) -> (r: OfflineStatus)
        ensures
            r == offline_status_of(self.privacy_status),
    {
        match self.privacy_status {
            Some(VideoPrivacyStatus::Private) => OfflineStatus::UnavailableOffline,
            _ => OfflineStatus::StreamOnly,
        }
    }
}

/// YouTube audio is never stored for offline use.
pub fn can_persist_youtube_audio() -> (r: bool)
    ensures
        !r,
{
    false
}

/// A client of the YouTube Data API: where to send requests and the token
/// that authorises them.
#[derive(Debug, Clone)]
pub struct YouTubeApiClient {
    pub base_url: String,
    pub access_token: String,
}

/// The `Authorization` header value for a bearer token.
pub open spec fn bearer(token: Seq<char>) -> Seq<char> {
    "Bearer "@ + token
}

/// A GET request to the API: the path under the base URL, the query, and
/// the authorisation and JSON headers.
pub open spec fn api_get(
    base_url: Seq<char>,
    token: Seq<char>,
    path: Seq<char>,
    query: Seq<(Seq<char>, Seq<char>)>,
) -> RequestPlanView {
    RequestPlanView {
        method: HttpMethod::Get,
        url: base_url + path,
        query,
        headers: seq![
            ("Authorization"@, bearer(token)),
            ("Accept"@, "application/json; charset=utf-8"@),
        ],
        form: seq![],
        json: seq![],
        basic_auth: None,
    }
}

/// The query of a search for one kind of resource.
pub open spec fn search_query(kind: Seq<char>, q: Seq<char>) -> Seq<(Seq<char>, Seq<char>)> {
    seq![("part"@, "snippet"@), ("type"@, kind), ("q"@, q), ("maxResults"@, "50"@)]
}

impl YouTubeApiClient {
    pub fn new(access_token: &str) -> (r: Self)
        ensures
            r.base_url@ == YOUTUBE_API_BASE_URL@,
            r.access_token@ == access_token@,
    {
        Self::with_base_url(YOUTUBE_API_BASE_URL, access_token)
    }

    pub fn with_base_url(base_url: &str, access_token: &str) -> (r: Self)
        ensures
            r.base_url@ == base_url@,
            r.access_token@ == access_token@,
    {
        YouTubeApiClient { base_url: base_url.to_owned(), access_token: access_token.to_owned() }
    }

    pub fn authorization_header_value(&self) -> (r: String)
        ensures
            r@ == bearer(self.access_token@),
    {
        concat("Bearer ", self.access_token.as_str())
    }

    fn get(&self, path: &str, query: Vec<(String, String)>) -> (r: RequestPlan)
        ensures
            r@ == api_get(self.base_url@, self.access_token@, path@, pairs_view(query@)),
    {
        let mut headers: Vec<(String, String)> = Vec::new();
        headers.push(("Authorization".to_owned(), self.authorization_header_value()));
        headers.push(pair("Accept", "application/json; charset=utf-8"));
        let r = RequestPlan {
            method: HttpMethod::Get,
            url: concat(self.base_url.as_str(), path),
            query,
            headers,
            form: Vec::new(),
            json: Vec::new(),
            basic_auth: None,
        };
        assert(pairs_view(r.headers@) =~= api_get(
            self.base_url@,
            self.access_token@,
            path@,
            pairs_view(query@),
        ).headers);
        assert(pairs_view(r.form@) =~= seq![]);
        assert(pairs_view(r.json@) =~= seq![]);
        r
    }

    fn search(&self, kind: &str, query: &str) -> (r: RequestPlan)
        ensures
            r@ == api_get(self.base_url@, self.access_token@, "/search"@, search_query(kind@, query@)),
    {
        let mut q: Vec<(String, String)> = Vec::new();
        q.push(pair("part", "snippet"));
        q.push(pair("type", kind));
        q.push(pair("q", query));
        q.push(pair("maxResults", "50"));
        assert(pairs_view(q@) =~= search_query(kind@, query@));
        self.get("/search", q)
    }

    pub fn search_videos_request(&self, query: &str) -> (r: RequestPlan)
        ensures
            r@ == api_get(
                self.base_url@,
                self.access_token@,
                "/search"@,
                search_query("video"@, query@),
            ),
    {
        self.search("video", query)
    }

    pub fn search_channels_request(&self, query: &str) -> (r: RequestPlan)
        ensures
            r@ == api_get(
                self.base_url@,
                self.access_token@,
                "/search"@,
                search_query("channel"@, query@),
            ),
    {
        self.search("channel", query)
    }

    pub fn search_playlists_request(&self, query: &str) -> (r: RequestPlan)
        ensures
            r@ == api_get(
                self.base_url@,
                self.access_token@,
                "/search"@,
                search_query("playlist"@, query@),
            ),
    {
        self.search("playlist", query)
    }

    pub fn video_request(&self, video_id: &str) -> (r: RequestPlan)
        ensures
            r@ == api_get(
                self.base_url@,
                self.access_token@,
                "/videos"@,
                seq![("part"@, "snippet,contentDetails,status"@), ("id"@, video_id@)],
            ),
    {
        let mut q: Vec<(String, String)> = Vec::new();
        q.push(pair("part", "snippet,contentDetails,status"));
        q.push(pair("id", video_id));
        assert(pairs_view(q@) =~= seq![("part"@, "snippet,contentDetails,status"@), ("id"@, video_id@)]);
        self.get("/videos", q)
    }

    pub fn channel_request(&self, channel_id: &str) -> (r: RequestPlan)
        ensures
            r@ == api_get(
                self.base_url@,
                self.access_token@,
                "/channels"@,
                seq![("part"@, "snippet"@), ("id"@, channel_id@)],
            ),
    {
        let mut q: Vec<(String, String)> = Vec::new();
        q.push(pair("part", "snippet"));
        q.push(pair("id", channel_id));
        assert(pairs_view(q@) =~= seq![("part"@, "snippet"@), ("id"@, channel_id@)]);
        self.get("/channels", q)
    }

    pub fn playlist_request(&self, playlist_id: &str) -> (r: RequestPlan)
        ensures
            r@ == api_get(
                self.base_url@,
                self.access_token@,
                "/playlists"@,
                seq![("part"@, "snippet"@), ("id"@, playlist_id@)],
            ),
    {
        let mut q: Vec<(String, String)> = Vec::new();
        q.push(pair("part", "snippet"));
        q.push(pair("id", playlist_id));
        assert(pairs_view(q@) =~= seq![("part"@, "snippet"@), ("id"@, playlist_id@)]);
        self.get("/playlists", q)
    }

    pub fn playlist_items_request(&self, playlist_id: &str) -> (r: RequestPlan)
        ensures
            r@ == api_get(
                self.base_url@,
                self.access_token@,
                "/playlistItems"@,
                seq![
                    ("part"@, "snippet,contentDetails"@),
                    ("playlistId"@, playlist_id@),
                    ("maxResults"@, "50"@),
                ],
            ),
    {
        let mut q: Vec<(String, String)> = Vec::new();
        q.push(pair("part", "snippet,contentDetails"));
        q.push(pair("playlistId", playlist_id));
        q.push(pair("maxResults", "50"));
        assert(pairs_view(q@) =~= seq![
            ("part"@, "snippet,contentDetails"@),
            ("playlistId"@, playlist_id@),
            ("maxResults"@, "50"@),
        ]);
        self.get("/playlistItems", q)
    }

    pub fn channel_playlists_request(&self, channel_id: &str) -> (r: RequestPlan)
        ensures
            r@ == api_get(
                self.base_url@,
                self.access_token@,
                "/playlists"@,
                seq![("part"@, "snippet"@), ("channelId"@, channel_id@), ("maxResults"@, "50"@)],
            ),
    {
        let mut q: Vec<(String, String)> = Vec::new();
        q.push(pair("part", "snippet"));
        q.push(pair("channelId", channel_id));
        q.push(pair("maxResults", "50"));
        assert(pairs_view(q@) =~= seq![
            ("part"@, "snippet"@),
            ("channelId"@, channel_id@),
            ("maxResults"@, "50"@),
        ]);
        self.get("/playlists", q)
    }
}

} // verus!
