//! Plain data carried through the player: tracks, users, playlists, activity
//! feed entries, search results, and the small enums that drive navigation
//! and track-level interactions.
use vstd::prelude::*;

verus! {

/// A single playable track. Immutable once fetched; equality is full field
/// comparison.
#[derive(Debug, Clone, PartialEq, Eq)]
pub struct SoundCloudTrack {
    pub id: u64,
    pub stream_url: Option<String>,
    pub title: String,
    pub user: SoundCloudUser,
    pub duration: u64,
    pub access: String,
    pub playback_count: Option<u64>,
    pub favoritings_count: Option<u32>,
    pub reposts_count: Option<u32>,
    pub artwork_url: String,
    pub waveform_url: String,
}

/// A page of tracks as the listing endpoints return them.
#[derive(Debug, Clone)]
pub struct SoundCloudTracks {
    pub collection: Vec<SoundCloudTrack>,
}

/// The public profile data attached to tracks and playlists.
#[derive(Debug, Clone, PartialEq, Eq)]
pub struct SoundCloudUser {
    pub urn: String,
    pub username: String,
    pub full_name: String,
    pub avatar_url: String,
    pub followers_count: Option<u64>,
}

/// A page of users from the user-search endpoint.
#[derive(Debug, Clone)]
pub struct SoundCloudUsers {
    pub collection: Vec<SoundCloudUser>,
}

/// A user together with their tracks and playlists, as shown on a profile.
#[derive(Debug, Clone)]
pub struct SoundCloudUserProfile {
    pub user: SoundCloudUser,
    pub tracks: Vec<SoundCloudTrack>,
    pub playlists: Vec<SoundCloudPlaylist>,
}

/// A playlist with its resolved tracks.
#[derive(Debug, Clone, PartialEq, Eq)]
pub struct SoundCloudPlaylist {
    pub urn: String,
    pub title: String,
    pub playlist_type: Option<String>,
    pub tracks: Vec<SoundCloudTrack>,
    pub user: SoundCloudUser,
    pub artwork_url: String,
    pub track_count: Option<u32>,
}

/// A page of playlists, with the pagination cursor if one was returned.
#[derive(Debug, Clone, PartialEq, Eq)]
pub struct SoundCloudPlaylists {
    pub collection: Vec<SoundCloudPlaylist>,
    pub next_href: Option<String>,
}

/// One entry of the activity feed: the kind of activity and the track it
/// originated from.
#[derive(Debug, Clone, PartialEq, Eq)]
pub struct SoundCloudActivity {
    pub activity_type: String,
    pub origin: SoundCloudTrack,
}

/// A page of activity feed entries.
#[derive(Debug, Clone, PartialEq, Eq)]
pub struct SoundCloudActivityCollection {
    pub collection: Vec<SoundCloudActivity>,
}

/// The three result lists of a combined search.
#[derive(Debug, Clone)]
pub struct SearchResults {
    pub tracks: Vec<SoundCloudTrack>,
    pub users: Vec<SoundCloudUser>,
    pub playlists: Vec<SoundCloudPlaylist>,
}

/// A minimal playlist record, as the lightweight listing endpoint returns it.
#[derive(Debug, Clone, PartialEq, Eq)]
pub struct Playlist {
    pub genre: String,
    pub permalink: String,
    pub title: String,
}

/// A minimal listing item.
#[derive(Debug, Clone, PartialEq, Eq)]
pub struct SoundCloudItem {
    pub genre: String,
    pub permalink: String,
    pub title: String,
}

/// A page of minimal listing items.
#[derive(Debug, Clone)]
pub struct SoundCloudPrimative {
    pub collection: Vec<SoundCloudItem>,
}

/// A request against the streaming service, as the caller dispatches it.
#[derive(Debug, Clone)]
pub enum SoundCloudRequest {
    GetPlaylists,
    GetLikedTracks,
    GetFollowedTracks,
    GetTrackData(SoundCloudTrack),
    LikeTrack(SoundCloudTrack),
    GetSearchResults(String),
}

/// Which listing screen is in front.
#[derive(Debug, Clone, Copy, PartialEq, Eq)]
pub enum CurrentScreen {
    Playlists,
    LikedTracks,
    Search,
    Feed,
}

impl Default for CurrentScreen {
    fn default() -> (r: Self)
        ensures
            r is Playlists,
    {
        CurrentScreen::Playlists
    }
}

/// Whether keyboard input goes to navigation or to a text field.
#[derive(Debug, Clone, Copy, PartialEq, Eq)]
pub enum InputMode {
    Normal,
    Editing,
}

impl Default for InputMode {
    fn default() -> (r: Self)
        ensures
            r is Normal,
    {
        InputMode::Normal
    }
}

/// A track-level interaction raised by a listing row.
#[derive(Debug, Clone)]
pub enum TrackMessage {
    PlayTrack(SoundCloudTrack),
    LikeTrack(SoundCloudTrack),
    UnknownMessage,
}

} // verus!
