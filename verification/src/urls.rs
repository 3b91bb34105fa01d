//! Resource-endpoint URL builders: one per collection the export walks,
//! each stated exactly over the decimal renderings of its paging parameters.

use vstd::prelude::*;
use vstd::string::StringExecFns;

use crate::decimal::{dec_digits_of, u64_to_string};
use crate::pagination::PageRequest;
use crate::query::opt_view;

verus! {

/// The offset-paged collections the export walks.
#[derive(Clone, Copy, Debug, PartialEq, Eq, Structural)]
pub enum ResourceKind {
    SavedTracks,
    SavedAlbums,
    SavedAudiobooks,
    SavedEpisodes,
    Playlists,
    SavedShows,
}

impl ResourceKind {
    /// The endpoint each collection lives at.
    pub open spec fn spec_base_url(self) -> Seq<char> {
        match self {
            ResourceKind::SavedTracks => "https://api.spotify.com/v1/me/tracks"@,
            ResourceKind::SavedAlbums => "https://api.spotify.com/v1/me/albums"@,
            ResourceKind::SavedAudiobooks => "https://api.spotify.com/v1/me/audiobooks"@,
            ResourceKind::SavedEpisodes => "https://api.spotify.com/v1/me/episodes"@,
            ResourceKind::Playlists => "https://api.spotify.com/v1/me/playlists"@,
            ResourceKind::SavedShows => "https://api.spotify.com/v1/me/shows"@,
        }
    }

    /// Executable form of [`ResourceKind::spec_base_url`].
    pub fn base_url(&self) -> (r: &'static str)
        ensures
            r@ == self.spec_base_url(),
    {
        match self {
            ResourceKind::SavedTracks => "https://api.spotify.com/v1/me/tracks",
            ResourceKind::SavedAlbums => "https://api.spotify.com/v1/me/albums",
            ResourceKind::SavedAudiobooks => "https://api.spotify.com/v1/me/audiobooks",
            ResourceKind::SavedEpisodes => "https://api.spotify.com/v1/me/episodes",
            ResourceKind::Playlists => "https://api.spotify.com/v1/me/playlists",
            ResourceKind::SavedShows => "https://api.spotify.com/v1/me/shows",
        }
    }

    /// A user-facing name for this collection, for progress and error
    /// messages.
    pub fn label(&self) -> &'static str {
        match self {
            ResourceKind::SavedTracks => "saved tracks",
            ResourceKind::SavedAlbums => "saved albums",
            ResourceKind::SavedAudiobooks => "saved audiobooks",
            ResourceKind::SavedEpisodes => "saved episodes",
            ResourceKind::Playlists => "playlists",
            ResourceKind::SavedShows => "saved shows",
        }
    }
}

/// The URL of one offset-mode page of a collection.
pub open spec fn offset_page_url_of(kind: ResourceKind, offset: nat, limit: nat) -> Seq<char> {
    kind.spec_base_url() + "?offset="@ + dec_digits_of(offset) + "&limit="@ + dec_digits_of(limit)
}

/// Build the URL of the offset-mode page that `req` asks for.
pub fn offset_page_url(kind: &ResourceKind, req: &PageRequest) -> (r: String)
    ensures
        r@ == offset_page_url_of(*kind, req.offset as nat, req.limit as nat),
{
    String::from_str(kind.base_url()).concat("?offset=").concat(
        u64_to_string(req.offset).as_str(),
    ).concat("&limit=").concat(u64_to_string(req.limit).as_str())
}

/// The field selection for playlist-track fetches.
pub open spec fn spec_playlist_fields() -> Seq<char> {
    "items(added_by.id,added_at,track(id,name,album(album_type,name,release_date,artists(id,name)),artists(id,name)))"@
}

/// The URL of one page of a playlist's tracks.
pub open spec fn playlist_tracks_url_of(playlist_id: Seq<char>, offset: nat, limit: nat) -> Seq<
    char,
> {
    "https://api.spotify.com/v1/playlists/"@ + playlist_id + "/tracks?fields="@
        + spec_playlist_fields() + "&offset="@ + dec_digits_of(offset) + "&limit="@
        + dec_digits_of(limit)
}

/// Build the URL of the playlist-tracks page that `req` asks for.
pub fn playlist_tracks_url(playlist_id: &str, req: &PageRequest) -> (r: String)
    ensures
        r@ == playlist_tracks_url_of(playlist_id@, req.offset as nat, req.limit as nat),
{
    String::from_str("https://api.spotify.com/v1/playlists/").concat(playlist_id).concat(
        "/tracks?fields=",
    ).concat(
        "items(added_by.id,added_at,track(id,name,album(album_type,name,release_date,artists(id,name)),artists(id,name)))",
    ).concat("&offset=").concat(u64_to_string(req.offset).as_str()).concat("&limit=").concat(
        u64_to_string(req.limit).as_str(),
    )
}

/// The URL of one page of the followed-artist list: the first page carries
/// no cursor, every later one carries the cursor the previous page returned.
pub open spec fn followed_artists_url_of(after: Option<Seq<char>>, limit: nat) -> Seq<char> {
    match after {
        None => "https://api.spotify.com/v1/me/following?type=artist&limit="@ + dec_digits_of(
            limit,
        ),
        Some(a) => "https://api.spotify.com/v1/me/following?type=artist&after="@ + a + "&limit="@
            + dec_digits_of(limit),
    }
}

/// Build the URL of the followed-artists page that `req` asks for.
pub fn followed_artists_url(req: &PageRequest) -> (r: String)
    ensures
        r@ == followed_artists_url_of(opt_view(req.after), req.limit as nat),
{
    match &req.after {
        None => String::from_str("https://api.spotify.com/v1/me/following?type=artist&limit=")
            .concat(u64_to_string(req.limit).as_str()),
        Some(a) => String::from_str("https://api.spotify.com/v1/me/following?type=artist&after=")
            .concat(a.as_str()).concat("&limit=").concat(u64_to_string(req.limit).as_str()),
    }
}

} // verus!
