//! Records of the music and lyrics endpoints.

use vstd::prelude::*;

verus! {

/// One line of a song with its timing.
#[derive(Clone, Debug, PartialEq, Eq)]
pub struct LyricsSingalong {
    pub lrc_timestamp: Option<String>,
    pub milliseconds: Option<String>,
    pub duration: Option<String>,
    pub line: Option<String>,
}

/// Where Spotify lists a song.
#[derive(Clone, Debug, PartialEq, Eq)]
pub struct SpotifyMeta {
    pub artists: Vec<String>,
    pub track: Option<String>,
    pub album: Option<String>,
}

/// Where Deezer lists a song.
#[derive(Clone, Debug, PartialEq, Eq)]
pub struct DeezerMeta {
    pub artists: Vec<String>,
    pub track: Option<String>,
    pub album: Option<String>,
}

/// An artist that took part in a song.
#[derive(Clone, Debug, PartialEq, Eq)]
pub struct ArtistsMeta {
    pub name: String,
    pub is_primary: bool,
    pub id: u64,
}

/// A request for recommendations, as sent to the service. The optional
/// fields are left out of the body when they are `None`.
#[derive(Clone, Debug, PartialEq, Eq)]
pub struct MusicRecommendations {
    pub tracks: Vec<String>,
    pub provider: String,
    pub youtube_token: Option<String>,
    pub limit: Option<u32>,
    pub recommend_type: Option<String>,
}

/// What `MusicRecommendations` holds, as plain values.
pub struct MusicRecommendationsView {
    pub tracks: Seq<Seq<char>>,
    pub provider: Seq<char>,
    pub youtube_token: Option<Seq<char>>,
    pub limit: Option<u32>,
    pub recommend_type: Option<Seq<char>>,
}

impl View for MusicRecommendations {
    type V = MusicRecommendationsView;

    open spec fn view(&self) -> MusicRecommendationsView {
        MusicRecommendationsView {
            tracks: self.tracks.deep_view(),
            provider: self.provider@,
            youtube_token: self.youtube_token.deep_view(),
            limit: self.limit,
            recommend_type: self.recommend_type.deep_view(),
        }
    }
}

/// The recommended songs.
#[derive(Clone, Debug, PartialEq, Eq)]
pub struct MusicRecommendationsResponse {
    pub provider: String,
    pub total: u32,
    pub tracks: Vec<RecommendationTrack>,
}

/// One recommended song.
#[derive(Clone, Debug, PartialEq, Eq)]
pub struct RecommendationTrack {
    pub youtube: YoutubeTrack,
    pub spotify: SpotifyTrack,
    pub name: String,
}

/// A song on Spotify.
#[derive(Clone, Debug, PartialEq, Eq)]
pub struct SpotifyTrack {
    pub id: String,
    pub album: SpotifyAlbum,
    pub artists: Vec<SpotifyArtist>,
    pub name: String,
    pub link: String,
}

/// An artist on Spotify.
#[derive(Clone, Debug, PartialEq, Eq)]
pub struct SpotifyArtist {
    pub name: String,
    pub link: String,
}

/// An album on Spotify.
#[derive(Clone, Debug, PartialEq, Eq)]
pub struct SpotifyAlbum {
    pub name: String,
    pub album_art: String,
    pub link: String,
}

/// A song on YouTube.
#[derive(Clone, Debug, PartialEq, Eq)]
pub struct YoutubeTrack {
    pub id: String,
    pub link: String,
    pub title: String,
    pub thumbnail: String,
    pub description: String,
}

/// An artist with albums and songs.
#[derive(Clone, Debug, PartialEq, Eq)]
pub struct Artist {
    pub id: u64,
    pub name: String,
    pub albums: Vec<ArtistAlbum>,
    pub tracks: Vec<ArtistTrack>,
}

/// An album in the list of an artist.
#[derive(Clone, Debug, PartialEq, Eq)]
pub struct ArtistAlbum {
    pub id: u64,
    pub name: String,
    pub year: u16,
}

/// A song in the list of an artist or an album.
#[derive(Clone, Debug, PartialEq, Eq)]
pub struct ArtistTrack {
    pub id: u64,
    pub name: String,
}

/// An album with its artist and songs.
#[derive(Clone, Debug, PartialEq, Eq)]
pub struct Album {
    pub id: u64,
    pub name: String,
    pub year: u16,
    pub artist: AlbumArtist,
    pub tracks: Vec<ArtistTrack>,
}

/// The artist of an album or a song.
#[derive(Clone, Debug, PartialEq, Eq)]
pub struct AlbumArtist {
    pub id: u64,
    pub name: String,
}

/// A song with its lyrics.
#[derive(Clone, Debug, PartialEq, Eq)]
pub struct Track {
    pub name: String,
    pub artist: AlbumArtist,
    pub albums: Vec<TrackAlbum>,
    pub lyrics: String,
}

/// An album in the list of a song.
#[derive(Clone, Debug, PartialEq, Eq)]
pub struct TrackAlbum {
    pub id: u64,
    pub name: String,
    pub year: u16,
}

} // verus!
