//! The music and lyrics endpoints.

use crate::model::music::{MusicRecommendations, MusicRecommendationsView};
use crate::prelude::ProviderType;
use crate::request::{
    bare_request, flag_param, text_param, unsigned_param, BodyView, Method, Param,
    PreparedRequest, RequestView,
};
use crate::text::{decimal, decimal_digits, join};
use crate::violation::Violation;
use vstd::prelude::*;
use vstd::string::*;

verus! {

/// Request for at most `limit` songs whose lyrics match `query`.
pub open spec fn lyrics_request(query: Seq<char>, text_only: bool, limit: u32) -> RequestView {
    bare_request(Method::Get, "/lyrics/search"@).query(text_param("q"@, query)).query(
        flag_param("text_only"@, text_only),
    ).query(unsigned_param("limit"@, limit as u64))
}

/// Request for recommendations that start from the tracks of `provider`.
pub open spec fn recommendations_request(
    provider: ProviderType,
    youtube_token: Option<Seq<char>>,
    limit: Option<u32>,
    recommend_type: Option<Seq<char>>,
) -> RequestView {
    bare_request(Method::Post, "/music/recommendations"@).body(
        BodyView::Json(
            MusicRecommendationsView {
                tracks: provider.tracks().deep_view(),
                provider: provider.name(),
                youtube_token,
                limit,
                recommend_type,
            },
        ),
    )
}

/// Request for the record with number `id` in the collection `kind` of the
/// lyrics endpoints.
pub open spec fn lyrics_item_request(kind: Seq<char>, id: u64) -> RequestView {
    bare_request(Method::Get, "/lyrics/"@ + kind + "/"@ + decimal_digits(id as nat) + "/"@)
}

/// The music and lyrics endpoints.
#[derive(Clone, Copy, Debug)]
pub struct Music {}

impl Music {
    /// The group of the music and lyrics endpoints.
    pub fn new() -> (music: Music) {
        Music {  }
    }

    /// Searches for lyrics with custom parameters.
    pub fn advanced_lyrics(&self, query: &str, text_only: bool, limit: u32) -> (r:
        PreparedRequest)
        requires
            query@.len() > 0,
        ensures
            r@ == lyrics_request(query@, text_only, limit),
    {
        PreparedRequest::get("/lyrics/search").query(Param::text("q", query)).query(
            Param::flag("text_only", text_only),
        ).query(Param::unsigned("limit", limit as u64))
    }

    /// Searches for lyrics with custom parameters, unless the query is
    /// empty.
    pub fn try_advanced_lyrics(&self, query: &str, text_only: bool, limit: u32) -> (r: Result<
        PreparedRequest,
        Violation,
    >)
        ensures
            query@.len() == 0 ==> r == Err::<PreparedRequest, _>(Violation::EmptyQuery),
            query@.len() > 0 ==> r is Ok && r.unwrap()@ == lyrics_request(
                query@,
                text_only,
                limit,
            ),
    {
        if query.is_empty() {
            Err(Violation::EmptyQuery)
        } else {
            Ok(self.advanced_lyrics(query, text_only, limit))
        }
    }

    /// Searches for lyrics: up to 10 results, with their metadata.
    pub fn lyrics(&self, query: &str) -> (r: PreparedRequest)
        requires
            query@.len() > 0,
        ensures
            r@ == lyrics_request(query@, false, 10),
    {
        self.advanced_lyrics(query, false, 10)
    }

    /// Asks for recommendations with custom parameters.
    pub fn advanced_recommendations(
        &self,
        provider: ProviderType,
        youtube_token: Option<String>,
        limit: Option<u32>,
        recommend_type: Option<String>,
    ) -> (r: PreparedRequest)
        requires
            provider.tracks()@.len() >= 1,
        ensures
            r@ == recommendations_request(
                provider,
                youtube_token.deep_view(),
                limit,
                recommend_type.deep_view(),
            ),
    {
        let mut provider = provider;
        let track_vec = provider.extract();
        let payload = MusicRecommendations {
            tracks: track_vec,
            provider: provider.to_string(),
            youtube_token,
            limit,
            recommend_type,
        };
        PreparedRequest::post("/music/recommendations").json(payload)
    }

    /// Asks for recommendations with custom parameters, unless the provider
    /// carries no track.
    pub fn try_advanced_recommendations(
        &self,
        provider: ProviderType,
        youtube_token: Option<String>,
        limit: Option<u32>,
        recommend_type: Option<String>,
    ) -> (r: Result<PreparedRequest, Violation>)
        ensures
            provider.tracks()@.len() == 0 ==> r == Err::<PreparedRequest, _>(
                Violation::EmptyTracks,
            ),
            provider.tracks()@.len() >= 1 ==> r is Ok && r.unwrap()@ == recommendations_request(
                provider,
                youtube_token.deep_view(),
                limit,
                recommend_type.deep_view(),
            ),
    {
        let empty = match &provider {
            ProviderType::Youtube(d) => d.len() < 1,
            ProviderType::YoutubeIDs(d) => d.len() < 1,
            ProviderType::YoutubeTitles(d) => d.len() < 1,
            ProviderType::SpotifyIDs(d) => d.len() < 1,
        };
        if empty {
            Err(Violation::EmptyTracks)
        } else {
            Ok(self.advanced_recommendations(provider, youtube_token, limit, recommend_type))
        }
    }

    /// Asks for recommendations.
    pub fn recommendations(&self, provider: ProviderType) -> (r: PreparedRequest)
        requires
            provider.tracks()@.len() >= 1,
        ensures
            r@ == recommendations_request(provider, None, None, None),
    {
        self.advanced_recommendations(provider, None, None, None)
    }

    /// The path of the record with number `id` in the collection `kind`.
    fn item_path(kind: &str, id: u64) -> (path: String)
        ensures
            path@ == "/lyrics/"@ + kind@ + "/"@ + decimal_digits(id as nat) + "/"@,
    {
        let mut path = join("/lyrics/", kind);
        path.append("/");
        let number = decimal(id);
        path.append(number.as_str());
        path.append("/");
        path
    }

    /// Gets an artist by its number.
    pub fn artist(&self, id: u64) -> (r: PreparedRequest)
        ensures
            r@ == lyrics_item_request("artist"@, id),
    {
        let path = Music::item_path("artist", id);
        PreparedRequest::get(path.as_str())
    }

    /// Gets an album by its number.
    pub fn album(&self, id: u64) -> (r: PreparedRequest)
        ensures
            r@ == lyrics_item_request("album"@, id),
    {
        let path = Music::item_path("album", id);
        PreparedRequest::get(path.as_str())
    }

    /// Gets a song by its number.
    pub fn track(&self, id: u64) -> (r: PreparedRequest)
        ensures
            r@ == lyrics_item_request("track"@, id),
    {
        let path = Music::item_path("track", id);
        PreparedRequest::get(path.as_str())
    }
}

} // verus!
