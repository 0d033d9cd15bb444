//! Selectors that several endpoint groups take as arguments.

use vstd::prelude::*;
use vstd::string::*;

verus! {

/// Songs to start recommendations from, tagged by where their names or
/// identifiers come from.
#[derive(Clone, Debug, PartialEq, Eq)]
pub enum ProviderType {
    Youtube(Vec<String>),
    YoutubeIDs(Vec<String>),
    YoutubeTitles(Vec<String>),
    SpotifyIDs(Vec<String>),
}

impl ProviderType {
    /// The list that the provider carries.
    pub open spec fn tracks(self) -> Vec<String> {
        match self {
            ProviderType::Youtube(d) => d,
            ProviderType::YoutubeIDs(d) => d,
            ProviderType::YoutubeTitles(d) => d,
            ProviderType::SpotifyIDs(d) => d,
        }
    }

    /// The name by which the service knows the provider.
    pub open spec fn name(self) -> Seq<char> {
        match self {
            ProviderType::Youtube(_) => "youtube"@,
            ProviderType::YoutubeIDs(_) => "youtube_ids"@,
            ProviderType::YoutubeTitles(_) => "youtube_titles"@,
            ProviderType::SpotifyIDs(_) => "spotify"@,
        }
    }

    /// Whether `self` and `other` are the same kind of provider, whatever
    /// they carry.
    pub open spec fn same_kind(self, other: ProviderType) -> bool {
        match self {
            ProviderType::Youtube(_) => other is Youtube,
            ProviderType::YoutubeIDs(_) => other is YoutubeIDs,
            ProviderType::YoutubeTitles(_) => other is YoutubeTitles,
            ProviderType::SpotifyIDs(_) => other is SpotifyIDs,
        }
    }

    /// The name by which the service knows the provider.
    pub fn to_string(&self) -> (text: String)
        ensures
            text@ == self.name(),
    {
        match self {
            ProviderType::Youtube(_) => String::from_str("youtube"),
            ProviderType::YoutubeIDs(_) => String::from_str("youtube_ids"),
            ProviderType::YoutubeTitles(_) => String::from_str("youtube_titles"),
            ProviderType::SpotifyIDs(_) => String::from_str("spotify"),
        }
    }

    /// Takes the list out of the provider without copying it, and leaves an
    /// empty list in its place.
    pub fn extract(&mut self) -> (tracks: Vec<String>)
        ensures
            tracks == old(self).tracks(),
            final(self).same_kind(*old(self)),
            final(self).tracks()@ == Seq::<String>::empty(),
    {
        let mut tracks: Vec<String> = Vec::new();
        match self {
            ProviderType::Youtube(d) => core::mem::swap(d, &mut tracks),
            ProviderType::YoutubeIDs(d) => core::mem::swap(d, &mut tracks),
            ProviderType::YoutubeTitles(d) => core::mem::swap(d, &mut tracks),
            ProviderType::SpotifyIDs(d) => core::mem::swap(d, &mut tracks),
        }
        tracks
    }
}

/// Time span that posts of a subreddit are taken from.
#[derive(Clone, Copy, Debug, PartialEq, Eq, Structural)]
pub enum SpanType {
    Hour,
    Day,
    Week,
    Month,
    Year,
    All,
}

impl SpanType {
    /// The name by which the service knows the span.
    pub open spec fn name(self) -> Seq<char> {
        match self {
            SpanType::Hour => "hour"@,
            SpanType::Day => "day"@,
            SpanType::Week => "week"@,
            SpanType::Month => "month"@,
            SpanType::Year => "year"@,
            SpanType::All => "all"@,
        }
    }

    /// The name by which the service knows the span.
    pub fn to_string(&self) -> (text: String)
        ensures
            text@ == self.name(),
    {
        match self {
            SpanType::Hour => String::from_str("hour"),
            SpanType::Day => String::from_str("day"),
            SpanType::Week => String::from_str("week"),
            SpanType::Month => String::from_str("month"),
            SpanType::Year => String::from_str("year"),
            SpanType::All => String::from_str("all"),
        }
    }
}

} // verus!
