use ksoft::model::error::{BanError, ImageError, KumoError, MusicError};
use ksoft::prelude::{ProviderType, SpanType};
use ksoft::text::{decimal, join};
use ksoft::{Client, Transport};

#[test]
fn decimal_writes_numbers_without_leading_zeros() {
    assert_eq!(decimal(0), "0");
    assert_eq!(decimal(7), "7");
    assert_eq!(decimal(9), "9");
    assert_eq!(decimal(10), "10");
    assert_eq!(decimal(99), "99");
    assert_eq!(decimal(100), "100");
    assert_eq!(decimal(255), "255");
    assert_eq!(decimal(1000000), "1000000");
    assert_eq!(decimal(1234567890), "1234567890");
    assert_eq!(decimal(u64::MAX), "18446744073709551615");
    for n in [0u64, 5, 42, 101, 65535, 4294967296, u64::MAX - 1] {
        assert_eq!(decimal(n), n.to_string());
    }
}

#[test]
fn join_puts_two_texts_together() {
    assert_eq!(join("", ""), "");
    assert_eq!(join("a", ""), "a");
    assert_eq!(join("", "b"), "b");
    assert_eq!(join("Bearer ", "tok\u{e9}n"), "Bearer tok\u{e9}n");
}

#[test]
fn failure_records_read_as_code_and_message() {
    let ban = BanError {
        code: 404,
        error: true,
        exists: Some(false),
        message: String::from("user not found"),
    };
    assert_eq!(ban.to_string(), "404: user not found");
    let image = ImageError {
        code: 0,
        error: true,
        message: String::new(),
        cache: None,
    };
    assert_eq!(image.to_string(), "0: ");
    let kumo = KumoError { code: 65535, error: true, message: String::from("x: y") };
    assert_eq!(kumo.to_string(), "65535: x: y");
    let music = MusicError { code: 401, error: true, message: String::from("premium only") };
    assert_eq!(music.to_string(), "401: premium only");
}

#[test]
fn providers_have_their_names() {
    assert_eq!(ProviderType::Youtube(Vec::new()).to_string(), "youtube");
    assert_eq!(ProviderType::YoutubeIDs(Vec::new()).to_string(), "youtube_ids");
    assert_eq!(ProviderType::YoutubeTitles(Vec::new()).to_string(), "youtube_titles");
    assert_eq!(ProviderType::SpotifyIDs(Vec::new()).to_string(), "spotify");
}

#[test]
fn spans_have_their_names() {
    assert_eq!(SpanType::Hour.to_string(), "hour");
    assert_eq!(SpanType::Day.to_string(), "day");
    assert_eq!(SpanType::Week.to_string(), "week");
    assert_eq!(SpanType::Month.to_string(), "month");
    assert_eq!(SpanType::Year.to_string(), "year");
    assert_eq!(SpanType::All.to_string(), "all");
}

#[test]
fn extract_takes_the_list_and_leaves_the_provider() {
    let tracks = vec![String::from("a"), String::from("b")];
    let mut provider = ProviderType::YoutubeTitles(tracks.clone());
    assert_eq!(provider.extract(), tracks);
    assert_eq!(provider, ProviderType::YoutubeTitles(Vec::new()));
    assert_eq!(provider.extract(), Vec::<String>::new());
    assert_eq!(provider.to_string(), "youtube_titles");

    let mut provider = ProviderType::Youtube(tracks.clone());
    assert_eq!(provider.extract(), tracks);
    assert_eq!(provider, ProviderType::Youtube(Vec::new()));
    let mut provider = ProviderType::YoutubeIDs(tracks.clone());
    assert_eq!(provider.extract(), tracks);
    assert_eq!(provider, ProviderType::YoutubeIDs(Vec::new()));
    let mut provider = ProviderType::SpotifyIDs(tracks.clone());
    assert_eq!(provider.extract(), tracks);
    assert_eq!(provider, ProviderType::SpotifyIDs(Vec::new()));
}

#[test]
fn client_carries_the_token_as_a_bearer_header() {
    let client = Client::new("s3cr3t");
    assert_eq!(client.token, "s3cr3t");
    assert_eq!(client.http.authorization, "Bearer s3cr3t");
    assert_eq!(client.http.user_agent, "KSoft.rs");
    assert_eq!(
        client.http,
        Transport {
            authorization: String::from("Bearer s3cr3t"),
            user_agent: String::from("KSoft.rs"),
        }
    );
    assert_eq!(Transport::new("").authorization, "Bearer ");
}

#[test]
fn client_groups_build_requests() {
    let client = Client::new("token");
    assert_eq!(client.bans.paginate().url, "https://api.ksoft.si/bans/list");
    assert_eq!(client.images.random_meme().url, "https://api.ksoft.si/images/random-meme");
    assert_eq!(
        client.kumo.convert_currency("1", "USD", "EUR").url,
        "https://api.ksoft.si/kumo/currency"
    );
    assert_eq!(client.music.lyrics("x").url, "https://api.ksoft.si/lyrics/search");
}
