use ksoft::bans::Bans;
use ksoft::images::Images;
use ksoft::kumo::Kumo;
use ksoft::model::bans::BanAddition;
use ksoft::model::music::MusicRecommendations;
use ksoft::music::Music;
use ksoft::prelude::{ProviderType, SpanType};
use ksoft::request::{endpoint, Body, Method, Param, ParamValue, PreparedRequest, BASE_ENDPOINT};
use ksoft::violation::Violation;

fn unsigned(name: &str, value: u64) -> Param {
    Param { name: String::from(name), value: ParamValue::Unsigned(value) }
}

fn flag(name: &str, value: bool) -> Param {
    Param { name: String::from(name), value: ParamValue::Flag(value) }
}

fn text(name: &str, value: &str) -> Param {
    Param { name: String::from(name), value: ParamValue::Text(String::from(value)) }
}

fn expect(request: &PreparedRequest, method: Method, url: &str, query: Vec<Param>, body: Body) {
    assert_eq!(
        *request,
        PreparedRequest { method, url: String::from(url), query, body }
    );
}

#[test]
fn endpoint_prefixes_the_origin() {
    assert_eq!(BASE_ENDPOINT, "https://api.ksoft.si");
    assert_eq!(endpoint("/bans/list"), "https://api.ksoft.si/bans/list");
    assert_eq!(endpoint(""), "https://api.ksoft.si");
    assert_eq!(ksoft::endpoint("/kumo/geoip"), "https://api.ksoft.si/kumo/geoip");
}

#[test]
fn request_builders_compose() {
    let request = PreparedRequest::get("/x").query(Param::unsigned("a", 1)).query(
        Param::text("b", "two"),
    ).query(Param::flag("c", false));
    expect(
        &request,
        Method::Get,
        "https://api.ksoft.si/x",
        vec![unsigned("a", 1), text("b", "two"), flag("c", false)],
        Body::Empty,
    );
    expect(&PreparedRequest::post("/y"), Method::Post, "https://api.ksoft.si/y", vec![], Body::Empty);
    expect(
        &PreparedRequest::delete("/z"),
        Method::Delete,
        "https://api.ksoft.si/z",
        vec![],
        Body::Empty,
    );
    expect(
        &PreparedRequest::new(Method::Post, "/w").form(vec![unsigned("n", 3)]),
        Method::Post,
        "https://api.ksoft.si/w",
        vec![],
        Body::Form(vec![unsigned("n", 3)]),
    );
}

#[test]
fn paginate_asks_for_the_first_page_of_twenty() {
    let request = Bans::new().paginate();
    expect(
        &request,
        Method::Get,
        "https://api.ksoft.si/bans/list",
        vec![unsigned("per_page", 20), unsigned("page", 1)],
        Body::Empty,
    );
    assert_eq!(request, Bans::new().advanced_paginate(1, 20));
}

#[test]
fn advanced_paginate_writes_per_page_before_page() {
    expect(
        &Bans::new().advanced_paginate(2, 50),
        Method::Get,
        "https://api.ksoft.si/bans/list",
        vec![unsigned("per_page", 50), unsigned("page", 2)],
        Body::Empty,
    );
    expect(
        &Bans::new().advanced_paginate(255, 0),
        Method::Get,
        "https://api.ksoft.si/bans/list",
        vec![unsigned("per_page", 0), unsigned("page", 255)],
        Body::Empty,
    );
}

#[test]
fn repeated_paginate_gives_the_same_request() {
    let bans = Bans::new();
    assert_eq!(bans.advanced_paginate(1, 20), bans.advanced_paginate(1, 20));
    assert_ne!(bans.advanced_paginate(1, 20), bans.advanced_paginate(2, 20));
}

#[test]
fn add_sends_the_required_fields_as_a_form() {
    let request = Bans::new().add(23123123, "some reason", "some proof", None, None, None, None);
    expect(
        &request,
        Method::Post,
        "https://api.ksoft.si/bans/add",
        vec![],
        Body::Form(vec![
            unsigned("user", 23123123),
            text("reason", "some reason"),
            text("proof", "some proof"),
        ]),
    );
}

#[test]
fn add_sends_each_optional_field_that_has_a_value() {
    let request = Bans::new().add(
        42,
        "raid",
        "https://example.org/p.png",
        Some(7),
        Some(String::from("someone")),
        Some(1234),
        Some(true),
    );
    expect(
        &request,
        Method::Post,
        "https://api.ksoft.si/bans/add",
        vec![],
        Body::Form(vec![
            unsigned("user", 42),
            text("reason", "raid"),
            text("proof", "https://example.org/p.png"),
            unsigned("mod", 7),
            text("user_name", "someone"),
            unsigned("user_discriminator", 1234),
            flag("appeal_possible", true),
        ]),
    );
    let request = Bans::new().add(42, "raid", "p", None, Some(String::new()), None, Some(false));
    assert_eq!(
        request.body,
        Body::Form(vec![
            unsigned("user", 42),
            text("reason", "raid"),
            text("proof", "p"),
            text("user_name", ""),
            flag("appeal_possible", false),
        ])
    );
}

#[test]
fn ban_addition_fields_follow_the_record() {
    let addition = BanAddition {
        user_id: u64::MAX,
        reason: String::from("r"),
        proof: String::from("p"),
        moderator: None,
        user_name: None,
        user_discriminator: Some(0),
        appeal_possible: None,
    };
    assert_eq!(
        addition.fields(),
        vec![
            unsigned("user", u64::MAX),
            text("reason", "r"),
            text("proof", "p"),
            unsigned("user_discriminator", 0),
        ]
    );
}

#[test]
fn add_with_empty_reason_is_refused_before_a_request_exists() {
    let bans = Bans::new();
    assert_eq!(bans.try_add(42, "", "x", None, None, None, None), Err(Violation::EmptyReason));
    assert_eq!(bans.try_add(42, "x", "", None, None, None, None), Err(Violation::EmptyProof));
    assert_eq!(bans.try_add(42, "", "", None, None, None, None), Err(Violation::EmptyReason));
    assert_eq!(
        bans.try_add(42, "x", "y", None, None, None, None),
        Ok(bans.add(42, "x", "y", None, None, None, None))
    );
}

#[test]
fn ban_lookups() {
    let bans = Bans::new();
    expect(
        &bans.check_ban(12335454),
        Method::Get,
        "https://api.ksoft.si/bans/check",
        vec![unsigned("user", 12335454)],
        Body::Empty,
    );
    expect(
        &bans.ban_info(1231231234124),
        Method::Get,
        "https://api.ksoft.si/bans/info",
        vec![unsigned("user", 1231231234124)],
        Body::Empty,
    );
}

#[test]
fn ban_deletions() {
    let bans = Bans::new();
    expect(
        &bans.delete(5),
        Method::Delete,
        "https://api.ksoft.si/bans/delete",
        vec![unsigned("user", 5)],
        Body::Empty,
    );
    expect(
        &bans.delete_forcing(5),
        Method::Delete,
        "https://api.ksoft.si/bans/delete",
        vec![unsigned("user", 5), flag("force", true)],
        Body::Empty,
    );
}

#[test]
fn image_requests_without_arguments() {
    let images = Images::new();
    expect(
        &images.random_meme(),
        Method::Get,
        "https://api.ksoft.si/images/random-meme",
        vec![],
        Body::Empty,
    );
    expect(
        &images.random_aww(),
        Method::Get,
        "https://api.ksoft.si/images/random-aww",
        vec![],
        Body::Empty,
    );
    expect(&images.get_tags(), Method::Get, "https://api.ksoft.si/images/tags", vec![], Body::Empty);
}

#[test]
fn image_requests_with_flags() {
    let images = Images::new();
    expect(
        &images.random_wikihow(false),
        Method::Get,
        "https://api.ksoft.si/images/random-wikihow",
        vec![flag("nsfw", false)],
        Body::Empty,
    );
    expect(
        &images.random_nsfw(true),
        Method::Get,
        "https://api.ksoft.si/images/random-nsfw",
        vec![flag("gifs", true)],
        Body::Empty,
    );
    expect(
        &images.random_image("doge", false),
        Method::Get,
        "https://api.ksoft.si/images/random-image",
        vec![text("tag", "doge"), flag("nsfw", false)],
        Body::Empty,
    );
}

#[test]
fn image_requests_with_a_name_in_the_path() {
    let images = Images::new();
    expect(
        &images.random_reddit("Technology", true, SpanType::Day),
        Method::Get,
        "https://api.ksoft.si/images/rand-reddit/Technology",
        vec![flag("remove_nsfw", true), text("span", "day")],
        Body::Empty,
    );
    expect(
        &images.get_image("i-8ta8p52f-27"),
        Method::Get,
        "https://api.ksoft.si/images/image/i-8ta8p52f-27",
        vec![],
        Body::Empty,
    );
    expect(
        &images.get_tag("doge"),
        Method::Get,
        "https://api.ksoft.si/images/tags/doge",
        vec![],
        Body::Empty,
    );
}

#[test]
fn image_requests_refuse_empty_names() {
    let images = Images::new();
    assert_eq!(images.try_random_image("", true), Err(Violation::EmptyImageTag));
    assert_eq!(images.try_random_image("doge", true), Ok(images.random_image("doge", true)));
    assert_eq!(
        images.try_random_reddit("", false, SpanType::All),
        Err(Violation::EmptySubreddit)
    );
    assert_eq!(
        images.try_random_reddit("aww", false, SpanType::All),
        Ok(images.random_reddit("aww", false, SpanType::All))
    );
    assert_eq!(images.try_get_image(""), Err(Violation::EmptySnowflake));
    assert_eq!(images.try_get_image("i-1"), Ok(images.get_image("i-1")));
    assert_eq!(images.try_get_tag(""), Err(Violation::EmptyTag));
    assert_eq!(images.try_get_tag("cat"), Ok(images.get_tag("cat")));
}

#[test]
fn every_span_has_its_name_in_the_query() {
    let images = Images::new();
    for (span, name) in [
        (SpanType::Hour, "hour"),
        (SpanType::Day, "day"),
        (SpanType::Week, "week"),
        (SpanType::Month, "month"),
        (SpanType::Year, "year"),
        (SpanType::All, "all"),
    ] {
        let request = images.random_reddit("r", false, span);
        assert_eq!(request.query, vec![flag("remove_nsfw", false), text("span", name)]);
    }
}

#[test]
fn geoip_takes_dotted_decimal_addresses() {
    let kumo = Kumo::new();
    expect(
        &kumo.geoip("8.8.8.8"),
        Method::Get,
        "https://api.ksoft.si/kumo/geoip",
        vec![text("ip", "8.8.8.8")],
        Body::Empty,
    );
    assert_eq!(kumo.try_geoip("8.8.8.8"), Ok(kumo.geoip("8.8.8.8")));
    assert_eq!(kumo.try_geoip("AmazingNonExistingIP"), Err(Violation::InvalidIp));
    assert_eq!(kumo.try_geoip(""), Err(Violation::InvalidIp));
    assert_eq!(kumo.try_geoip("256.1.1.1"), Err(Violation::InvalidIp));
}

#[test]
fn currency_conversion_writes_from_to_value() {
    expect(
        &Kumo::new().convert_currency("120", "USD", "EUR"),
        Method::Get,
        "https://api.ksoft.si/kumo/currency",
        vec![text("from", "USD"), text("to", "EUR"), text("value", "120")],
        Body::Empty,
    );
}

#[test]
fn lyrics_search() {
    let music = Music::new();
    expect(
        &music.advanced_lyrics("despacito", true, 3),
        Method::Get,
        "https://api.ksoft.si/lyrics/search",
        vec![text("q", "despacito"), flag("text_only", true), unsigned("limit", 3)],
        Body::Empty,
    );
    expect(
        &music.lyrics("despacito"),
        Method::Get,
        "https://api.ksoft.si/lyrics/search",
        vec![text("q", "despacito"), flag("text_only", false), unsigned("limit", 10)],
        Body::Empty,
    );
    assert_eq!(music.try_advanced_lyrics("", false, 10), Err(Violation::EmptyQuery));
    assert_eq!(music.try_advanced_lyrics("a", false, 10), Ok(music.lyrics("a")));
}

#[test]
fn recommendations_send_the_tracks_and_the_provider_name() {
    let music = Music::new();
    let tracks = vec![String::from("despacito"), String::from("bad guy")];
    for (provider, name) in [
        (ProviderType::Youtube(tracks.clone()), "youtube"),
        (ProviderType::YoutubeIDs(tracks.clone()), "youtube_ids"),
        (ProviderType::YoutubeTitles(tracks.clone()), "youtube_titles"),
        (ProviderType::SpotifyIDs(tracks.clone()), "spotify"),
    ] {
        expect(
            &music.recommendations(provider),
            Method::Post,
            "https://api.ksoft.si/music/recommendations",
            vec![],
            Body::Json(MusicRecommendations {
                tracks: tracks.clone(),
                provider: String::from(name),
                youtube_token: None,
                limit: None,
                recommend_type: None,
            }),
        );
    }
}

#[test]
fn advanced_recommendations_keep_the_optional_fields() {
    let music = Music::new();
    let request = music.advanced_recommendations(
        ProviderType::SpotifyIDs(vec![String::from("id")]),
        Some(String::from("token")),
        Some(5),
        Some(String::from("track")),
    );
    assert_eq!(
        request.body,
        Body::Json(MusicRecommendations {
            tracks: vec![String::from("id")],
            provider: String::from("spotify"),
            youtube_token: Some(String::from("token")),
            limit: Some(5),
            recommend_type: Some(String::from("track")),
        })
    );
}

#[test]
fn recommendations_refuse_an_empty_list() {
    let music = Music::new();
    for provider in [
        ProviderType::Youtube(Vec::new()),
        ProviderType::YoutubeIDs(Vec::new()),
        ProviderType::YoutubeTitles(Vec::new()),
        ProviderType::SpotifyIDs(Vec::new()),
    ] {
        assert_eq!(
            music.try_advanced_recommendations(provider, None, None, None),
            Err(Violation::EmptyTracks)
        );
    }
    let provider = ProviderType::Youtube(vec![String::from("x")]);
    assert_eq!(
        music.try_advanced_recommendations(provider.clone(), None, None, None),
        Ok(music.recommendations(provider))
    );
}

#[test]
fn lyrics_records_are_asked_for_by_number() {
    let music = Music::new();
    expect(
        &music.artist(28333),
        Method::Get,
        "https://api.ksoft.si/lyrics/artist/28333/",
        vec![],
        Body::Empty,
    );
    expect(
        &music.album(88151),
        Method::Get,
        "https://api.ksoft.si/lyrics/album/88151/",
        vec![],
        Body::Empty,
    );
    expect(
        &music.track(2656006),
        Method::Get,
        "https://api.ksoft.si/lyrics/track/2656006/",
        vec![],
        Body::Empty,
    );
    expect(
        &music.track(0),
        Method::Get,
        "https://api.ksoft.si/lyrics/track/0/",
        vec![],
        Body::Empty,
    );
    expect(
        &music.artist(u64::MAX),
        Method::Get,
        "https://api.ksoft.si/lyrics/artist/18446744073709551615/",
        vec![],
        Body::Empty,
    );
}

#[test]
fn violations_have_their_messages() {
    for (violation, message) in [
        (Violation::EmptyReason, "Reason param cannot be empty"),
        (Violation::EmptyProof, "Proof param cannot be empty"),
        (Violation::EmptyImageTag, "Tag param cannot be empty"),
        (Violation::EmptySubreddit, "You have to specify a subreddit to search in"),
        (Violation::EmptySnowflake, "Snowflake id cannot be empty"),
        (Violation::EmptyTag, "Tag cannot be empty"),
        (Violation::EmptyQuery, "Query param cannot be empty"),
        (Violation::EmptyTracks, "Vector contents cannot be empty"),
        (Violation::InvalidIp, "Cannot parse as ip"),
    ] {
        assert_eq!(violation.message(), message);
    }
}
