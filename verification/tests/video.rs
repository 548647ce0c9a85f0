use get_media_twitter::failure::Failure;
use get_media_twitter::failure::PathSegment;
use get_media_twitter::json::Json;
use get_media_twitter::video::extract_tweet_video_url;
use get_media_twitter::video::find_variants;
use get_media_twitter::video::read_video_url;
use get_media_twitter::video::select_variant;

fn text(value: &str) -> Json {
    Json::Text(value.to_string())
}

fn object(members: Vec<(&str, Json)>) -> Json {
    Json::Object(
        members
            .into_iter()
            .map(|(key, value)| (key.to_string(), value))
            .collect(),
    )
}

fn variant(bitrate: u64, url: &str) -> Json {
    object(vec![("bitrate", Json::Unsigned(bitrate)), ("url", text(url))])
}

fn tweet_with(info: Json) -> Json {
    object(vec![(
        "extended_entities",
        object(vec![(
            "media",
            Json::Array(vec![object(vec![("video_info", info)])]),
        )]),
    )])
}

fn tweet(variants: Vec<Json>) -> Json {
    tweet_with(object(vec![("variants", Json::Array(variants))]))
}

fn found(url: &str) -> Result<Option<String>, Failure> {
    Ok(Some(url.to_string()))
}

#[test]
fn highest_bitrate_is_selected() {
    let document = tweet(vec![variant(100, "a"), variant(300, "b"), variant(200, "c")]);
    assert_eq!(extract_tweet_video_url(&document), found("b"));
}

#[test]
fn first_seen_wins_on_ties() {
    let document = tweet(vec![variant(300, "x"), variant(300, "y")]);
    assert_eq!(extract_tweet_video_url(&document), found("x"));
    let document = tweet(vec![variant(1, "w"), variant(300, "x"), variant(300, "y"), variant(2, "z")]);
    assert_eq!(extract_tweet_video_url(&document), found("x"));
}

#[test]
fn empty_variants_give_the_empty_address() {
    assert_eq!(extract_tweet_video_url(&tweet(vec![])), found(""));
}

#[test]
fn missing_variants_give_no_video() {
    assert_eq!(extract_tweet_video_url(&tweet_with(object(vec![]))), Ok(None));
    assert_eq!(
        extract_tweet_video_url(&tweet_with(object(vec![("duration_millis", Json::Unsigned(5))]))),
        Ok(None)
    );
}

#[test]
fn video_info_that_is_no_object_gives_no_video() {
    assert_eq!(extract_tweet_video_url(&tweet_with(Json::Unsigned(5))), Ok(None));
    assert_eq!(extract_tweet_video_url(&tweet_with(Json::Null)), Ok(None));
}

#[test]
fn zero_bitrate_never_wins() {
    let document = tweet(vec![variant(0, "zero")]);
    assert_eq!(extract_tweet_video_url(&document), found(""));
}

#[test]
fn variants_without_bitrate_are_passed_over() {
    let playlist = object(vec![
        ("content_type", text("application/x-mpegURL")),
        ("url", text("playlist")),
    ]);
    let document = tweet(vec![playlist, variant(832000, "mid"), variant(256000, "low")]);
    assert_eq!(extract_tweet_video_url(&document), found("mid"));
}

#[test]
fn bitrate_must_be_a_non_negative_integer() {
    let document = tweet(vec![
        object(vec![("bitrate", text("900")), ("url", text("text"))]),
        object(vec![("bitrate", Json::OtherNumber), ("url", text("other"))]),
        object(vec![("bitrate", Json::Null), ("url", text("null"))]),
        variant(5, "five"),
    ]);
    assert_eq!(extract_tweet_video_url(&document), found("five"));
}

#[test]
fn variants_without_url_take_no_part() {
    let document = tweet(vec![
        object(vec![("bitrate", Json::Unsigned(500))]),
        variant(300, "x"),
    ]);
    assert_eq!(extract_tweet_video_url(&document), found("x"));
}

#[test]
fn url_of_the_best_must_be_text() {
    let document = tweet(vec![
        variant(100, "a"),
        object(vec![("bitrate", Json::Unsigned(200)), ("url", Json::Null)]),
    ]);
    assert_eq!(extract_tweet_video_url(&document), Err(Failure::UrlNotText));
    let document = tweet(vec![
        variant(300, "a"),
        object(vec![("bitrate", Json::Unsigned(200)), ("url", Json::Null)]),
    ]);
    assert_eq!(extract_tweet_video_url(&document), found("a"));
}

#[test]
fn failure_is_kept_whatever_follows() {
    let document = tweet(vec![
        object(vec![("bitrate", Json::Unsigned(200)), ("url", Json::Unsigned(1))]),
        variant(900, "late"),
    ]);
    assert_eq!(extract_tweet_video_url(&document), Err(Failure::UrlNotText));
}

#[test]
fn variants_must_be_a_list() {
    let document = tweet_with(object(vec![("variants", Json::Null)]));
    assert_eq!(extract_tweet_video_url(&document), Err(Failure::VariantsNotList));
    let document = tweet_with(object(vec![("variants", object(vec![]))]));
    assert_eq!(extract_tweet_video_url(&document), Err(Failure::VariantsNotList));
}

#[test]
fn each_missing_step_is_named() {
    let missing = |segment| Err(Failure::MissingSegment(segment));
    assert_eq!(
        extract_tweet_video_url(&object(vec![])),
        missing(PathSegment::ExtendedEntities)
    );
    assert_eq!(
        extract_tweet_video_url(&Json::Array(vec![])),
        missing(PathSegment::ExtendedEntities)
    );
    assert_eq!(
        extract_tweet_video_url(&object(vec![("extended_entities", object(vec![]))])),
        missing(PathSegment::Media)
    );
    assert_eq!(
        extract_tweet_video_url(&object(vec![(
            "extended_entities",
            object(vec![("media", Json::Array(vec![]))])
        )])),
        missing(PathSegment::FirstMedia)
    );
    assert_eq!(
        extract_tweet_video_url(&object(vec![(
            "extended_entities",
            object(vec![("media", object(vec![]))])
        )])),
        missing(PathSegment::FirstMedia)
    );
    assert_eq!(
        extract_tweet_video_url(&object(vec![(
            "extended_entities",
            object(vec![("media", Json::Array(vec![object(vec![])]))])
        )])),
        missing(PathSegment::VideoInfo)
    );
}

#[test]
fn only_the_first_media_is_read() {
    let first = object(vec![(
        "video_info",
        object(vec![("variants", Json::Array(vec![variant(1, "first")]))]),
    )]);
    let second = object(vec![(
        "video_info",
        object(vec![("variants", Json::Array(vec![variant(9, "second")]))]),
    )]);
    let document = object(vec![(
        "extended_entities",
        object(vec![("media", Json::Array(vec![first, second]))]),
    )]);
    assert_eq!(extract_tweet_video_url(&document), found("first"));
}

#[test]
fn find_variants_hands_out_the_list() {
    let document = tweet(vec![variant(1, "a")]);
    assert_eq!(
        find_variants(&document),
        Ok(Some(&Json::Array(vec![variant(1, "a")])))
    );
    assert_eq!(find_variants(&tweet_with(object(vec![]))), Ok(None));
}

#[test]
fn select_variant_reads_a_plain_list() {
    let list = vec![variant(2, "two"), variant(3, "three"), variant(1, "one")];
    assert_eq!(select_variant(&list), Ok("three".to_string()));
    assert_eq!(select_variant(&vec![]), Ok(String::new()));
    assert_eq!(
        select_variant(&vec![variant(u64::MAX, "top"), variant(u64::MAX, "again")]),
        Ok("top".to_string())
    );
}

#[test]
fn video_is_read_from_the_body_of_an_answer() {
    let body = r#"{"id": 20, "extended_entities": {"media": [{"type": "video", "video_info": {
        "aspect_ratio": [16, 9], "duration_millis": 1234,
        "variants": [
            {"content_type": "application/x-mpegURL", "url": "https://video.example/pl.m3u8"},
            {"bitrate": 256000, "content_type": "video/mp4", "url": "https://video.example/low.mp4"},
            {"bitrate": 2176000, "content_type": "video/mp4", "url": "https://video.example/high.mp4"},
            {"bitrate": 832000, "content_type": "video/mp4", "url": "https://video.example/mid.mp4"}
        ]}}]}}"#;
    assert_eq!(read_video_url(body), found("https://video.example/high.mp4"));
}

#[test]
fn numbers_that_are_no_unsigned_integers_offer_nothing() {
    let body = r#"{"extended_entities": {"media": [{"video_info": {"variants": [
            {"bitrate": -5, "url": "negative"},
            {"bitrate": 2.5, "url": "fraction"},
            {"bitrate": 1e3, "url": "exponent"},
            {"bitrate": 18446744073709551616, "url": "too large"},
            {"bitrate": "700", "url": "text"},
            {"bitrate": 18446744073709551615, "url": "largest"},
            {"bitrate": 3, "url": "three"}
        ]}}]}}"#;
    assert_eq!(read_video_url(body), found("largest"));
}

#[test]
fn body_that_is_not_json_fails() {
    let refusal = |words: &str| Err(Failure::InvalidJson(words.to_string()));
    assert_eq!(
        read_video_url("<html>"),
        refusal("expected value at line 1 column 1")
    );
    assert_eq!(
        read_video_url(""),
        refusal("EOF while parsing a value at line 1 column 0")
    );
    assert_eq!(
        read_video_url("{\"a\": 1} x"),
        refusal("trailing characters at line 1 column 10")
    );
}

#[test]
fn body_without_a_video_is_read_as_such() {
    assert_eq!(
        read_video_url(r#"{"extended_entities": {"media": [{"video_info": {}}]}}"#),
        Ok(None)
    );
    assert_eq!(
        read_video_url(r#"{"extended_entities": {"media": [{"video_info": {"variants": []}}]}}"#),
        found("")
    );
    assert_eq!(
        read_video_url(r#"{"text": "no media"}"#),
        Err(Failure::MissingSegment(PathSegment::ExtendedEntities))
    );
}
