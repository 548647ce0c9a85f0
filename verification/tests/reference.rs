use get_media_twitter::failure::Failure;
use get_media_twitter::reference::parse_tweet_url;
use get_media_twitter::reference::TweetReference;

fn read(url: &str) -> Option<(String, String)> {
    match parse_tweet_url(url) {
        Ok(TweetReference { author, tweet_id }) => Some((author, tweet_id)),
        Err(failure) => {
            assert_eq!(failure, Failure::PatternMismatch);
            None
        }
    }
}

fn pair(author: &str, tweet_id: &str) -> Option<(String, String)> {
    Some((author.to_string(), tweet_id.to_string()))
}

#[test]
fn plain_address_gives_handle_and_id() {
    assert_eq!(
        read("https://twitter.com/jack/status/20"),
        pair("jack", "20")
    );
    assert_eq!(
        read("https://twitter.com/NASA/status/1410301234567890123"),
        pair("NASA", "1410301234567890123")
    );
}

#[test]
fn nothing_is_lost_or_added() {
    for handle in ["a", "Some_Handle", "@at", "with space", "ünï", "x/y", ""] {
        for id in ["0", "7", "0012", "18446744073709551616000"] {
            let url = format!("https://twitter.com/{}/status/{}", handle, id);
            assert_eq!(read(&url), pair(handle, id));
        }
    }
}

#[test]
fn handle_is_not_normalised() {
    assert_eq!(
        read("https://twitter.com/@MiXeD/status/1"),
        pair("@MiXeD", "1")
    );
}

#[test]
fn missing_status_fails() {
    assert_eq!(read("https://twitter.com/jack/20"), None);
    assert_eq!(read("https://twitter.com/jack/statuses/20"), None);
    assert_eq!(read("https://twitter.com/jack/status20"), None);
}

#[test]
fn non_numeric_id_fails() {
    assert_eq!(read("https://twitter.com/jack/status/abc"), None);
    assert_eq!(read("https://twitter.com/jack/status/"), None);
    assert_eq!(read("https://twitter.com/jack/status/-5"), None);
}

#[test]
fn wrong_host_fails() {
    assert_eq!(read("https://example.com/jack/status/20"), None);
    assert_eq!(read("http://twitter.com/jack/status/20"), None);
    assert_eq!(read("https://twitterXcom/jack/status/20"), None);
    assert_eq!(read("https://twitter.com"), None);
}

#[test]
fn empty_text_fails() {
    assert_eq!(read(""), None);
}

#[test]
fn what_follows_the_digits_is_left_out() {
    assert_eq!(
        read("https://twitter.com/jack/status/20?s=21"),
        pair("jack", "20")
    );
    assert_eq!(
        read("https://twitter.com/jack/status/20/photo/1"),
        pair("jack", "20")
    );
    assert_eq!(
        read("https://twitter.com/jack/status/20abc"),
        pair("jack", "20")
    );
}

#[test]
fn address_may_start_anywhere() {
    assert_eq!(
        read("see https://twitter.com/jack/status/20 now"),
        pair("jack", "20")
    );
}

#[test]
fn handle_runs_to_the_last_status() {
    assert_eq!(
        read("https://twitter.com/a/status/1/status/2"),
        pair("a/status/1", "2")
    );
    assert_eq!(
        read("https://twitter.com/a/status/1/status/x"),
        pair("a", "1")
    );
}

#[test]
fn handle_stays_within_one_line() {
    assert_eq!(read("https://twitter.com/a\nb/status/1"), None);
    assert_eq!(
        read("https://twitter.com/a/status/1\n/status/2"),
        pair("a", "1")
    );
}

#[test]
fn first_start_wins() {
    assert_eq!(
        read("https://twitter.com/a/status/1 https://twitter.com/b/status/2"),
        pair("a/status/1 https://twitter.com/b", "2")
    );
    assert_eq!(
        read("https://twitter.com/a\nhttps://twitter.com/b/status/2"),
        pair("b", "2")
    );
}

#[test]
fn digits_are_the_ten_ascii_digits() {
    assert_eq!(read("https://twitter.com/a/status/\u{0663}"), None);
    assert_eq!(
        read("https://twitter.com/a/status/4\u{0663}"),
        pair("a", "4")
    );
}

#[test]
fn reading_agrees_with_a_regular_expression() {
    let pattern = regex::Regex::new(r"https://twitter\.com/(.*)/status/([0-9]+)").unwrap();
    let texts = [
        "https://twitter.com/jack/status/20",
        "https://twitter.com/jack/status/20?s=21",
        "x https://twitter.com/a/status/1/status/2 y",
        "https://twitter.com/a/status/1/status/x",
        "https://twitter.com/a\nb/status/1",
        "https://twitter.com/a/status/1\n/status/2",
        "https://twitter.com/a\nhttps://twitter.com/b/status/2",
        "https://twitter.com/a/status/1 https://twitter.com/b/status/2",
        "https://twitter.com//status/1",
        "https://twitter.com/status/1",
        "https://twitter.com/jack/status/",
        "https://twitterXcom/jack/status/20",
        "https://twitter.com/é/status/9é",
        "https://twitter.com/https://twitter.com/q/status/3",
        "",
    ];
    for text in texts {
        let expected = pattern
            .captures(text)
            .map(|found| (found[1].to_string(), found[2].to_string()));
        assert_eq!(read(text), expected, "on {:?}", text);
    }
}

#[test]
fn target_is_author_slash_id_mp4() {
    let reference = parse_tweet_url("https://twitter.com/jack/status/20").unwrap();
    assert_eq!(reference.download_target(), "jack/20.mp4");
    let reference = TweetReference {
        author: "a/b".to_string(),
        tweet_id: "7".to_string(),
    };
    assert_eq!(reference.download_target(), "a/b/7.mp4");
}
