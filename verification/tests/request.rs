use get_media_twitter::credentials::Credentials;
use get_media_twitter::request::authorization_header;
use get_media_twitter::request::token_request;
use get_media_twitter::request::tweet_request;
use get_media_twitter::request::video_request;
use get_media_twitter::request::Method;
use get_media_twitter::request::Request;

fn credentials(key: &str, secret: &str) -> Credentials {
    Credentials {
        consumer_key: key.to_string(),
        consumer_secret: secret.to_string(),
    }
}

fn header(name: &str, value: &str) -> (String, String) {
    (name.to_string(), value.to_string())
}

#[test]
fn authorization_of_plain_credentials() {
    assert_eq!(
        authorization_header(&credentials(
            "xvz1evFS4wEEPTGEFPHBog",
            "L8qq9PZyRg6ieKGEKhZolGC0vJWLw8iEJ88DRdyOg"
        )),
        "Basic eHZ6MWV2RlM0d0VFUFRHRUZQSEJvZzpMOHFxOVBaeVJnNmllS0dFS2hab2xHQzB2SldMdzhpRUo4OERSZHlPZw=="
    );
}

#[test]
fn credentials_are_percent_encoded_first() {
    assert_eq!(
        authorization_header(&credentials("a b/c", "s+e=cr:t")),
        "Basic YSUyMGIlMkZjOnMlMkJlJTNEY3IlM0F0"
    );
    assert_eq!(
        authorization_header(&credentials("\u{43a}\u{43b}\u{44e}\u{447}", "p~q")),
        "Basic JUQwJUJBJUQwJUJCJUQxJThFJUQxJTg3OnB+cQ=="
    );
    assert_eq!(
        authorization_header(&credentials("k\u{7f}", "\u{e9}")),
        "Basic ayU3RjolQzMlQTk="
    );
}

#[test]
fn base64_is_padded_to_groups_of_four() {
    assert_eq!(authorization_header(&credentials("", "")), "Basic Og==");
    assert_eq!(authorization_header(&credentials("a", "")), "Basic YTo=");
    assert_eq!(authorization_header(&credentials("ab", "")), "Basic YWI6");
    assert_eq!(authorization_header(&credentials("abc", "x")), "Basic YWJjOng=");
}

#[test]
fn token_request_is_a_form_post() {
    let request = token_request(&credentials("abc", "x"));
    assert_eq!(
        request,
        Request {
            method: Method::Post,
            url: "https://api.twitter.com/oauth2/token".to_string(),
            headers: vec![
                header("authorization", "Basic YWJjOng="),
                header(
                    "content-type",
                    "application/x-www-form-urlencoded;charset=UTF-8"
                ),
                header("content-length", "29"),
            ],
            body: "grant_type=client_credentials".to_string(),
        }
    );
    assert_eq!(request.body.len().to_string(), request.headers[2].1);
}

#[test]
fn tweet_request_carries_the_token_and_the_id() {
    assert_eq!(
        tweet_request("TOKEN", "20"),
        Request {
            method: Method::Get,
            url: "https://api.twitter.com/1.1/statuses/show.json?id=20".to_string(),
            headers: vec![header("authorization", "Bearer TOKEN")],
            body: String::new(),
        }
    );
}

#[test]
fn video_request_is_a_bare_get() {
    assert_eq!(
        video_request("https://video.example/high.mp4"),
        Request {
            method: Method::Get,
            url: "https://video.example/high.mp4".to_string(),
            headers: vec![],
            body: String::new(),
        }
    );
}
