//! The three requests of a run, described as plain values: the exchange of
//! the credentials for a token, the lookup of the tweet, and the fetch of
//! the video.

use crate::credentials::Credentials;
use crate::credentials::CredentialsView;
use crate::encoding::base64_encode;
use crate::encoding::base64_text;
use crate::encoding::percent_encode;
use crate::encoding::percent_encoded;
use crate::text::pairs;
use vstd::prelude::*;
use vstd::string::*;
use vstd::utf8::encode_utf8;

verus! {

/// The method of a request.
#[derive(Clone, Copy, Debug, PartialEq, Eq, Structural)]
pub enum Method {
    Get,
    Post,
}

/// A request to send: where, how, with which headers and which body. A
/// request without a body has the empty text as its body.
#[derive(Clone, Debug, PartialEq, Eq)]
pub struct Request {
    pub method: Method,
    pub url: String,
    pub headers: Vec<(String, String)>,
    pub body: String,
}

/// The mathematical value of a [`Request`].
pub struct RequestView {
    pub method: Method,
    pub url: Seq<char>,
    pub headers: Seq<(Seq<char>, Seq<char>)>,
    pub body: Seq<char>,
}

impl View for Request {
    type V = RequestView;

    open spec fn view(&self) -> RequestView {
        RequestView {
            method: self.method,
            url: self.url@,
            headers: pairs(self.headers@),
            body: self.body@,
        }
    }
}

/// The user name and the password of the token request: the key and the
/// secret, each percent-encoded, with a colon between them.
pub open spec fn basic_credentials(credentials: CredentialsView) -> Seq<char> {
    percent_encoded(encode_utf8(credentials.consumer_key)) + ":"@ + percent_encoded(
        encode_utf8(credentials.consumer_secret),
    )
}

/// The `Authorization` header of the token request: `Basic` and the base64
/// text of the credentials.
pub open spec fn basic_authorization(credentials: CredentialsView) -> Seq<char> {
    "Basic "@ + base64_text(encode_utf8(basic_credentials(credentials)))
}

/// The body of the token request.
pub open spec fn token_body() -> Seq<char> {
    "grant_type=client_credentials"@
}

/// The request that exchanges the credentials for a token.
pub open spec fn spec_token_request(credentials: CredentialsView) -> RequestView {
    RequestView {
        method: Method::Post,
        url: "https://api.twitter.com/oauth2/token"@,
        headers: seq![
            ("authorization"@, basic_authorization(credentials)),
            ("content-type"@, "application/x-www-form-urlencoded;charset=UTF-8"@),
            ("content-length"@, "29"@),
        ],
        body: token_body(),
    }
}

/// The `Authorization` header of the tweet lookup.
pub open spec fn bearer_authorization(access_token: Seq<char>) -> Seq<char> {
    "Bearer "@ + access_token
}

/// The request that looks up a tweet by its id.
pub open spec fn spec_tweet_request(access_token: Seq<char>, tweet_id: Seq<char>) -> RequestView {
    RequestView {
        method: Method::Get,
        url: "https://api.twitter.com/1.1/statuses/show.json?id="@ + tweet_id,
        headers: seq![("authorization"@, bearer_authorization(access_token))],
        body: Seq::empty(),
    }
}

/// The request that fetches a video.
pub open spec fn spec_video_request(url: Seq<char>) -> RequestView {
    RequestView { method: Method::Get, url: url, headers: Seq::empty(), body: Seq::empty() }
}

/// Builds the value of the `Authorization` header of the token request.
pub fn authorization_header(credentials: &Credentials) -> (header: String)
    ensures
        header@ == basic_authorization(credentials@),
{
    let mut joined = percent_encode(credentials.consumer_key.as_str());
    let secret = percent_encode(credentials.consumer_secret.as_str());
    joined.append(":");
    joined.append(secret.as_str());
    let encoded = base64_encode(joined.as_str());
    "Basic ".to_owned().concat(encoded.as_str())
}

/// Builds the request that exchanges the credentials for a token.
pub fn token_request(credentials: &Credentials) -> (request: Request)
    ensures
        request@ == spec_token_request(credentials@),
{
    let mut headers: Vec<(String, String)> = Vec::new();
    headers.push(("authorization".to_owned(), authorization_header(credentials)));
    headers.push(
        (
            "content-type".to_owned(),
            "application/x-www-form-urlencoded;charset=UTF-8".to_owned(),
        ),
    );
    headers.push(("content-length".to_owned(), "29".to_owned()));
    let request = Request {
        method: Method::Post,
        url: "https://api.twitter.com/oauth2/token".to_owned(),
        headers,
        body: "grant_type=client_credentials".to_owned(),
    };
    assert(request@.headers == spec_token_request(credentials@).headers);
    request
}

/// Builds the request that looks up a tweet by its id.
pub fn tweet_request(access_token: &str, tweet_id: &str) -> (request: Request)
    ensures
        request@ == spec_tweet_request(access_token@, tweet_id@),
{
    let mut headers: Vec<(String, String)> = Vec::new();
    headers.push(("authorization".to_owned(), "Bearer ".to_owned().concat(access_token)));
    let request = Request {
        method: Method::Get,
        url: "https://api.twitter.com/1.1/statuses/show.json?id=".to_owned().concat(tweet_id),
        headers,
        body: String::new(),
    };
    assert(request@.headers == spec_tweet_request(access_token@, tweet_id@).headers);
    request
}

/// Builds the request that fetches a video.
pub fn video_request(url: &str) -> (request: Request)
    ensures
        request@ == spec_video_request(url@),
{
    let request = Request {
        method: Method::Get,
        url: url.to_owned(),
        headers: Vec::new(),
        body: String::new(),
    };
    assert(request@.headers == spec_video_request(url@).headers);
    request
}

/// The header `content-length` of the token request counts the bytes of its
/// body: the body has 29 bytes, and the header reads `29`.
pub proof fn lemma_token_body_length(credentials: CredentialsView)
    ensures
        encode_utf8(token_body()).len() == 29,
        spec_token_request(credentials).headers[2] == ("content-length"@, seq!['2', '9']),
{
    reveal_strlit("grant_type=client_credentials");
    reveal_strlit("29");
    vstd::utf8::is_ascii_chars_encode_utf8(token_body());
    assert("29"@ =~= seq!['2', '9']);
}

} // verus!
