//! The access token, as read from the answer to the token request.

use crate::failure::Failure;
use crate::failure::FailureView;
use crate::json::parsed_json;
use crate::json::parse_json;
use crate::json::Json;
use crate::json::JsonView;
use vstd::prelude::*;
use vstd::string::*;

verus! {

/// The token that an answer holds: the text under `access_token`. An answer
/// without that member, or with something else than text under it, holds
/// none.
pub open spec fn token_in(answer: JsonView) -> Result<Seq<char>, FailureView> {
    match answer.get("access_token"@) {
        Some(JsonView::Text(token)) => Ok(token),
        _ => Err(FailureView::MissingAccessToken),
    }
}

/// The token that the body of an answer holds. A body that is not JSON is
/// the failure `InvalidJson`.
pub open spec fn token_of(body: Seq<char>) -> Result<Seq<char>, FailureView> {
    match parsed_json(body) {
        Err(failure) => Err(failure),
        Ok(answer) => token_in(answer),
    }
}

/// Takes the access token from the answer to the token request.
pub fn access_token_of(answer: &Json) -> (token: Result<String, Failure>)
    ensures
        match token {
            Ok(text) => token_in(answer@) == Ok::<_, FailureView>(text@),
            Err(failure) => token_in(answer@) == Err::<Seq<char>, FailureView>(failure@),
        },
{
    match answer.get("access_token") {
        Some(value) => match value.as_str() {
            Some(text) => Ok(text.to_owned()),
            None => Err(Failure::MissingAccessToken),
        },
        None => Err(Failure::MissingAccessToken),
    }
}

/// Reads the access token from the body of the answer to the token request.
pub fn read_access_token(body: &str) -> (token: Result<String, Failure>)
    ensures
        match token {
            Ok(text) => token_of(body@) == Ok::<_, FailureView>(text@),
            Err(failure) => token_of(body@) == Err::<Seq<char>, FailureView>(failure@),
        },
{
    match parse_json(body) {
        Ok(answer) => access_token_of(&answer),
        Err(failure) => Err(failure),
    }
}

} // verus!
