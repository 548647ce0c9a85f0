//! The two credentials of the application, and how they are picked from the
//! settings of the configuration file.

use crate::failure::CredentialKey;
use crate::failure::Failure;
use crate::failure::FailureView;
use crate::text::member;
use crate::text::pairs;
use vstd::prelude::*;
use vstd::string::*;

verus! {

/// The key and the secret with which the application asks for a token.
#[derive(Clone, Debug, PartialEq, Eq)]
pub struct Credentials {
    pub consumer_key: String,
    pub consumer_secret: String,
}

/// The mathematical value of [`Credentials`].
pub struct CredentialsView {
    pub consumer_key: Seq<char>,
    pub consumer_secret: Seq<char>,
}

impl View for Credentials {
    type V = CredentialsView;

    open spec fn view(&self) -> CredentialsView {
        CredentialsView {
            consumer_key: self.consumer_key@,
            consumer_secret: self.consumer_secret@,
        }
    }
}

/// The credentials that the settings hold. `CONSUMER_KEY` is looked for
/// first; where both are missing, the failure names the key.
pub open spec fn credentials_in(entries: Seq<(Seq<char>, Seq<char>)>) -> Result<
    CredentialsView,
    FailureView,
> {
    match member(entries, CredentialKey::ConsumerKey.spec_name()) {
        None => Err(FailureView::MissingKey(CredentialKey::ConsumerKey)),
        Some(key) => match member(entries, CredentialKey::ConsumerSecret.spec_name()) {
            None => Err(FailureView::MissingKey(CredentialKey::ConsumerSecret)),
            Some(secret) => Ok(CredentialsView { consumer_key: key, consumer_secret: secret }),
        },
    }
}

/// The credentials for a configuration: the file may be missing, which is the
/// failure `MissingConfiguration`.
pub open spec fn credentials_of(store: Option<Seq<(Seq<char>, Seq<char>)>>) -> Result<
    CredentialsView,
    FailureView,
> {
    match store {
        None => Err(FailureView::MissingConfiguration),
        Some(entries) => credentials_in(entries),
    }
}

/// The value of the first setting named `name`.
pub fn setting<'a>(entries: &'a Vec<(String, String)>, name: &str) -> (found: Option<&'a String>)
    ensures
        match found {
            Some(value) => member(pairs(entries@), name@) == Some(value@),
            None => member(pairs(entries@), name@) is None,
        },
{
    let wanted = name.to_owned();
    let ghost all = pairs(entries@);
    let mut i: usize = 0;
    assert(all.skip(0) == all);
    while i < entries.len()
        invariant
            i <= entries.len(),
            wanted@ == name@,
            all == pairs(entries@),
            member(all, name@) == member(all.skip(i as int), name@),
        decreases entries.len() - i,
    {
        assert(all.skip(i as int)[0] == all[i as int]);
        if entries[i].0 == wanted {
            return Some(&entries[i].1);
        }
        assert(all.skip(i as int).drop_first() == all.skip(i as int + 1));
        i += 1;
    }
    None
}

/// Picks the credentials from the settings of the configuration file.
///
/// Fails with `MissingKey`, naming the first of `CONSUMER_KEY` and
/// `CONSUMER_SECRET` that the settings lack.
pub fn load_credentials(entries: &Vec<(String, String)>) -> (loaded: Result<Credentials, Failure>)
    ensures
        match loaded {
            Ok(credentials) => credentials_in(pairs(entries@)) == Ok::<_, FailureView>(
                credentials@,
            ),
            Err(failure) => credentials_in(pairs(entries@)) == Err::<CredentialsView, FailureView>(
                failure@,
            ),
        },
{
    let consumer_key = match setting(entries, CredentialKey::ConsumerKey.name()) {
        Some(value) => value.clone(),
        None => return Err(Failure::MissingKey(CredentialKey::ConsumerKey)),
    };
    let consumer_secret = match setting(entries, CredentialKey::ConsumerSecret.name()) {
        Some(value) => value.clone(),
        None => return Err(Failure::MissingKey(CredentialKey::ConsumerSecret)),
    };
    Ok(Credentials { consumer_key, consumer_secret })
}

} // verus!
