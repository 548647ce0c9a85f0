//! The ways in which a run can fail. Every failure ends the run.

use vstd::prelude::*;
use vstd::string::*;

verus! {

/// One of the two settings that the configuration must hold.
#[derive(Clone, Copy, Debug, PartialEq, Eq, Structural)]
pub enum CredentialKey {
    ConsumerKey,
    ConsumerSecret,
}

impl CredentialKey {
    /// The name under which the setting stands in the configuration.
    pub open spec fn spec_name(self) -> Seq<char> {
        match self {
            CredentialKey::ConsumerKey => "CONSUMER_KEY"@,
            CredentialKey::ConsumerSecret => "CONSUMER_SECRET"@,
        }
    }

    pub fn name(self) -> (name: &'static str)
        ensures
            name@ == self.spec_name(),
    {
        match self {
            CredentialKey::ConsumerKey => "CONSUMER_KEY",
            CredentialKey::ConsumerSecret => "CONSUMER_SECRET",
        }
    }
}

/// A step on the way from a tweet to the list of its video variants.
#[derive(Clone, Copy, Debug, PartialEq, Eq, Structural)]
pub enum PathSegment {
    /// The member `extended_entities` of the tweet.
    ExtendedEntities,
    /// The member `media` below it.
    Media,
    /// The first element of `media`.
    FirstMedia,
    /// The member `video_info` of that element.
    VideoInfo,
}

impl PathSegment {
    /// What is said of a tweet that lacks this step.
    pub open spec fn spec_complaint(self) -> Seq<char> {
        match self {
            PathSegment::ExtendedEntities => "the tweet has no extended_entities."@,
            PathSegment::Media => "the tweet has no media."@,
            PathSegment::FirstMedia => "the tweet's media list is empty."@,
            PathSegment::VideoInfo => "the tweet's media has no video_info."@,
        }
    }

    /// What is said of a tweet that lacks this step.
    pub fn complaint(self) -> (line: &'static str)
        ensures
            line@ == self.spec_complaint(),
    {
        match self {
            PathSegment::ExtendedEntities => "the tweet has no extended_entities.",
            PathSegment::Media => "the tweet has no media.",
            PathSegment::FirstMedia => "the tweet's media list is empty.",
            PathSegment::VideoInfo => "the tweet's media has no video_info.",
        }
    }
}

/// The families of failure.
#[derive(Clone, Copy, Debug, PartialEq, Eq, Structural)]
pub enum FailureKind {
    Usage,
    PatternMismatch,
    Configuration,
    Transport,
    Protocol,
    Filesystem,
}

/// A failure, with what is known of its cause.
#[derive(Clone, Debug, PartialEq, Eq)]
pub enum Failure {
    /// No tweet address was given.
    Usage,
    /// The address does not have the shape of a tweet address.
    PatternMismatch,
    /// The configuration file does not exist.
    MissingConfiguration,
    /// The configuration lacks a setting.
    MissingKey(CredentialKey),
    /// A request could not be sent, or its answer could not be read.
    Transport(String),
    /// An answer is not JSON; the text says where and why.
    InvalidJson(String),
    /// The answer to the token request holds no text under `access_token`.
    MissingAccessToken,
    /// The tweet lacks a step on the way to its video variants.
    MissingSegment(PathSegment),
    /// What the tweet holds under `variants` is not a list.
    VariantsNotList,
    /// The address of the best variant is not text.
    UrlNotText,
    /// The directory or the file could not be written.
    Filesystem(String),
}

/// The mathematical value of a [`Failure`].
pub enum FailureView {
    Usage,
    PatternMismatch,
    MissingConfiguration,
    MissingKey(CredentialKey),
    Transport(Seq<char>),
    InvalidJson(Seq<char>),
    MissingAccessToken,
    MissingSegment(PathSegment),
    VariantsNotList,
    UrlNotText,
    Filesystem(Seq<char>),
}

impl View for Failure {
    type V = FailureView;

    open spec fn view(&self) -> FailureView {
        match self {
            Failure::Usage => FailureView::Usage,
            Failure::PatternMismatch => FailureView::PatternMismatch,
            Failure::MissingConfiguration => FailureView::MissingConfiguration,
            Failure::MissingKey(key) => FailureView::MissingKey(*key),
            Failure::Transport(detail) => FailureView::Transport(detail@),
            Failure::InvalidJson(detail) => FailureView::InvalidJson(detail@),
            Failure::MissingAccessToken => FailureView::MissingAccessToken,
            Failure::MissingSegment(segment) => FailureView::MissingSegment(*segment),
            Failure::VariantsNotList => FailureView::VariantsNotList,
            Failure::UrlNotText => FailureView::UrlNotText,
            Failure::Filesystem(detail) => FailureView::Filesystem(detail@),
        }
    }
}

impl FailureView {
    /// The family that this failure belongs to.
    pub open spec fn kind(self) -> FailureKind {
        match self {
            FailureView::Usage => FailureKind::Usage,
            FailureView::PatternMismatch => FailureKind::PatternMismatch,
            FailureView::MissingConfiguration => FailureKind::Configuration,
            FailureView::MissingKey(_) => FailureKind::Configuration,
            FailureView::Transport(_) => FailureKind::Transport,
            FailureView::InvalidJson(_) => FailureKind::Protocol,
            FailureView::MissingAccessToken => FailureKind::Protocol,
            FailureView::MissingSegment(_) => FailureKind::Protocol,
            FailureView::VariantsNotList => FailureKind::Protocol,
            FailureView::UrlNotText => FailureKind::Protocol,
            FailureView::Filesystem(_) => FailureKind::Filesystem,
        }
    }

    /// The exit status of a run that ends with this failure: 1 where no
    /// address was given, 101 for every other failure.
    pub open spec fn exit_code(self) -> u8 {
        if self.kind() == FailureKind::Usage {
            1
        } else {
            101
        }
    }

    /// The line shown to the user.
    pub open spec fn message(self) -> Seq<char> {
        match self {
            FailureView::Usage => "Usage: ./get-media-twitter [tweet-url]"@,
            FailureView::PatternMismatch => "the address is not that of a tweet."@,
            FailureView::MissingConfiguration => ".env not found in cwd."@,
            FailureView::MissingKey(key) => key.spec_name() + " not found in .env."@,
            FailureView::Transport(detail) => detail,
            FailureView::InvalidJson(detail) => "JSON parse failed.: "@ + detail,
            FailureView::MissingAccessToken => "the answer holds no access token."@,
            FailureView::MissingSegment(segment) => segment.spec_complaint(),
            FailureView::VariantsNotList => "the tweet's variants are not a list."@,
            FailureView::UrlNotText => "the address of the video is not text."@,
            FailureView::Filesystem(detail) => detail,
        }
    }
}

impl Failure {
    /// The family that this failure belongs to.
    pub fn kind(&self) -> (kind: FailureKind)
        ensures
            kind == self@.kind(),
    {
        match self {
            Failure::Usage => FailureKind::Usage,
            Failure::PatternMismatch => FailureKind::PatternMismatch,
            Failure::MissingConfiguration => FailureKind::Configuration,
            Failure::MissingKey(_) => FailureKind::Configuration,
            Failure::Transport(_) => FailureKind::Transport,
            Failure::InvalidJson(_) => FailureKind::Protocol,
            Failure::MissingAccessToken => FailureKind::Protocol,
            Failure::MissingSegment(_) => FailureKind::Protocol,
            Failure::VariantsNotList => FailureKind::Protocol,
            Failure::UrlNotText => FailureKind::Protocol,
            Failure::Filesystem(_) => FailureKind::Filesystem,
        }
    }

    /// The exit status of a run that ends with this failure.
    pub fn exit_code(&self) -> (code: u8)
        ensures
            code == self@.exit_code(),
            code != 0,
    {
        match self.kind() {
            FailureKind::Usage => 1,
            _ => 101,
        }
    }

    /// The line shown to the user.
    pub fn message(&self) -> (message: String)
        ensures
            message@ == self@.message(),
    {
        match self {
            Failure::Usage => "Usage: ./get-media-twitter [tweet-url]".to_owned(),
            Failure::PatternMismatch => "the address is not that of a tweet.".to_owned(),
            Failure::MissingConfiguration => ".env not found in cwd.".to_owned(),
            Failure::MissingKey(key) => key.name().to_owned().concat(" not found in .env."),
            Failure::Transport(detail) => detail.clone(),
            Failure::InvalidJson(detail) => "JSON parse failed.: ".to_owned().concat(
                detail.as_str(),
            ),
            Failure::MissingAccessToken => "the answer holds no access token.".to_owned(),
            Failure::MissingSegment(segment) => segment.complaint().to_owned(),
            Failure::VariantsNotList => "the tweet's variants are not a list.".to_owned(),
            Failure::UrlNotText => "the address of the video is not text.".to_owned(),
            Failure::Filesystem(detail) => detail.clone(),
        }
    }
}

} // verus!
