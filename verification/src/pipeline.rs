//! The run, step by step. The library decides; the caller acts.
//!
//! A run is in one [`State`] at a time. Each state but the two final ones
//! awaits one [`Event`], which the caller obtains by carrying out the state's
//! [`Action`]. [`advance`] takes the state and the event to the next state.
//! The run only moves forward, and the first failure ends it.
//!
//! The states follow the stages of a run: reading the command line, loading
//! the credentials, exchanging them for a token, fetching the tweet, and the
//! download, which has four steps of its own. The video is chosen in the step
//! that reads the tweet, for it needs nothing from outside.

use crate::credentials::credentials_of;
use crate::credentials::load_credentials;
use crate::credentials::Credentials;
use crate::credentials::CredentialsView;
use crate::failure::Failure;
use crate::failure::FailureView;
use crate::reference::parse_tweet_url;
use crate::reference::reading;
use crate::reference::target_path;
use crate::reference::TweetReference;
use crate::reference::TweetReferenceView;
use crate::request::spec_token_request;
use crate::request::spec_tweet_request;
use crate::request::spec_video_request;
use crate::request::token_request;
use crate::request::tweet_request;
use crate::request::video_request;
use crate::request::Request;
use crate::request::RequestView;
use crate::text::pairs;
use crate::token::read_access_token;
use crate::token::token_of;
use crate::video::read_video_url;
use crate::video::video_url_of;
use vstd::prelude::*;
use vstd::string::*;

verus! {

/// How a run ends when nothing fails.
#[derive(Clone, Debug, PartialEq, Eq)]
pub enum Outcome {
    /// The video was written to `path`; `bytes` is what the write reported.
    Saved { path: String, bytes: usize },
    /// The tweet has no video that could be fetched.
    NoVideo,
}

/// The mathematical value of an [`Outcome`].
pub enum OutcomeView {
    Saved { path: Seq<char>, bytes: usize },
    NoVideo,
}

impl View for Outcome {
    type V = OutcomeView;

    open spec fn view(&self) -> OutcomeView {
        match self {
            Outcome::Saved { path, bytes } => OutcomeView::Saved { path: path@, bytes: *bytes },
            Outcome::NoVideo => OutcomeView::NoVideo,
        }
    }
}

/// Where a run stands.
#[derive(Clone, Debug, PartialEq, Eq)]
pub enum State {
    /// Awaits the command line.
    ParseInput,
    /// Awaits the settings of the configuration file.
    LoadCredentials { reference: TweetReference },
    /// Awaits the answer to the token request.
    ExchangeToken { reference: TweetReference, credentials: Credentials },
    /// Awaits the answer to the tweet lookup.
    FetchTweet { reference: TweetReference, access_token: String },
    /// Awaits the bytes of the video.
    FetchVideo { target: String, url: String },
    /// Awaits the word on whether the directory of the target exists.
    ProbeDirectory { target: String },
    /// Awaits the creation of the directory of the target.
    CreateDirectory { target: String },
    /// Awaits the writing of the target.
    WriteFile { target: String },
    /// The run has ended well.
    Done(Outcome),
    /// The run has failed.
    Failed(Failure),
}

/// The mathematical value of a [`State`].
pub enum StateView {
    ParseInput,
    LoadCredentials { reference: TweetReferenceView },
    ExchangeToken { reference: TweetReferenceView, credentials: CredentialsView },
    FetchTweet { reference: TweetReferenceView, access_token: Seq<char> },
    FetchVideo { target: Seq<char>, url: Seq<char> },
    ProbeDirectory { target: Seq<char> },
    CreateDirectory { target: Seq<char> },
    WriteFile { target: Seq<char> },
    Done(OutcomeView),
    Failed(FailureView),
}

impl View for State {
    type V = StateView;

    open spec fn view(&self) -> StateView {
        match self {
            State::ParseInput => StateView::ParseInput,
            State::LoadCredentials { reference } => StateView::LoadCredentials {
                reference: reference@,
            },
            State::ExchangeToken { reference, credentials } => StateView::ExchangeToken {
                reference: reference@,
                credentials: credentials@,
            },
            State::FetchTweet { reference, access_token } => StateView::FetchTweet {
                reference: reference@,
                access_token: access_token@,
            },
            State::FetchVideo { target, url } => StateView::FetchVideo {
                target: target@,
                url: url@,
            },
            State::ProbeDirectory { target } => StateView::ProbeDirectory { target: target@ },
            State::CreateDirectory { target } => StateView::CreateDirectory { target: target@ },
            State::WriteFile { target } => StateView::WriteFile { target: target@ },
            State::Done(outcome) => StateView::Done(outcome@),
            State::Failed(failure) => StateView::Failed(failure@),
        }
    }
}

/// What the caller hands back after an action.
#[derive(Debug, PartialEq, Eq)]
pub enum Event {
    /// The command line, the program's own name first.
    Arguments(Vec<String>),
    /// The settings of the configuration file, or `None` where there is no
    /// such file.
    Configuration(Option<Vec<(String, String)>>),
    /// The body of the answer to a request, or why there is none.
    Answer(Result<String, String>),
    /// The video has arrived, or why it has not.
    Fetched(Result<(), String>),
    /// Whether the directory of the target exists.
    Probed(bool),
    /// The directory has been created, or why it has not.
    Created(Result<(), String>),
    /// The number of bytes that the write reported, or why it failed.
    Written(Result<usize, String>),
}

/// The mathematical value of an [`Event`].
pub enum EventView {
    Arguments(Seq<Seq<char>>),
    Configuration(Option<Seq<(Seq<char>, Seq<char>)>>),
    Answer(Result<Seq<char>, Seq<char>>),
    Fetched(Result<(), Seq<char>>),
    Probed(bool),
    Created(Result<(), Seq<char>>),
    Written(Result<usize, Seq<char>>),
}

/// The texts of a list, each taken as its characters.
pub open spec fn texts(list: Seq<String>) -> Seq<Seq<char>> {
    Seq::new(list.len(), |i: int| list[i]@)
}

impl View for Event {
    type V = EventView;

    open spec fn view(&self) -> EventView {
        match self {
            Event::Arguments(arguments) => EventView::Arguments(texts(arguments@)),
            Event::Configuration(store) => EventView::Configuration(
                match store {
                    Some(entries) => Some(pairs(entries@)),
                    None => None,
                },
            ),
            Event::Answer(answer) => EventView::Answer(
                match answer {
                    Ok(body) => Ok(body@),
                    Err(detail) => Err(detail@),
                },
            ),
            Event::Fetched(fetched) => EventView::Fetched(
                match fetched {
                    Ok(_) => Ok(()),
                    Err(detail) => Err(detail@),
                },
            ),
            Event::Probed(exists) => EventView::Probed(*exists),
            Event::Created(created) => EventView::Created(
                match created {
                    Ok(_) => Ok(()),
                    Err(detail) => Err(detail@),
                },
            ),
            Event::Written(written) => EventView::Written(
                match written {
                    Ok(bytes) => Ok(*bytes),
                    Err(detail) => Err(detail@),
                },
            ),
        }
    }
}

/// What the caller is to do in a state.
#[derive(Clone, Debug, PartialEq, Eq)]
pub enum Action {
    /// Hand in the command line.
    ReadArguments,
    /// Read the file `.env` of the working directory and hand in its
    /// settings.
    ReadConfiguration,
    /// Send the request and hand in the body of the answer as text.
    Send(Request),
    /// Send the request and keep the bytes of the answer.
    Fetch(Request),
    /// Look whether the directory of this path exists.
    ProbeDirectory(String),
    /// Create the directory of this path, and no directory above it.
    CreateDirectory(String),
    /// Create or empty the file at this path and write the bytes kept.
    WriteFile(String),
    /// End the process with this status.
    Exit(u8),
}

/// The mathematical value of an [`Action`].
pub enum ActionView {
    ReadArguments,
    ReadConfiguration,
    Send(RequestView),
    Fetch(RequestView),
    ProbeDirectory(Seq<char>),
    CreateDirectory(Seq<char>),
    WriteFile(Seq<char>),
    Exit(u8),
}

impl View for Action {
    type V = ActionView;

    open spec fn view(&self) -> ActionView {
        match self {
            Action::ReadArguments => ActionView::ReadArguments,
            Action::ReadConfiguration => ActionView::ReadConfiguration,
            Action::Send(request) => ActionView::Send(request@),
            Action::Fetch(request) => ActionView::Fetch(request@),
            Action::ProbeDirectory(path) => ActionView::ProbeDirectory(path@),
            Action::CreateDirectory(path) => ActionView::CreateDirectory(path@),
            Action::WriteFile(path) => ActionView::WriteFile(path@),
            Action::Exit(code) => ActionView::Exit(*code),
        }
    }
}

/// The state after the command line has come in: without an address the run
/// fails with `Usage`, with a text that holds no tweet address it fails with
/// `PatternMismatch`.
pub open spec fn after_arguments(arguments: Seq<Seq<char>>) -> StateView {
    if arguments.len() <= 1 {
        StateView::Failed(FailureView::Usage)
    } else {
        match reading(arguments[1]) {
            Some(reference) => StateView::LoadCredentials { reference },
            None => StateView::Failed(FailureView::PatternMismatch),
        }
    }
}

/// The state after the configuration has come in.
pub open spec fn after_configuration(
    reference: TweetReferenceView,
    store: Option<Seq<(Seq<char>, Seq<char>)>>,
) -> StateView {
    match credentials_of(store) {
        Ok(credentials) => StateView::ExchangeToken { reference, credentials },
        Err(failure) => StateView::Failed(failure),
    }
}

/// The state after the answer to the token request has come in.
pub open spec fn after_token(
    reference: TweetReferenceView,
    answer: Result<Seq<char>, Seq<char>>,
) -> StateView {
    match answer {
        Err(detail) => StateView::Failed(FailureView::Transport(detail)),
        Ok(body) => match token_of(body) {
            Ok(access_token) => StateView::FetchTweet { reference, access_token },
            Err(failure) => StateView::Failed(failure),
        },
    }
}

/// The state after the answer to the tweet lookup has come in. A tweet
/// without variants, and one whose best address is empty, end the run with
/// `NoVideo`.
pub open spec fn after_tweet(
    reference: TweetReferenceView,
    answer: Result<Seq<char>, Seq<char>>,
) -> StateView {
    match answer {
        Err(detail) => StateView::Failed(FailureView::Transport(detail)),
        Ok(body) => match video_url_of(body) {
            Err(failure) => StateView::Failed(failure),
            Ok(None) => StateView::Done(OutcomeView::NoVideo),
            Ok(Some(url)) => if url.len() == 0 {
                StateView::Done(OutcomeView::NoVideo)
            } else {
                StateView::FetchVideo { target: target_path(reference), url }
            },
        },
    }
}

/// The state that follows `state` on `event`. An event that the state does
/// not await leaves the state as it is; the two final states await none.
pub open spec fn next(state: StateView, event: EventView) -> StateView {
    match (state, event) {
        (StateView::ParseInput, EventView::Arguments(arguments)) => after_arguments(arguments),
        (
            StateView::LoadCredentials { reference },
            EventView::Configuration(store),
        ) => after_configuration(reference, store),
        (StateView::ExchangeToken { reference, .. }, EventView::Answer(answer)) => after_token(
            reference,
            answer,
        ),
        (StateView::FetchTweet { reference, .. }, EventView::Answer(answer)) => after_tweet(
            reference,
            answer,
        ),
        (StateView::FetchVideo { target, .. }, EventView::Fetched(Ok(_))) => {
            StateView::ProbeDirectory { target }
        },
        (StateView::FetchVideo { .. }, EventView::Fetched(Err(detail))) => StateView::Failed(
            FailureView::Transport(detail),
        ),
        (StateView::ProbeDirectory { target }, EventView::Probed(exists)) => if exists {
            StateView::WriteFile { target }
        } else {
            StateView::CreateDirectory { target }
        },
        (StateView::CreateDirectory { target }, EventView::Created(Ok(_))) => {
            StateView::WriteFile { target }
        },
        (StateView::CreateDirectory { .. }, EventView::Created(Err(detail))) => {
            StateView::Failed(FailureView::Filesystem(detail))
        },
        (StateView::WriteFile { target }, EventView::Written(Ok(bytes))) => StateView::Done(
            OutcomeView::Saved { path: target, bytes },
        ),
        (StateView::WriteFile { .. }, EventView::Written(Err(detail))) => StateView::Failed(
            FailureView::Filesystem(detail),
        ),
        (state, _) => state,
    }
}

/// What the caller is to do in `state`.
pub open spec fn action_of(state: StateView) -> ActionView {
    match state {
        StateView::ParseInput => ActionView::ReadArguments,
        StateView::LoadCredentials { .. } => ActionView::ReadConfiguration,
        StateView::ExchangeToken { credentials, .. } => ActionView::Send(
            spec_token_request(credentials),
        ),
        StateView::FetchTweet { reference, access_token } => ActionView::Send(
            spec_tweet_request(access_token, reference.tweet_id),
        ),
        StateView::FetchVideo { url, .. } => ActionView::Fetch(spec_video_request(url)),
        StateView::ProbeDirectory { target } => ActionView::ProbeDirectory(target),
        StateView::CreateDirectory { target } => ActionView::CreateDirectory(target),
        StateView::WriteFile { target } => ActionView::WriteFile(target),
        StateView::Done(_) => ActionView::Exit(0),
        StateView::Failed(failure) => ActionView::Exit(failure.exit_code()),
    }
}

/// The state in which every run starts.
pub fn start() -> (state: State)
    ensures
        state@ == StateView::ParseInput,
{
    State::ParseInput
}

/// Reads the command line.
pub fn on_arguments(arguments: &Vec<String>) -> (state: State)
    ensures
        state@ == after_arguments(texts(arguments@)),
{
    if arguments.len() <= 1 {
        return State::Failed(Failure::Usage);
    }
    match parse_tweet_url(arguments[1].as_str()) {
        Ok(reference) => State::LoadCredentials { reference },
        Err(failure) => State::Failed(failure),
    }
}

/// Picks the credentials from the configuration.
pub fn on_configuration(
    reference: TweetReference,
    store: &Option<Vec<(String, String)>>,
) -> (state: State)
    ensures
        state@ == after_configuration(
            reference@,
            match store {
                Some(entries) => Some(pairs(entries@)),
                None => None,
            },
        ),
{
    match store {
        None => State::Failed(Failure::MissingConfiguration),
        Some(entries) => match load_credentials(entries) {
            Ok(credentials) => State::ExchangeToken { reference, credentials },
            Err(failure) => State::Failed(failure),
        },
    }
}

/// Reads the answer to the token request.
pub fn on_token(reference: TweetReference, answer: Result<String, String>) -> (state: State)
    ensures
        state@ == after_token(
            reference@,
            match answer {
                Ok(body) => Ok(body@),
                Err(detail) => Err(detail@),
            },
        ),
{
    match answer {
        Err(detail) => State::Failed(Failure::Transport(detail)),
        Ok(body) => match read_access_token(body.as_str()) {
            Ok(access_token) => State::FetchTweet { reference, access_token },
            Err(failure) => State::Failed(failure),
        },
    }
}

/// Reads the answer to the tweet lookup and chooses the video.
pub fn on_tweet(reference: TweetReference, answer: Result<String, String>) -> (state: State)
    ensures
        state@ == after_tweet(
            reference@,
            match answer {
                Ok(body) => Ok(body@),
                Err(detail) => Err(detail@),
            },
        ),
{
    match answer {
        Err(detail) => State::Failed(Failure::Transport(detail)),
        Ok(body) => match read_video_url(body.as_str()) {
            Err(failure) => State::Failed(failure),
            Ok(None) => State::Done(Outcome::NoVideo),
            Ok(Some(url)) => if url.as_str().is_empty() {
                State::Done(Outcome::NoVideo)
            } else {
                State::FetchVideo { target: reference.download_target(), url }
            },
        },
    }
}

/// Takes a run from one state to the next.
pub fn advance(state: State, event: Event) -> (following: State)
    ensures
        following@ == next(state@, event@),
{
    match (state, event) {
        (State::ParseInput, Event::Arguments(arguments)) => on_arguments(&arguments),
        (State::LoadCredentials { reference }, Event::Configuration(store)) => on_configuration(
            reference,
            &store,
        ),
        (State::ExchangeToken { reference, .. }, Event::Answer(answer)) => on_token(
            reference,
            answer,
        ),
        (State::FetchTweet { reference, .. }, Event::Answer(answer)) => on_tweet(
            reference,
            answer,
        ),
        (State::FetchVideo { target, .. }, Event::Fetched(Ok(_))) => State::ProbeDirectory {
            target,
        },
        (State::FetchVideo { .. }, Event::Fetched(Err(detail))) => State::Failed(
            Failure::Transport(detail),
        ),
        (State::ProbeDirectory { target }, Event::Probed(exists)) => if exists {
            State::WriteFile { target }
        } else {
            State::CreateDirectory { target }
        },
        (State::CreateDirectory { target }, Event::Created(Ok(_))) => State::WriteFile { target },
        (State::CreateDirectory { .. }, Event::Created(Err(detail))) => State::Failed(
            Failure::Filesystem(detail),
        ),
        (State::WriteFile { target }, Event::Written(Ok(bytes))) => State::Done(
            Outcome::Saved { path: target, bytes },
        ),
        (State::WriteFile { .. }, Event::Written(Err(detail))) => State::Failed(
            Failure::Filesystem(detail),
        ),
        (state, _) => state,
    }
}

/// Tells what the caller is to do in a state.
pub fn next_action(state: &State) -> (action: Action)
    ensures
        action@ == action_of(state@),
{
    match state {
        State::ParseInput => Action::ReadArguments,
        State::LoadCredentials { .. } => Action::ReadConfiguration,
        State::ExchangeToken { credentials, .. } => Action::Send(token_request(credentials)),
        State::FetchTweet { reference, access_token } => Action::Send(
            tweet_request(access_token.as_str(), reference.tweet_id.as_str()),
        ),
        State::FetchVideo { url, .. } => Action::Fetch(video_request(url.as_str())),
        State::ProbeDirectory { target } => Action::ProbeDirectory(target.clone()),
        State::CreateDirectory { target } => Action::CreateDirectory(target.clone()),
        State::WriteFile { target } => Action::WriteFile(target.clone()),
        State::Done(_) => Action::Exit(0),
        State::Failed(failure) => Action::Exit(failure.exit_code()),
    }
}

/// Where a line for the user goes.
#[derive(Clone, Copy, Debug, PartialEq, Eq, Structural)]
pub enum Stream {
    /// Standard output.
    Output,
    /// Standard error.
    Complaint,
}

/// A line for the user.
#[derive(Clone, Debug, PartialEq, Eq)]
pub struct Notice {
    pub stream: Stream,
    pub line: String,
}

/// The mathematical value of a [`Notice`].
pub struct NoticeView {
    pub stream: Stream,
    pub line: Seq<char>,
}

impl View for Notice {
    type V = NoticeView;

    open spec fn view(&self) -> NoticeView {
        NoticeView { stream: self.stream, line: self.line@ }
    }
}

/// The line shown when a state is entered: the address of the video before
/// it is fetched, the path of the file once it is saved, and the message of
/// a failure. The usage line goes to standard output, every other failure to
/// standard error. The other states show nothing.
pub open spec fn notice_of(state: StateView) -> Option<NoticeView> {
    match state {
        StateView::FetchVideo { url, .. } => Some(NoticeView { stream: Stream::Output, line: url }),
        StateView::Done(OutcomeView::Saved { path, .. }) => Some(
            NoticeView { stream: Stream::Output, line: "file saved ["@ + path + "]"@ },
        ),
        StateView::Failed(failure) => Some(
            NoticeView {
                stream: if failure == FailureView::Usage {
                    Stream::Output
                } else {
                    Stream::Complaint
                },
                line: failure.message(),
            },
        ),
        _ => None,
    }
}

/// Tells what to show to the user when a state is entered.
pub fn notice(state: &State) -> (shown: Option<Notice>)
    ensures
        match shown {
            Some(notice) => notice_of(state@) == Some(notice@),
            None => notice_of(state@) is None,
        },
{
    match state {
        State::FetchVideo { url, .. } => Some(Notice { stream: Stream::Output, line: url.clone() }),
        State::Done(Outcome::Saved { path, .. }) => {
            let mut line = "file saved [".to_owned();
            line.append(path.as_str());
            line.append("]");
            Some(Notice { stream: Stream::Output, line })
        },
        State::Failed(failure) => {
            let stream = match failure {
                Failure::Usage => Stream::Output,
                _ => Stream::Complaint,
            };
            Some(Notice { stream, line: failure.message() })
        },
        _ => None,
    }
}

/// The run is over in this state.
pub open spec fn is_final(state: StateView) -> bool {
    state is Done || state is Failed
}

/// How far a run has come: the place of its state in the order in which the
/// states follow each other.
pub open spec fn stage(state: StateView) -> nat {
    match state {
        StateView::ParseInput => 0,
        StateView::LoadCredentials { .. } => 1,
        StateView::ExchangeToken { .. } => 2,
        StateView::FetchTweet { .. } => 3,
        StateView::FetchVideo { .. } => 4,
        StateView::ProbeDirectory { .. } => 5,
        StateView::CreateDirectory { .. } => 6,
        StateView::WriteFile { .. } => 7,
        StateView::Done(_) => 8,
        StateView::Failed(_) => 8,
    }
}

/// The state awaits this event.
pub open spec fn awaits(state: StateView, event: EventView) -> bool {
    match (state, event) {
        (StateView::ParseInput, EventView::Arguments(_)) => true,
        (StateView::LoadCredentials { .. }, EventView::Configuration(_)) => true,
        (StateView::ExchangeToken { .. }, EventView::Answer(_)) => true,
        (StateView::FetchTweet { .. }, EventView::Answer(_)) => true,
        (StateView::FetchVideo { .. }, EventView::Fetched(_)) => true,
        (StateView::ProbeDirectory { .. }, EventView::Probed(_)) => true,
        (StateView::CreateDirectory { .. }, EventView::Created(_)) => true,
        (StateView::WriteFile { .. }, EventView::Written(_)) => true,
        _ => false,
    }
}

/// The action asks for a request to be sent.
pub open spec fn uses_network(action: ActionView) -> bool {
    action is Send || action is Fetch
}

/// The action writes to the disk.
pub open spec fn writes_disk(action: ActionView) -> bool {
    action is CreateDirectory || action is WriteFile
}

/// A run only moves forward: an awaited event takes it to a later stage, and
/// any other event leaves it where it is.
pub proof fn lemma_moves_forward(state: StateView, event: EventView)
    ensures
        awaits(state, event) ==> stage(next(state, event)) > stage(state),
        !awaits(state, event) ==> next(state, event) == state,
{
}

/// A run that is over stays as it is, whatever comes in.
pub proof fn lemma_final_states_stay(state: StateView, event: EventView)
    requires
        is_final(state),
    ensures
        next(state, event) == state,
{
}

/// A run ends with status 0 exactly where it is done, and with a status
/// other than 0 exactly where it has failed; a run that is not over does not
/// end.
pub proof fn lemma_exit_status(state: StateView)
    ensures
        action_of(state) == ActionView::Exit(0) <==> state is Done,
        action_of(state) == ActionView::Exit(1) <==> state == StateView::Failed(FailureView::Usage),
        action_of(state) is Exit <==> is_final(state),
{
}

/// A configuration without the credentials fails the run before anything is
/// sent: the run fails with a failure of the configuration as soon as the
/// settings come in, and no state up to there asks for a request.
pub proof fn lemma_configuration_before_network(
    reference: TweetReferenceView,
    store: Option<Seq<(Seq<char>, Seq<char>)>>,
)
    requires
        credentials_of(store) is Err,
    ensures
        next(
            StateView::LoadCredentials { reference },
            EventView::Configuration(store),
        ) matches StateView::Failed(failure) && failure.kind()
            == crate::failure::FailureKind::Configuration,
        forall|state: StateView|
            stage(state) <= 1 || is_final(state) ==> !uses_network(#[trigger] action_of(state)),
{
}

/// A tweet without variants ends the run well: nothing is shown, nothing is
/// fetched or written, and the status is 0.
pub proof fn lemma_no_video_ends_quietly(
    reference: TweetReferenceView,
    access_token: Seq<char>,
    body: Seq<char>,
)
    requires
        video_url_of(body) == Ok::<Option<Seq<char>>, FailureView>(None),
    ensures
        next(
            StateView::FetchTweet { reference, access_token },
            EventView::Answer(Ok(body)),
        ) == StateView::Done(OutcomeView::NoVideo),
        notice_of(StateView::Done(OutcomeView::NoVideo)) is None,
        action_of(StateView::Done(OutcomeView::NoVideo)) == ActionView::Exit(0),
{
}

/// The disk is written only after the video has arrived.
pub proof fn lemma_write_after_fetch(state: StateView)
    requires
        writes_disk(action_of(state)),
    ensures
        stage(state) > 4,
{
}

} // verus!
