//! One retrieval of a resource, step by step.
//!
//! A retrieval looks at the store first. A fresh stored response is read
//! back; otherwise the resource is downloaded. An answer with a status of
//! success is written to the store, so that the latest response can always
//! be inspected there; an answer with any other status ends the retrieval
//! with a transport error, and is neither stored nor decoded. A body that
//! was read or stored is then decoded. The library decides each step; the
//! caller carries it out and reports what happened.

use crate::cache::{cache_is_fresh, cache_key, is_fresh, CacheProbe, Ttl};
use crate::client::Client;
use crate::error::{Error, ErrorView};
use crate::text::{decimal, decimal_string};
use vstd::prelude::*;

verus! {

/// What every request gives as its user agent.
pub const USER_AGENT: &'static str = "reqwest";

/// How the message begins that tells of an answer without success.
pub const STATUS_LABEL: &'static str = "HTTP status ";

/// What stands between the status and the body in that message.
pub const STATUS_SEPARATOR: &'static str = ": ";

/// Whether `status` tells of success: the statuses from 200 to 299.
pub open spec fn is_success(status: u16) -> bool {
    200 <= status <= 299
}

/// What is said of an answer without success: its status in decimal
/// notation, and after it the body that came with it.
pub open spec fn status_message(status: u16, text: Seq<char>) -> Seq<char> {
    STATUS_LABEL@ + decimal(status as nat) + STATUS_SEPARATOR@ + text
}

/// Whether `status` tells of success.
pub fn status_is_success(status: u16) -> (yes: bool)
    ensures
        yes == is_success(status),
{
    200 <= status && status <= 299
}

/// What is said of an answer with the status `status` and the body `text`.
pub fn describe_status(status: u16, text: &str) -> (message: String)
    ensures
        message@ == status_message(status, text@),
{
    let mut message = STATUS_LABEL.to_owned();
    let number = decimal_string(status as u32);
    message.append(number.as_str());
    message.append(STATUS_SEPARATOR);
    message.append(text);
    message
}

/// The shape that a body is expected to have.
#[derive(Clone, Copy, Debug, PartialEq, Eq, Structural)]
pub enum ResourceKind {
    /// A list of notifications.
    Notifications,
    /// One user.
    User,
    /// One pull request.
    PullRequest,
    /// One issue.
    Issue,
}

/// The state of one retrieval of a value of type `T`.
#[derive(Clone, Debug, PartialEq, Eq)]
pub enum Fetch<T> {
    /// The store has to be looked at.
    Probing { url: String, file: String, ttl: Option<Ttl>, kind: ResourceKind },
    /// The stored response is fresh and has to be read.
    Reading { url: String, file: String, kind: ResourceKind },
    /// Nothing fresh is stored: the resource has to be downloaded.
    Downloading { url: String, file: String, kind: ResourceKind },
    /// The downloaded body has to be written to the store.
    Storing { url: String, file: String, body: String, kind: ResourceKind },
    /// The body has to be decoded.
    Decoding { body: String, kind: ResourceKind },
    /// The retrieval is over and gave `value`.
    Done { value: T },
    /// The retrieval is over and gave nothing.
    Failed { error: Error },
}

/// What the caller reports back.
#[derive(Clone, Debug, PartialEq, Eq)]
pub enum Event<T> {
    /// The store was looked at, at the time `now` (nanoseconds since the
    /// Unix epoch).
    Probed { probe: CacheProbe, now: i128 },
    /// The stored response was read, and this is its text.
    Body { text: String },
    /// The server answered the request with the status `status`, and
    /// `text` is the whole body of its answer.
    Response { status: u16, text: String },
    /// The body was written to the store.
    Stored,
    /// The body was decoded.
    Decoded { value: T },
    /// The body does not have the expected shape; `path` leads to the place
    /// in the document where decoding stopped.
    Undecodable { path: String, message: String },
    /// The step could not be carried out.
    Failed { message: String },
}

/// What the caller has to do next.
#[derive(Clone, Copy, Debug, PartialEq, Eq)]
pub enum Action<'a> {
    /// Make sure that the store exists, look at what it holds under `file`,
    /// and read the clock.
    Probe { file: &'a str },
    /// Read the response stored under `file`.
    ReadCache { file: &'a str },
    /// Send a GET request to `url`, with `token` as bearer token and
    /// `user_agent` as user agent, and read the status of the answer and
    /// its whole body as text.
    Download { url: &'a str, token: &'a str, user_agent: &'a str },
    /// Write `body` to the store under `file`.
    Store { file: &'a str, body: &'a str },
    /// Decode `body` as a document of the shape `kind`.
    Decode { body: &'a str, kind: ResourceKind },
}

/// A [`Fetch`] with its text as sequences of characters.
pub enum FetchView<T> {
    Probing { url: Seq<char>, file: Seq<char>, ttl: Option<Ttl>, kind: ResourceKind },
    Reading { url: Seq<char>, file: Seq<char>, kind: ResourceKind },
    Downloading { url: Seq<char>, file: Seq<char>, kind: ResourceKind },
    Storing { url: Seq<char>, file: Seq<char>, body: Seq<char>, kind: ResourceKind },
    Decoding { body: Seq<char>, kind: ResourceKind },
    Done { value: T },
    Failed { error: ErrorView },
}

/// An [`Event`] with its text as sequences of characters.
pub enum EventView<T> {
    Probed { probe: CacheProbe, now: i128 },
    Body { text: Seq<char> },
    Response { status: u16, text: Seq<char> },
    Stored,
    Decoded { value: T },
    Undecodable { path: Seq<char>, message: Seq<char> },
    Failed { message: Seq<char> },
}

/// An [`Action`] with its text as sequences of characters.
pub enum ActionView {
    Probe { file: Seq<char> },
    ReadCache { file: Seq<char> },
    Download { url: Seq<char>, token: Seq<char>, user_agent: Seq<char> },
    Store { file: Seq<char>, body: Seq<char> },
    Decode { body: Seq<char>, kind: ResourceKind },
}

impl<T> View for Fetch<T> {
    type V = FetchView<T>;

    open spec fn view(&self) -> FetchView<T> {
        match self {
            Fetch::Probing { url, file, ttl, kind } => FetchView::Probing {
                url: url@,
                file: file@,
                ttl: *ttl,
                kind: *kind,
            },
            Fetch::Reading { url, file, kind } => FetchView::Reading {
                url: url@,
                file: file@,
                kind: *kind,
            },
            Fetch::Downloading { url, file, kind } => FetchView::Downloading {
                url: url@,
                file: file@,
                kind: *kind,
            },
            Fetch::Storing { url, file, body, kind } => FetchView::Storing {
                url: url@,
                file: file@,
                body: body@,
                kind: *kind,
            },
            Fetch::Decoding { body, kind } => FetchView::Decoding { body: body@, kind: *kind },
            Fetch::Done { value } => FetchView::Done { value: *value },
            Fetch::Failed { error } => FetchView::Failed { error: error@ },
        }
    }
}

impl<T> View for Event<T> {
    type V = EventView<T>;

    open spec fn view(&self) -> EventView<T> {
        match self {
            Event::Probed { probe, now } => EventView::Probed { probe: *probe, now: *now },
            Event::Body { text } => EventView::Body { text: text@ },
            Event::Response { status, text } => EventView::Response {
                status: *status,
                text: text@,
            },
            Event::Stored => EventView::Stored,
            Event::Decoded { value } => EventView::Decoded { value: *value },
            Event::Undecodable { path, message } => EventView::Undecodable {
                path: path@,
                message: message@,
            },
            Event::Failed { message } => EventView::Failed { message: message@ },
        }
    }
}

impl<'a> View for Action<'a> {
    type V = ActionView;

    open spec fn view(&self) -> ActionView {
        match self {
            Action::Probe { file } => ActionView::Probe { file: file@ },
            Action::ReadCache { file } => ActionView::ReadCache { file: file@ },
            Action::Download { url, token, user_agent } => ActionView::Download {
                url: url@,
                token: token@,
                user_agent: user_agent@,
            },
            Action::Store { file, body } => ActionView::Store { file: file@, body: body@ },
            Action::Decode { body, kind } => ActionView::Decode { body: body@, kind: *kind },
        }
    }
}

/// The state in which the retrieval of `url` begins: the store is to be
/// looked at under the key of `url`.
pub open spec fn start<T>(url: Seq<char>, ttl: Option<Ttl>, kind: ResourceKind) -> FetchView<T> {
    FetchView::Probing { url, file: cache_key(url), ttl, kind }
}

/// The state that follows `state` once `event` is reported.
///
/// Looking at the store leads to reading where the stored response is fresh
/// and to downloading where it is not. The body of an answer with a status
/// of success is stored and then decoded; one that cannot be stored is
/// decoded all the same. A store that cannot be set up and a fresh response
/// that cannot be read end the retrieval with an I/O error. A request that
/// gets no answer, and an answer with a status other than success, end it
/// with a transport error; such an answer is neither stored nor decoded. A
/// body of another shape ends the retrieval with a decode error. An event
/// that answers no step of `state` leaves it as it is.
pub open spec fn next<T>(state: FetchView<T>, event: EventView<T>) -> FetchView<T> {
    match state {
        FetchView::Probing { url, file, ttl, kind } => match event {
            EventView::Probed { probe, now } => if is_fresh(probe, ttl, now) {
                FetchView::Reading { url, file, kind }
            } else {
                FetchView::Downloading { url, file, kind }
            },
            EventView::Failed { message } => FetchView::Failed {
                error: ErrorView::Io { message },
            },
            _ => state,
        },
        FetchView::Reading { url, file, kind } => match event {
            EventView::Body { text } => FetchView::Decoding { body: text, kind },
            EventView::Failed { message } => FetchView::Failed {
                error: ErrorView::Io { message },
            },
            _ => state,
        },
        FetchView::Downloading { url, file, kind } => match event {
            EventView::Response { status, text } => if is_success(status) {
                FetchView::Storing { url, file, body: text, kind }
            } else {
                FetchView::Failed {
                    error: ErrorView::Transport { message: status_message(status, text) },
                }
            },
            EventView::Failed { message } => FetchView::Failed {
                error: ErrorView::Transport { message },
            },
            _ => state,
        },
        FetchView::Storing { url, file, body, kind } => match event {
            EventView::Stored => FetchView::Decoding { body, kind },
            EventView::Failed { message } => FetchView::Decoding { body, kind },
            _ => state,
        },
        FetchView::Decoding { body, kind } => match event {
            EventView::Decoded { value } => FetchView::Done { value },
            EventView::Undecodable { path, message } => FetchView::Failed {
                error: ErrorView::Decode { path, message },
            },
            _ => state,
        },
        FetchView::Done { .. } => state,
        FetchView::Failed { .. } => state,
    }
}

/// What `state` asks of the caller, for a client that holds `token`; `None`
/// once the retrieval is over.
pub open spec fn pending<T>(state: FetchView<T>, token: Seq<char>) -> Option<ActionView> {
    match state {
        FetchView::Probing { file, .. } => Some(ActionView::Probe { file }),
        FetchView::Reading { file, .. } => Some(ActionView::ReadCache { file }),
        FetchView::Downloading { url, .. } => Some(
            ActionView::Download { url, token, user_agent: USER_AGENT@ },
        ),
        FetchView::Storing { file, body, .. } => Some(ActionView::Store { file, body }),
        FetchView::Decoding { body, kind } => Some(ActionView::Decode { body, kind }),
        FetchView::Done { .. } => None,
        FetchView::Failed { .. } => None,
    }
}

/// What the retrieval gave, once it is over.
pub open spec fn outcome<T>(state: FetchView<T>) -> Option<Result<T, ErrorView>> {
    match state {
        FetchView::Done { value } => Some(Ok(value)),
        FetchView::Failed { error } => Some(Err(error)),
        _ => None,
    }
}

/// Whether `state` reads and writes the store under the key of the address
/// that it retrieves.
pub open spec fn well_formed<T>(state: FetchView<T>) -> bool {
    match state {
        FetchView::Probing { url, file, .. } => file == cache_key(url),
        FetchView::Reading { url, file, .. } => file == cache_key(url),
        FetchView::Downloading { url, file, .. } => file == cache_key(url),
        FetchView::Storing { url, file, .. } => file == cache_key(url),
        _ => true,
    }
}

/// How many steps `state` is from the end of the retrieval, at most.
pub open spec fn steps_left<T>(state: FetchView<T>) -> nat {
    match state {
        FetchView::Probing { .. } => 4,
        FetchView::Downloading { .. } => 3,
        FetchView::Reading { .. } => 2,
        FetchView::Storing { .. } => 2,
        FetchView::Decoding { .. } => 1,
        FetchView::Done { .. } => 0,
        FetchView::Failed { .. } => 0,
    }
}

/// A retrieval begins well formed and stays so, whatever is reported.
pub proof fn lemma_retrieval_stays_well_formed<T>(
    url: Seq<char>,
    ttl: Option<Ttl>,
    kind: ResourceKind,
    state: FetchView<T>,
    event: EventView<T>,
)
    ensures
        well_formed(start::<T>(url, ttl, kind)),
        well_formed(state) ==> well_formed(next(state, event)),
{
}

/// Every event that is not ignored brings the retrieval closer to its
/// end, and a retrieval with no step left is over.
pub proof fn lemma_retrieval_makes_progress<T>(state: FetchView<T>, event: EventView<T>)
    ensures
        next(state, event) == state || steps_left(next(state, event)) < steps_left(state),
        steps_left(state) == 0 <==> outcome(state) is Some,
{
}

/// What the store holds, body by file name, once the caller has carried out
/// `action` on `store`.
pub open spec fn store_after(
    store: Map<Seq<char>, Seq<char>>,
    action: Option<ActionView>,
) -> Map<Seq<char>, Seq<char>> {
    match action {
        Some(ActionView::Store { file, body }) => store.insert(file, body),
        _ => store,
    }
}

/// A body that one retrieval downloads with a status of success is written
/// to the store under the key of its address. A later retrieval of the same
/// address that finds it fresh asks for that file and for no download, and
/// hands the decoder the same body, character for character, under the same
/// expected shape.
pub proof fn lemma_fresh_response_is_served_from_store<T>(
    url: Seq<char>,
    ttl: Option<Ttl>,
    kind: ResourceKind,
    token: Seq<char>,
    status: u16,
    body: Seq<char>,
    store: Map<Seq<char>, Seq<char>>,
    first: EventView<T>,
    second: EventView<T>,
)
    requires
        is_success(status),
        first matches EventView::Probed { probe, now } && !is_fresh(probe, ttl, now),
        second matches EventView::Probed { probe, now } && is_fresh(probe, ttl, now),
    ensures
        ({
            let downloading = next(start::<T>(url, ttl, kind), first);
            let storing = next(downloading, EventView::Response { status, text: body });
            let written = store_after(store, pending(storing, token));
            let reading = next(start::<T>(url, ttl, kind), second);
            let served = next(reading, EventView::Body { text: written[cache_key(url)] });
            &&& pending(downloading, token) == Some(
                ActionView::Download { url, token, user_agent: USER_AGENT@ },
            )
            &&& pending(storing, token) == Some(ActionView::Store { file: cache_key(url), body })
            &&& pending(next(storing, EventView::<T>::Stored), token) == Some(
                ActionView::Decode { body, kind },
            )
            &&& pending(reading, token) == Some(ActionView::ReadCache { file: cache_key(url) })
            &&& written.contains_key(cache_key(url))
            &&& pending(served, token) == Some(ActionView::Decode { body, kind })
        }),
{
}

/// A retrieval downloads only where nothing fresh is stored: the state that
/// asks for a download follows a look at the store that found nothing
/// fresh.
pub proof fn lemma_download_only_when_stale<T>(
    url: Seq<char>,
    ttl: Option<Ttl>,
    kind: ResourceKind,
    token: Seq<char>,
    event: EventView<T>,
)
    requires
        pending(next(start::<T>(url, ttl, kind), event), token) matches Some(action) && action
            is Download,
    ensures
        event matches EventView::Probed { probe, now } && !is_fresh(probe, ttl, now),
{
}

/// With a time-to-live of zero a retrieval never reads the store: whatever
/// the look at the store finds, the resource is downloaded, and the body of
/// an answer with a status of success is written to the store all the same.
pub proof fn lemma_zero_ttl_always_downloads<T>(
    url: Seq<char>,
    kind: ResourceKind,
    probe: CacheProbe,
    now: i128,
    status: u16,
    body: Seq<char>,
)
    requires
        is_success(status),
    ensures
        ({
            let begun = start::<T>(url, Some(Ttl { nanos: 0 }), kind);
            let downloading = next(begun, EventView::Probed { probe, now });
            &&& downloading == FetchView::<T>::Downloading { url, file: cache_key(url), kind }
            &&& next(downloading, EventView::Response { status, text: body })
                == FetchView::<T>::Storing {
                url,
                file: cache_key(url),
                body,
                kind,
            }
        }),
{
}

/// An answer with a status other than success ends the retrieval with a
/// transport error that names the status and holds the body of the answer.
/// Nothing more is asked for: the body is neither stored nor decoded, so no
/// such answer ends as a decode error or an I/O error.
pub proof fn lemma_error_status_is_transport_error<T>(
    url: Seq<char>,
    file: Seq<char>,
    kind: ResourceKind,
    token: Seq<char>,
    status: u16,
    text: Seq<char>,
)
    requires
        !is_success(status),
    ensures
        ({
            let downloading = FetchView::<T>::Downloading { url, file, kind };
            let answered = next(downloading, EventView::Response { status, text });
            &&& outcome(answered) == Some(
                Err::<T, ErrorView>(
                    ErrorView::Transport { message: status_message(status, text) },
                ),
            )
            &&& pending(answered, token) is None
        }),
{
}

/// Only an answer with a status of success is ever stored: the state that
/// asks for a body to be written follows such an answer, and holds its
/// body.
pub proof fn lemma_only_success_is_stored<T>(
    state: FetchView<T>,
    event: EventView<T>,
    token: Seq<char>,
)
    requires
        !(state is Storing),
        pending(next(state, event), token) matches Some(action) && action is Store,
    ensures
        state is Downloading,
        event matches EventView::Response { status, text } && is_success(status) && pending(
            next(state, event),
            token,
        )->0->Store_body == text,
{
}

/// A body that was downloaded is decoded whether or not it could be
/// stored.
pub proof fn lemma_store_failure_is_not_fatal<T>(
    url: Seq<char>,
    file: Seq<char>,
    body: Seq<char>,
    kind: ResourceKind,
    message: Seq<char>,
)
    ensures
        next((FetchView::<T>::Storing { url, file, body, kind }), (EventView::Failed { message }))
            == (FetchView::<T>::Decoding { body, kind }),
{
}

/// A retrieval that is over stays as it is, and asks for nothing more.
pub proof fn lemma_finished_retrieval_is_final<T>(
    state: FetchView<T>,
    event: EventView<T>,
    token: Seq<char>,
)
    requires
        (outcome(state) is Some),
    ensures
        next(state, event) == state,
        (pending(state, token) is None),
{
}

impl<T> Fetch<T> {
    /// What has to be done next on behalf of `client`; `None` once the
    /// retrieval is over.
    pub fn action<'a>(&'a self, client: &'a Client) -> (action: Option<Action<'a>>)
        ensures
            match action {
                Some(action) => pending(self@, client@) == Some(action@),
                None => pending(self@, client@) is None,
            },
    {
        match self {
            Fetch::Probing { file, .. } => Some(Action::Probe { file: file.as_str() }),
            Fetch::Reading { file, .. } => Some(Action::ReadCache { file: file.as_str() }),
            Fetch::Downloading { url, .. } => Some(
                Action::Download {
                    url: url.as_str(),
                    token: client.token(),
                    user_agent: USER_AGENT,
                },
            ),
            Fetch::Storing { file, body, .. } => Some(
                Action::Store { file: file.as_str(), body: body.as_str() },
            ),
            Fetch::Decoding { body, kind } => Some(
                Action::Decode { body: body.as_str(), kind: *kind },
            ),
            Fetch::Done { .. } => None,
            Fetch::Failed { .. } => None,
        }
    }

    /// The state after `event`, as [`next`] describes it.
    pub fn step(self, event: Event<T>) -> (after: Fetch<T>)
        ensures
            after@ == next(self@, event@),
    {
        match self {
            Fetch::Probing { url, file, ttl, kind } => match event {
                Event::Probed { probe, now } => if cache_is_fresh(probe, ttl, now) {
                    Fetch::Reading { url, file, kind }
                } else {
                    Fetch::Downloading { url, file, kind }
                },
                Event::Failed { message } => Fetch::Failed { error: Error::Io { message } },
                _ => Fetch::Probing { url, file, ttl, kind },
            },
            Fetch::Reading { url, file, kind } => match event {
                Event::Body { text } => Fetch::Decoding { body: text, kind },
                Event::Failed { message } => Fetch::Failed { error: Error::Io { message } },
                _ => Fetch::Reading { url, file, kind },
            },
            Fetch::Downloading { url, file, kind } => match event {
                Event::Response { status, text } => if status_is_success(status) {
                    Fetch::Storing { url, file, body: text, kind }
                } else {
                    Fetch::Failed {
                        error: Error::Transport { message: describe_status(status, text.as_str()) },
                    }
                },
                Event::Failed { message } => Fetch::Failed {
                    error: Error::Transport { message },
                },
                _ => Fetch::Downloading { url, file, kind },
            },
            Fetch::Storing { url, file, body, kind } => match event {
                Event::Stored => Fetch::Decoding { body, kind },
                Event::Failed { .. } => Fetch::Decoding { body, kind },
                _ => Fetch::Storing { url, file, body, kind },
            },
            Fetch::Decoding { body, kind } => match event {
                Event::Decoded { value } => Fetch::Done { value },
                Event::Undecodable { path, message } => Fetch::Failed {
                    error: Error::Decode { path, message },
                },
                _ => Fetch::Decoding { body, kind },
            },
            Fetch::Done { value } => Fetch::Done { value },
            Fetch::Failed { error } => Fetch::Failed { error },
        }
    }

    /// What the retrieval gave: the value or the error once it is over, and
    /// `None` while a step is still to be taken.
    pub fn finish(self) -> (end: Option<Result<T, Error>>)
        ensures
            match end {
                Some(Ok(value)) => outcome(self@) == Some(Ok::<T, ErrorView>(value)),
                Some(Err(error)) => outcome(self@) == Some(Err::<T, ErrorView>(error@)),
                None => outcome(self@) is None,
            },
    {
        match self {
            Fetch::Done { value } => Some(Ok(value)),
            Fetch::Failed { error } => Some(Err(error)),
            _ => None,
        }
    }
}

} // verus!
