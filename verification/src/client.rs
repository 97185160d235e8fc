//! The client, and the retrievals that it begins.

use crate::cache::{to_filename, Ttl};
use crate::fetch::{start, Fetch, ResourceKind};
use crate::model::{Notification, NotificationSubject, PrOrIssue, PullRequest, SubjectType, User};
use vstd::prelude::*;

verus! {

/// The address of the list of notifications.
pub const NOTIFICATIONS_URL: &'static str = "https://api.github.com/notifications";

/// The address of the user to whom the token belongs.
pub const SELF_URL: &'static str = "https://api.github.com/user";

/// For how many seconds the current user is served from the store.
pub const SELF_TTL_SECS: u64 = 86_400;

/// For how many seconds a pull request or an issue is served from the
/// store.
pub const SUBJECT_TTL_SECS: u64 = 60;

/// The shape behind the address of a subject of the given type.
pub open spec fn kind_of_subject(subject_type: SubjectType) -> ResourceKind {
    match subject_type {
        SubjectType::PullRequest => ResourceKind::PullRequest,
        SubjectType::Issue => ResourceKind::Issue,
    }
}

/// Access to the tracker on behalf of the user to whom a token belongs.
pub struct Client {
    token: String,
}

impl View for Client {
    type V = Seq<char>;

    /// The token.
    closed spec fn view(&self) -> Seq<char> {
        self.token@
    }
}

impl Client {
    /// A client that authenticates with `token`.
    pub fn new(token: String) -> (client: Client)
        ensures
            client@ == token@,
    {
        Client { token }
    }

    /// The token that every request carries.
    pub fn token(&self) -> (token: &str)
        ensures
            token@ == self@,
    {
        self.token.as_str()
    }

    /// Begins the retrieval of `url`, whose body is expected to have the
    /// shape `kind`. Without a time-to-live a stored response never
    /// expires.
    pub fn get<T>(&self, url: &str, ttl: Option<Ttl>, kind: ResourceKind) -> (fetch: Fetch<T>)
        ensures
            fetch@ == start::<T>(url@, ttl, kind),
    {
        Fetch::Probing { url: url.to_owned(), file: to_filename(url), ttl, kind }
    }

    /// Begins the retrieval of the list of notifications. The list is
    /// downloaded every time, and still stored.
    pub fn notifications(&self) -> (fetch: Fetch<Vec<Notification>>)
        ensures
            fetch@ == start::<Vec<Notification>>(
                NOTIFICATIONS_URL@,
                Some(Ttl { nanos: 0 }),
                ResourceKind::Notifications,
            ),
    {
        self.get(NOTIFICATIONS_URL, Some(Ttl::from_secs(0)), ResourceKind::Notifications)
    }

    /// Begins the retrieval of the user to whom the token belongs. A stored
    /// response is served for a day.
    pub fn current_user(&self) -> (fetch: Fetch<User>)
        ensures
            fetch@ == start::<User>(
                SELF_URL@,
                Some(Ttl { nanos: 86_400_000_000_000 }),
                ResourceKind::User,
            ),
    {
        self.get(SELF_URL, Some(Ttl::from_secs(SELF_TTL_SECS)), ResourceKind::User)
    }
}

impl NotificationSubject {
    /// Begins the retrieval of the pull request that the subject is, and
    /// gives `None` where it is no pull request. A stored response is
    /// served for a minute.
    pub fn pull_request(&self, client: &Client) -> (fetch: Option<Fetch<PullRequest>>)
        ensures
            match fetch {
                Some(fetch) => self.subject_type == SubjectType::PullRequest && fetch@
                    == start::<PullRequest>(
                    self.url@,
                    Some(Ttl { nanos: 60_000_000_000 }),
                    ResourceKind::PullRequest,
                ),
                None => self.subject_type != SubjectType::PullRequest,
            },
    {
        match self.subject_type {
            SubjectType::PullRequest => Some(
                client.get(
                    self.url.as_str(),
                    Some(Ttl::from_secs(SUBJECT_TTL_SECS)),
                    ResourceKind::PullRequest,
                ),
            ),
            SubjectType::Issue => None,
        }
    }

    /// Begins the retrieval of what the subject is: a pull request or an
    /// issue, as its type says. A stored response is served for a minute.
    pub fn details(&self, client: &Client) -> (fetch: Fetch<PrOrIssue>)
        ensures
            fetch@ == start::<PrOrIssue>(
                self.url@,
                Some(Ttl { nanos: 60_000_000_000 }),
                kind_of_subject(self.subject_type),
            ),
    {
        let kind = match self.subject_type {
            SubjectType::PullRequest => ResourceKind::PullRequest,
            SubjectType::Issue => ResourceKind::Issue,
        };
        client.get(self.url.as_str(), Some(Ttl::from_secs(SUBJECT_TTL_SECS)), kind)
    }
}

} // verus!
