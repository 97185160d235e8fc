//! What the tracker reports: users, pull requests, issues and
//! notifications, and the names by which it writes their enumerated fields.

use crate::text::same_text;
use vstd::prelude::*;

verus! {

/// An account on the tracker.
#[derive(Clone, Debug, PartialEq, Eq)]
pub struct User {
    pub id: u64,
    pub login: String,
}

/// Whether a pull request or an issue is still open.
#[derive(Clone, Copy, Debug, PartialEq, Eq, Structural)]
pub enum PullRequestState {
    Open,
    Closed,
}

impl PullRequestState {
    /// The state that the tracker writes as `name`, if it is one.
    pub open spec fn of_name(name: Seq<char>) -> Option<PullRequestState> {
        if name == "open"@ {
            Some(PullRequestState::Open)
        } else if name == "closed"@ {
            Some(PullRequestState::Closed)
        } else {
            None
        }
    }

    /// Reads a state as the tracker writes it: `open` or `closed`. Any
    /// other name is no state.
    pub fn from_name(name: &str) -> (state: Option<PullRequestState>)
        ensures
            state == Self::of_name(name@),
    {
        if same_text(name, "open") {
            Some(PullRequestState::Open)
        } else if same_text(name, "closed") {
            Some(PullRequestState::Closed)
        } else {
            None
        }
    }
}

/// Why the tracker raised a notification.
#[derive(Clone, Copy, Debug, PartialEq, Eq, Structural)]
pub enum NotificationReason {
    /// The reader was assigned to the issue.
    Assign,
    /// The reader created the thread.
    Author,
    /// The reader commented on the thread.
    Comment,
    /// A workflow run that the reader triggered was completed.
    CiActivity,
    /// The reader accepted an invitation to contribute to the repository.
    Invitation,
    /// The reader subscribed to the thread.
    Manual,
    /// The reader was mentioned by name.
    Mention,
    /// The reader, or a team of theirs, was asked to review a pull request.
    ReviewRequested,
    /// A security vulnerability was found in the reader's repository.
    SecurityAlert,
    /// The reader changed the state of the thread.
    StateChange,
    /// The reader is watching the repository.
    Subscribed,
    /// A team of the reader's was mentioned.
    TeamMention,
    /// Any reason that this library does not know.
    Other,
}

impl NotificationReason {
    /// The name by which the tracker writes this reason. `Other` stands for
    /// every name that is not listed, and has none of its own.
    pub open spec fn name(self) -> Option<Seq<char>> {
        match self {
            NotificationReason::Assign => Some("assign"@),
            NotificationReason::Author => Some("author"@),
            NotificationReason::Comment => Some("comment"@),
            NotificationReason::CiActivity => Some("ci_activity"@),
            NotificationReason::Invitation => Some("invitation"@),
            NotificationReason::Manual => Some("manual"@),
            NotificationReason::Mention => Some("mention"@),
            NotificationReason::ReviewRequested => Some("review_requested"@),
            NotificationReason::SecurityAlert => Some("security_alert"@),
            NotificationReason::StateChange => Some("state_change"@),
            NotificationReason::Subscribed => Some("subscribed"@),
            NotificationReason::TeamMention => Some("team_mention"@),
            NotificationReason::Other => None,
        }
    }

    /// The reason that the tracker writes as `name`.
    pub open spec fn of_name(name: Seq<char>) -> NotificationReason {
        if name == "assign"@ {
            NotificationReason::Assign
        } else if name == "author"@ {
            NotificationReason::Author
        } else if name == "comment"@ {
            NotificationReason::Comment
        } else if name == "ci_activity"@ {
            NotificationReason::CiActivity
        } else if name == "invitation"@ {
            NotificationReason::Invitation
        } else if name == "manual"@ {
            NotificationReason::Manual
        } else if name == "mention"@ {
            NotificationReason::Mention
        } else if name == "review_requested"@ {
            NotificationReason::ReviewRequested
        } else if name == "security_alert"@ {
            NotificationReason::SecurityAlert
        } else if name == "state_change"@ {
            NotificationReason::StateChange
        } else if name == "subscribed"@ {
            NotificationReason::Subscribed
        } else if name == "team_mention"@ {
            NotificationReason::TeamMention
        } else {
            NotificationReason::Other
        }
    }

    /// Reads a reason as the tracker writes it. A name that is not known is
    /// read as `Other`, so that a reason added to the tracker later does not
    /// make a notification unreadable.
    pub fn from_name(name: &str) -> (reason: NotificationReason)
        ensures
            reason == Self::of_name(name@),
    {
        if same_text(name, "assign") {
            NotificationReason::Assign
        } else if same_text(name, "author") {
            NotificationReason::Author
        } else if same_text(name, "comment") {
            NotificationReason::Comment
        } else if same_text(name, "ci_activity") {
            NotificationReason::CiActivity
        } else if same_text(name, "invitation") {
            NotificationReason::Invitation
        } else if same_text(name, "manual") {
            NotificationReason::Manual
        } else if same_text(name, "mention") {
            NotificationReason::Mention
        } else if same_text(name, "review_requested") {
            NotificationReason::ReviewRequested
        } else if same_text(name, "security_alert") {
            NotificationReason::SecurityAlert
        } else if same_text(name, "state_change") {
            NotificationReason::StateChange
        } else if same_text(name, "subscribed") {
            NotificationReason::Subscribed
        } else if same_text(name, "team_mention") {
            NotificationReason::TeamMention
        } else {
            NotificationReason::Other
        }
    }
}

/// What kind of thing a notification is about.
#[derive(Clone, Copy, Debug, PartialEq, Eq, Structural)]
pub enum SubjectType {
    PullRequest,
    Issue,
}

impl SubjectType {
    /// The kind that the tracker writes as `name`, if it is one.
    pub open spec fn of_name(name: Seq<char>) -> Option<SubjectType> {
        if name == "PullRequest"@ {
            Some(SubjectType::PullRequest)
        } else if name == "Issue"@ {
            Some(SubjectType::Issue)
        } else {
            None
        }
    }

    /// Reads a kind of subject as the tracker writes it: `PullRequest` or
    /// `Issue`. Any other name is no kind that this library handles.
    pub fn from_name(name: &str) -> (kind: Option<SubjectType>)
        ensures
            kind == Self::of_name(name@),
    {
        if same_text(name, "PullRequest") {
            Some(SubjectType::PullRequest)
        } else if same_text(name, "Issue") {
            Some(SubjectType::Issue)
        } else {
            None
        }
    }
}

/// A pull request, as the tracker describes it.
#[derive(Clone, Debug, PartialEq, Eq)]
pub struct PullRequest {
    pub url: String,
    pub id: u64,
    pub number: u64,
    pub state: PullRequestState,
    pub locked: bool,
    pub title: String,
    pub html_url: String,
    /// The users who were asked by name to review, in the tracker's order.
    pub requested_reviewers: Vec<User>,
}

impl PullRequest {
    /// Whether the user with the identifier `user_id` is among those who
    /// were asked by name to review.
    pub open spec fn names_reviewer(self, user_id: u64) -> bool {
        exists|i: int|
            0 <= i < self.requested_reviewers@.len()
                && (#[trigger] self.requested_reviewers@[i]).id == user_id
    }

    /// Whether the user with the identifier `user_id` was asked by name to
    /// review this pull request.
    pub fn requests_review_from(&self, user_id: u64) -> (asked: bool)
        ensures
            asked == self.names_reviewer(user_id),
    {
        let mut i: usize = 0;
        while i < self.requested_reviewers.len()
            invariant
                i <= self.requested_reviewers@.len(),
                forall|j: int| 0 <= j < i ==> (#[trigger] self.requested_reviewers@[j]).id != user_id,
            decreases self.requested_reviewers@.len() - i,
        {
            if self.requested_reviewers[i].id == user_id {
                return true;
            }
            i += 1;
        }
        false
    }
}

/// An issue, as the tracker describes it.
#[derive(Clone, Debug, PartialEq, Eq)]
pub struct Issue {
    pub url: String,
    pub id: u64,
    pub number: u64,
    pub state: PullRequestState,
    pub locked: bool,
    pub title: String,
    pub html_url: String,
}

/// What a notification's subject resolves to: the one or the other, for
/// the places that must tell them apart.
#[derive(Clone, Debug, PartialEq, Eq)]
pub enum PrOrIssue {
    PullRequest(PullRequest),
    Issue(Issue),
}

impl PrOrIssue {
    /// Which of the two this is.
    pub open spec fn subject_type(self) -> SubjectType {
        match self {
            PrOrIssue::PullRequest(_) => SubjectType::PullRequest,
            PrOrIssue::Issue(_) => SubjectType::Issue,
        }
    }

    /// The lifecycle state of the item.
    pub open spec fn lifecycle(self) -> PullRequestState {
        match self {
            PrOrIssue::PullRequest(pr) => pr.state,
            PrOrIssue::Issue(issue) => issue.state,
        }
    }

    /// The address at which a person reads the item.
    pub open spec fn human_url(self) -> Seq<char> {
        match self {
            PrOrIssue::PullRequest(pr) => pr.html_url@,
            PrOrIssue::Issue(issue) => issue.html_url@,
        }
    }

    /// Whether the item is open or closed.
    pub fn state(&self) -> (state: PullRequestState)
        ensures
            state == self.lifecycle(),
    {
        match self {
            PrOrIssue::PullRequest(pr) => pr.state,
            PrOrIssue::Issue(issue) => issue.state,
        }
    }

    /// The address at which a person reads the item.
    pub fn html_url(&self) -> (url: &str)
        ensures
            url@ == self.human_url(),
    {
        match self {
            PrOrIssue::PullRequest(pr) => pr.html_url.as_str(),
            PrOrIssue::Issue(issue) => issue.html_url.as_str(),
        }
    }
}

/// What a notification is about.
#[derive(Clone, Debug, PartialEq, Eq)]
pub struct NotificationSubject {
    pub title: String,
    /// The address of the pull request or issue in the tracker's API.
    pub url: String,
    pub latest_comment_url: Option<String>,
    /// Whether `url` leads to a pull request or to an issue.
    pub subject_type: SubjectType,
}

/// One notification, as the tracker lists it.
#[derive(Clone, Debug, PartialEq, Eq)]
pub struct Notification {
    pub id: String,
    pub reason: NotificationReason,
    pub subject: NotificationSubject,
    pub unread: bool,
    pub updated_at: String,
    pub last_read_at: Option<String>,
    pub url: String,
}

/// A name that is the name of no known reason is read as `Other`.
pub proof fn lemma_unknown_reason_is_other(name: Seq<char>)
    requires
        forall|reason: NotificationReason| #[trigger] reason.name() != Some(name),
    ensures
        NotificationReason::of_name(name) == NotificationReason::Other,
{
    assert(NotificationReason::Assign.name() != Some(name));
    assert(NotificationReason::Author.name() != Some(name));
    assert(NotificationReason::Comment.name() != Some(name));
    assert(NotificationReason::CiActivity.name() != Some(name));
    assert(NotificationReason::Invitation.name() != Some(name));
    assert(NotificationReason::Manual.name() != Some(name));
    assert(NotificationReason::Mention.name() != Some(name));
    assert(NotificationReason::ReviewRequested.name() != Some(name));
    assert(NotificationReason::SecurityAlert.name() != Some(name));
    assert(NotificationReason::StateChange.name() != Some(name));
    assert(NotificationReason::Subscribed.name() != Some(name));
    assert(NotificationReason::TeamMention.name() != Some(name));
}

/// Every known reason is read back from its own name.
pub proof fn lemma_reason_name_round_trip(reason: NotificationReason)
    requires
        reason != NotificationReason::Other,
    ensures
        reason.name() is Some,
        NotificationReason::of_name(reason.name().unwrap()) == reason,
{
    reveal_strlit("assign");
    reveal_strlit("author");
    reveal_strlit("comment");
    reveal_strlit("ci_activity");
    reveal_strlit("invitation");
    reveal_strlit("manual");
    reveal_strlit("mention");
    reveal_strlit("review_requested");
    reveal_strlit("security_alert");
    reveal_strlit("state_change");
    reveal_strlit("subscribed");
    reveal_strlit("team_mention");
    assert("assign"@.len() == 6 && "author"@.len() == 6 && "manual"@.len() == 6);
    assert("comment"@.len() == 7 && "mention"@.len() == 7);
    assert("invitation"@.len() == 10 && "subscribed"@.len() == 10);
    assert("ci_activity"@.len() == 11);
    assert("state_change"@.len() == 12 && "team_mention"@.len() == 12);
    assert("security_alert"@.len() == 14);
    assert("review_requested"@.len() == 16);
    assert("assign"@[1] == 's' && "author"@[1] == 'u' && "manual"@[1] == 'a');
    assert("comment"@[0] == 'c' && "mention"@[0] == 'm');
    assert("invitation"@[0] == 'i' && "subscribed"@[0] == 's');
    assert("state_change"@[0] == 's' && "team_mention"@[0] == 't');
}

} // verus!
