//! How a notification is ranked by the reader's relation to it.

use crate::model::{Notification, NotificationReason, PrOrIssue, User};
use vstd::prelude::*;

verus! {

/// The reader's relation to what a notification is about.
#[derive(Clone, Copy, Debug, PartialEq, Eq, Structural)]
pub enum NotificationLevel {
    /// The reader's own thread, workflow run or repository.
    Owned,
    /// A thread that the reader follows.
    Subscribed,
    /// The reader was addressed by name.
    Tagged,
    /// A team of the reader's was addressed, not the reader by name.
    TeamTagged,
    /// Anything else.
    Other,
}

/// Where the ranking of a notification stands.
#[derive(Clone, Copy, Debug, PartialEq, Eq, Structural)]
pub enum Triage {
    /// The level is settled.
    Settled(NotificationLevel),
    /// The pull request or issue behind the notification has to be fetched
    /// first.
    NeedsSubject,
    /// The current user has to be fetched first.
    NeedsCurrentUser,
}

/// The level that the reason settles by itself. A request for review is
/// the one reason that does not: it may have gone to the reader or to a
/// team.
pub open spec fn level_by_reason(reason: NotificationReason) -> Option<NotificationLevel> {
    match reason {
        NotificationReason::Author
        | NotificationReason::CiActivity
        | NotificationReason::SecurityAlert => Some(NotificationLevel::Owned),
        NotificationReason::Comment
        | NotificationReason::Manual
        | NotificationReason::Subscribed => Some(NotificationLevel::Subscribed),
        NotificationReason::Assign | NotificationReason::Mention => Some(NotificationLevel::Tagged),
        NotificationReason::TeamMention => Some(NotificationLevel::TeamTagged),
        NotificationReason::Invitation
        | NotificationReason::StateChange
        | NotificationReason::Other => Some(NotificationLevel::Other),
        NotificationReason::ReviewRequested => None,
    }
}

/// The level of a request for review of `item`, read by the user with the
/// identifier `reader`. On an issue the reader is tagged. On a pull request
/// the reader is tagged where the request names them, and their team where
/// it does not.
pub open spec fn review_level(item: PrOrIssue, reader: u64) -> NotificationLevel {
    match item {
        PrOrIssue::Issue(_) => NotificationLevel::Tagged,
        PrOrIssue::PullRequest(pr) => if pr.names_reviewer(reader) {
            NotificationLevel::Tagged
        } else {
            NotificationLevel::TeamTagged
        },
    }
}

/// Where the ranking of a notification with the given reason stands, once
/// `details` and `me` are known as far as they are given.
pub open spec fn triage(
    reason: NotificationReason,
    details: Option<PrOrIssue>,
    me: Option<User>,
) -> Triage {
    match level_by_reason(reason) {
        Some(level) => Triage::Settled(level),
        None => match details {
            None => Triage::NeedsSubject,
            Some(PrOrIssue::Issue(issue)) => Triage::Settled(NotificationLevel::Tagged),
            Some(PrOrIssue::PullRequest(pr)) => match me {
                None => Triage::NeedsCurrentUser,
                Some(user) => Triage::Settled(review_level(PrOrIssue::PullRequest(pr), user.id)),
            },
        },
    }
}

impl NotificationLevel {
    /// The level that `reason` settles by itself, and `None` for a request
    /// for review.
    pub fn by_reason(reason: NotificationReason) -> (level: Option<NotificationLevel>)
        ensures
            level == level_by_reason(reason),
    {
        match reason {
            NotificationReason::Author
            | NotificationReason::CiActivity
            | NotificationReason::SecurityAlert => Some(NotificationLevel::Owned),
            NotificationReason::Comment
            | NotificationReason::Manual
            | NotificationReason::Subscribed => Some(NotificationLevel::Subscribed),
            NotificationReason::Assign | NotificationReason::Mention => Some(
                NotificationLevel::Tagged,
            ),
            NotificationReason::TeamMention => Some(NotificationLevel::TeamTagged),
            NotificationReason::Invitation
            | NotificationReason::StateChange
            | NotificationReason::Other => Some(NotificationLevel::Other),
            NotificationReason::ReviewRequested => None,
        }
    }

    /// The level of a request for review of `item`, read by `me`.
    pub fn of_review(item: &PrOrIssue, me: &User) -> (level: NotificationLevel)
        ensures
            level == review_level(*item, me.id),
    {
        match item {
            PrOrIssue::Issue(_) => NotificationLevel::Tagged,
            PrOrIssue::PullRequest(pr) => if pr.requests_review_from(me.id) {
                NotificationLevel::Tagged
            } else {
                NotificationLevel::TeamTagged
            },
        }
    }

    /// Ranks `notif` as far as what is known allows. `details` is what the
    /// notification's subject resolves to and `me` is the current user,
    /// each where it has been fetched already. The result names the level,
    /// or what has to be fetched before the level can be told; nothing is
    /// asked for that the level does not depend on.
    pub fn of(notif: &Notification, details: &Option<PrOrIssue>, me: &Option<User>) -> (step: Triage)
        ensures
            step == triage(notif.reason, *details, *me),
    {
        match NotificationLevel::by_reason(notif.reason) {
            Some(level) => Triage::Settled(level),
            None => match details {
                None => Triage::NeedsSubject,
                Some(PrOrIssue::Issue(_)) => Triage::Settled(NotificationLevel::Tagged),
                Some(item) => match me {
                    None => Triage::NeedsCurrentUser,
                    Some(user) => Triage::Settled(NotificationLevel::of_review(item, user)),
                },
            },
        }
    }
}

/// Every reason but a request for review settles the level by itself,
/// whatever is or is not known of the subject and of the current user.
pub proof fn lemma_reason_settles_level(
    reason: NotificationReason,
    details: Option<PrOrIssue>,
    me: Option<User>,
)
    requires
        reason != NotificationReason::ReviewRequested,
    ensures
        level_by_reason(reason) is Some,
        triage(reason, details, me) == Triage::Settled(level_by_reason(reason).unwrap()),
{
}

/// A request for review on an issue tags the reader, whoever the current
/// user is and whether or not they are known.
pub proof fn lemma_review_of_issue_is_tagged(item: PrOrIssue, me: Option<User>)
    requires
        item is Issue,
    ensures
        triage(NotificationReason::ReviewRequested, Some(item), me) == Triage::Settled(
            NotificationLevel::Tagged,
        ),
{
}

/// A request for review on a pull request tags the reader where their
/// identifier is among those of the users asked by name, and their team
/// where it is not.
pub proof fn lemma_review_of_pull_request(item: PrOrIssue, me: User)
    requires
        item is PullRequest,
    ensures
        ({
            let asked = exists|i: int|
                0 <= i < item->PullRequest_0.requested_reviewers@.len()
                    && (#[trigger] item->PullRequest_0.requested_reviewers@[i]).id == me.id;
            triage(NotificationReason::ReviewRequested, Some(item), Some(me)) == Triage::Settled(
                if asked {
                    NotificationLevel::Tagged
                } else {
                    NotificationLevel::TeamTagged
                },
            )
        }),
{
}

} // verus!
