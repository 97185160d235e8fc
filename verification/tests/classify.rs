use github_notifications::level::Triage;
use github_notifications::{
    Notification, NotificationLevel, NotificationReason, NotificationSubject, PrOrIssue,
    PullRequest, PullRequestState, SubjectType, User,
};
use github_notifications::model::Issue;

fn user(id: u64, login: &str) -> User {
    User { id, login: login.to_string() }
}

fn pull_request(reviewers: Vec<User>) -> PrOrIssue {
    PrOrIssue::PullRequest(PullRequest {
        url: "https://api.github.com/repos/octo/cat/pulls/5".to_string(),
        id: 1005,
        number: 5,
        state: PullRequestState::Open,
        locked: false,
        title: "Teach the cat to purr".to_string(),
        html_url: "https://github.com/octo/cat/pull/5".to_string(),
        requested_reviewers: reviewers,
    })
}

fn issue() -> PrOrIssue {
    PrOrIssue::Issue(Issue {
        url: "https://api.github.com/repos/octo/cat/issues/6".to_string(),
        id: 1006,
        number: 6,
        state: PullRequestState::Closed,
        locked: true,
        title: "The cat does not purr".to_string(),
        html_url: "https://github.com/octo/cat/issues/6".to_string(),
    })
}

fn notification(reason: NotificationReason, subject_type: SubjectType) -> Notification {
    Notification {
        id: "77".to_string(),
        reason,
        subject: NotificationSubject {
            title: "Teach the cat to purr".to_string(),
            url: "https://api.github.com/repos/octo/cat/pulls/5".to_string(),
            latest_comment_url: None,
            subject_type,
        },
        unread: true,
        updated_at: "2021-11-05T12:00:00Z".to_string(),
        last_read_at: None,
        url: "https://api.github.com/notifications/threads/77".to_string(),
    }
}

fn settled_without_lookup(reason: NotificationReason) -> NotificationLevel {
    let notif = notification(reason, SubjectType::PullRequest);
    match NotificationLevel::of(&notif, &None, &None) {
        Triage::Settled(level) => level,
        other => panic!("{:?} asked for {:?}", reason, other),
    }
}

#[test]
fn table_owned() {
    assert_eq!(settled_without_lookup(NotificationReason::Author), NotificationLevel::Owned);
    assert_eq!(settled_without_lookup(NotificationReason::CiActivity), NotificationLevel::Owned);
    assert_eq!(settled_without_lookup(NotificationReason::SecurityAlert), NotificationLevel::Owned);
}

#[test]
fn table_subscribed() {
    assert_eq!(settled_without_lookup(NotificationReason::Comment), NotificationLevel::Subscribed);
    assert_eq!(settled_without_lookup(NotificationReason::Manual), NotificationLevel::Subscribed);
    assert_eq!(
        settled_without_lookup(NotificationReason::Subscribed),
        NotificationLevel::Subscribed
    );
}

#[test]
fn table_tagged() {
    assert_eq!(settled_without_lookup(NotificationReason::Assign), NotificationLevel::Tagged);
    assert_eq!(settled_without_lookup(NotificationReason::Mention), NotificationLevel::Tagged);
}

#[test]
fn table_team_tagged() {
    assert_eq!(
        settled_without_lookup(NotificationReason::TeamMention),
        NotificationLevel::TeamTagged
    );
}

#[test]
fn table_other() {
    assert_eq!(settled_without_lookup(NotificationReason::Invitation), NotificationLevel::Other);
    assert_eq!(settled_without_lookup(NotificationReason::StateChange), NotificationLevel::Other);
    assert_eq!(settled_without_lookup(NotificationReason::Other), NotificationLevel::Other);
}

#[test]
fn table_does_not_depend_on_what_is_known() {
    let reasons = [
        NotificationReason::Assign,
        NotificationReason::Author,
        NotificationReason::Comment,
        NotificationReason::CiActivity,
        NotificationReason::Invitation,
        NotificationReason::Manual,
        NotificationReason::Mention,
        NotificationReason::SecurityAlert,
        NotificationReason::StateChange,
        NotificationReason::Subscribed,
        NotificationReason::TeamMention,
        NotificationReason::Other,
    ];
    for reason in reasons {
        let plain = settled_without_lookup(reason);
        let notif = notification(reason, SubjectType::Issue);
        for details in [None, Some(issue()), Some(pull_request(vec![user(42, "me")]))] {
            for me in [None, Some(user(42, "me")), Some(user(7, "you"))] {
                assert_eq!(NotificationLevel::of(&notif, &details, &me), Triage::Settled(plain));
            }
        }
    }
}

#[test]
fn by_reason_gives_the_table() {
    assert_eq!(
        NotificationLevel::by_reason(NotificationReason::Author),
        Some(NotificationLevel::Owned)
    );
    assert_eq!(
        NotificationLevel::by_reason(NotificationReason::Manual),
        Some(NotificationLevel::Subscribed)
    );
    assert_eq!(
        NotificationLevel::by_reason(NotificationReason::Assign),
        Some(NotificationLevel::Tagged)
    );
    assert_eq!(
        NotificationLevel::by_reason(NotificationReason::TeamMention),
        Some(NotificationLevel::TeamTagged)
    );
    assert_eq!(
        NotificationLevel::by_reason(NotificationReason::Other),
        Some(NotificationLevel::Other)
    );
    assert_eq!(NotificationLevel::by_reason(NotificationReason::ReviewRequested), None);
}

#[test]
fn review_request_asks_for_the_subject_first() {
    let notif = notification(NotificationReason::ReviewRequested, SubjectType::PullRequest);
    assert_eq!(NotificationLevel::of(&notif, &None, &None), Triage::NeedsSubject);
    assert_eq!(NotificationLevel::of(&notif, &None, &Some(user(42, "me"))), Triage::NeedsSubject);
}

#[test]
fn review_request_on_a_pull_request_asks_for_the_current_user() {
    let notif = notification(NotificationReason::ReviewRequested, SubjectType::PullRequest);
    let details = Some(pull_request(vec![user(42, "me")]));
    assert_eq!(NotificationLevel::of(&notif, &details, &None), Triage::NeedsCurrentUser);
}

#[test]
fn review_request_on_an_issue_is_tagged() {
    let notif = notification(NotificationReason::ReviewRequested, SubjectType::Issue);
    let details = Some(issue());
    let tagged = Triage::Settled(NotificationLevel::Tagged);
    assert_eq!(NotificationLevel::of(&notif, &details, &None), tagged);
    assert_eq!(NotificationLevel::of(&notif, &details, &Some(user(42, "me"))), tagged);
    assert_eq!(NotificationLevel::of(&notif, &details, &Some(user(7, "you"))), tagged);
}

#[test]
fn review_request_that_names_the_reader_is_tagged() {
    let notif = notification(NotificationReason::ReviewRequested, SubjectType::PullRequest);
    let details = Some(pull_request(vec![user(42, "me")]));
    assert_eq!(
        NotificationLevel::of(&notif, &details, &Some(user(42, "me"))),
        Triage::Settled(NotificationLevel::Tagged)
    );
}

#[test]
fn review_request_that_names_others_is_team_tagged() {
    let notif = notification(NotificationReason::ReviewRequested, SubjectType::PullRequest);
    let details = Some(pull_request(vec![user(42, "someone")]));
    assert_eq!(
        NotificationLevel::of(&notif, &details, &Some(user(7, "me"))),
        Triage::Settled(NotificationLevel::TeamTagged)
    );
}

#[test]
fn review_request_that_names_nobody_is_team_tagged() {
    let notif = notification(NotificationReason::ReviewRequested, SubjectType::PullRequest);
    let details = Some(pull_request(vec![]));
    assert_eq!(
        NotificationLevel::of(&notif, &details, &Some(user(42, "me"))),
        Triage::Settled(NotificationLevel::TeamTagged)
    );
}

#[test]
fn review_request_goes_by_identifier_not_by_login() {
    let notif = notification(NotificationReason::ReviewRequested, SubjectType::PullRequest);
    let details = Some(pull_request(vec![user(1, "me"), user(2, "b"), user(42, "renamed")]));
    assert_eq!(
        NotificationLevel::of(&notif, &details, &Some(user(42, "me"))),
        Triage::Settled(NotificationLevel::Tagged)
    );
    assert_eq!(
        NotificationLevel::of(&notif, &details, &Some(user(3, "me"))),
        Triage::Settled(NotificationLevel::TeamTagged)
    );
}

#[test]
fn mention_read_from_its_name_is_tagged_without_lookup() {
    let notif = notification(NotificationReason::from_name("mention"), SubjectType::PullRequest);
    assert_eq!(
        NotificationLevel::of(&notif, &None, &None),
        Triage::Settled(NotificationLevel::Tagged)
    );
}

#[test]
fn review_requested_read_from_its_name_goes_by_the_reviewers() {
    let notif =
        notification(NotificationReason::from_name("review_requested"), SubjectType::PullRequest);
    let details = Some(pull_request(vec![user(42, "octocat")]));
    assert_eq!(
        NotificationLevel::of(&notif, &details, &Some(user(42, "octocat"))),
        Triage::Settled(NotificationLevel::Tagged)
    );
    assert_eq!(
        NotificationLevel::of(&notif, &details, &Some(user(7, "bystander"))),
        Triage::Settled(NotificationLevel::TeamTagged)
    );
}

#[test]
fn unknown_reason_read_from_its_name_is_other() {
    let notif = notification(NotificationReason::from_name("brand_new"), SubjectType::Issue);
    assert_eq!(
        NotificationLevel::of(&notif, &None, &None),
        Triage::Settled(NotificationLevel::Other)
    );
}

#[test]
fn of_review_tells_reader_from_team() {
    let me = user(42, "me");
    assert_eq!(NotificationLevel::of_review(&issue(), &me), NotificationLevel::Tagged);
    assert_eq!(
        NotificationLevel::of_review(&pull_request(vec![user(42, "me")]), &me),
        NotificationLevel::Tagged
    );
    assert_eq!(
        NotificationLevel::of_review(&pull_request(vec![user(41, "x"), user(43, "y")]), &me),
        NotificationLevel::TeamTagged
    );
}

#[test]
fn requests_review_from_looks_at_every_reviewer() {
    let item = PullRequest {
        url: String::new(),
        id: 1,
        number: 1,
        state: PullRequestState::Open,
        locked: false,
        title: String::new(),
        html_url: String::new(),
        requested_reviewers: vec![user(1, "a"), user(2, "b"), user(3, "c")],
    };
    assert!(item.requests_review_from(1));
    assert!(item.requests_review_from(2));
    assert!(item.requests_review_from(3));
    assert!(!item.requests_review_from(0));
    assert!(!item.requests_review_from(4));
}

#[test]
fn item_gives_state_and_address() {
    let pr = pull_request(vec![]);
    assert_eq!(pr.state(), PullRequestState::Open);
    assert_eq!(pr.html_url(), "https://github.com/octo/cat/pull/5");
    let issue = issue();
    assert_eq!(issue.state(), PullRequestState::Closed);
    assert_eq!(issue.html_url(), "https://github.com/octo/cat/issues/6");
}
