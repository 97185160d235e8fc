use github_notifications::{NotificationReason, PullRequestState, SubjectType};

#[test]
fn every_known_reason_is_read_from_its_name() {
    assert_eq!(NotificationReason::from_name("assign"), NotificationReason::Assign);
    assert_eq!(NotificationReason::from_name("author"), NotificationReason::Author);
    assert_eq!(NotificationReason::from_name("comment"), NotificationReason::Comment);
    assert_eq!(NotificationReason::from_name("ci_activity"), NotificationReason::CiActivity);
    assert_eq!(NotificationReason::from_name("invitation"), NotificationReason::Invitation);
    assert_eq!(NotificationReason::from_name("manual"), NotificationReason::Manual);
    assert_eq!(NotificationReason::from_name("mention"), NotificationReason::Mention);
    assert_eq!(
        NotificationReason::from_name("review_requested"),
        NotificationReason::ReviewRequested
    );
    assert_eq!(NotificationReason::from_name("security_alert"), NotificationReason::SecurityAlert);
    assert_eq!(NotificationReason::from_name("state_change"), NotificationReason::StateChange);
    assert_eq!(NotificationReason::from_name("subscribed"), NotificationReason::Subscribed);
    assert_eq!(NotificationReason::from_name("team_mention"), NotificationReason::TeamMention);
}

#[test]
fn unrecognized_reason_is_other() {
    assert_eq!(NotificationReason::from_name("approval_requested"), NotificationReason::Other);
    assert_eq!(NotificationReason::from_name("member_feature_requested"), NotificationReason::Other);
    assert_eq!(NotificationReason::from_name(""), NotificationReason::Other);
    assert_eq!(NotificationReason::from_name("other"), NotificationReason::Other);
}

#[test]
fn reason_names_are_exact() {
    assert_eq!(NotificationReason::from_name("Mention"), NotificationReason::Other);
    assert_eq!(NotificationReason::from_name("mention "), NotificationReason::Other);
    assert_eq!(NotificationReason::from_name("reviewrequested"), NotificationReason::Other);
    assert_eq!(NotificationReason::from_name("ReviewRequested"), NotificationReason::Other);
    assert_eq!(NotificationReason::from_name("ci-activity"), NotificationReason::Other);
}

#[test]
fn state_is_read_from_its_name() {
    assert_eq!(PullRequestState::from_name("open"), Some(PullRequestState::Open));
    assert_eq!(PullRequestState::from_name("closed"), Some(PullRequestState::Closed));
    assert_eq!(PullRequestState::from_name("Open"), None);
    assert_eq!(PullRequestState::from_name("merged"), None);
    assert_eq!(PullRequestState::from_name(""), None);
}

#[test]
fn subject_type_is_read_from_its_name() {
    assert_eq!(SubjectType::from_name("PullRequest"), Some(SubjectType::PullRequest));
    assert_eq!(SubjectType::from_name("Issue"), Some(SubjectType::Issue));
    assert_eq!(SubjectType::from_name("issue"), None);
    assert_eq!(SubjectType::from_name("pull_request"), None);
    assert_eq!(SubjectType::from_name("Commit"), None);
    assert_eq!(SubjectType::from_name(""), None);
}
