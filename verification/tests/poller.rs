use chrono::{DateTime, Utc};
use good_first_bot::github::{GithubError, IssueNode};
use good_first_bot::poller::{filter_new_issues, PollAction, PollEvent, PollerError, RepoPoll};
use good_first_bot::storage::StorageError;

const LAST_POLL_TIME: i64 = 1715817600_i64;

fn issue_at(secs: i64) -> IssueNode {
    IssueNode {
        created_at: DateTime::<Utc>::from_timestamp(secs, 0).unwrap().to_rfc3339(),
        ..Default::default()
    }
}

#[test]
fn test_filter_new_issues() {
    let issues = vec![issue_at(LAST_POLL_TIME + 1), issue_at(LAST_POLL_TIME - 1)];

    // Only 1 issue should be included
    let new_issues = filter_new_issues(issues.clone(), LAST_POLL_TIME as u64);

    assert_eq!(new_issues.len(), 1);
}

#[test]
fn test_filter_new_issues_keeps_order_and_drops_unreadable() {
    let mut bad = issue_at(LAST_POLL_TIME + 5);
    bad.created_at = "yesterday".to_string();
    let a = issue_at(LAST_POLL_TIME + 2);
    let b = issue_at(LAST_POLL_TIME + 3);
    let same = issue_at(LAST_POLL_TIME);
    let out = filter_new_issues(vec![a.clone(), bad, same, b.clone()], LAST_POLL_TIME as u64);
    assert_eq!(out, vec![a, b]);
}

fn labels() -> Vec<String> {
    vec!["bug".to_string(), "enhancement".to_string()]
}

#[test]
fn test_poll_flow_with_new_issues() {
    let mut poll = RepoPoll::new();
    assert!(matches!(poll.step(PollEvent::Start), PollAction::GetTrackedLabels));
    assert!(matches!(poll.step(PollEvent::TrackedLabels(Ok(labels()))), PollAction::GetLastPollTime));
    match poll.step(PollEvent::LastPollTime(Ok(Some(LAST_POLL_TIME)))) {
        PollAction::FetchIssues(l) => assert_eq!(l, labels()),
        _ => panic!("expected a fetch"),
    }
    let fresh = issue_at(LAST_POLL_TIME + 10);
    match poll.step(PollEvent::Issues(Ok(vec![fresh.clone(), issue_at(LAST_POLL_TIME - 10)]))) {
        PollAction::SendNewIssues(i) => assert_eq!(i, vec![fresh]),
        _ => panic!("expected a send"),
    }
    assert!(matches!(poll.step(PollEvent::MessageSent(Ok(()))), PollAction::SetLastPollTime));
    assert!(matches!(poll.step(PollEvent::LastPollTimeSet(Ok(()))), PollAction::Done(Ok(()))));
}

#[test]
fn test_poll_no_tracked_labels_skips() {
    let mut poll = RepoPoll::new();
    poll.step(PollEvent::Start);
    assert!(matches!(poll.step(PollEvent::TrackedLabels(Ok(vec![]))), PollAction::Done(Ok(()))));
}

#[test]
fn test_poll_storage_error_ends_poll() {
    let mut poll = RepoPoll::new();
    poll.step(PollEvent::Start);
    let err = StorageError::DbError("down".to_string());
    match poll.step(PollEvent::TrackedLabels(Err(err.clone()))) {
        PollAction::Done(Err(PollerError::Storage(e))) => assert_eq!(e, err),
        _ => panic!("expected a storage error"),
    }
}

#[test]
fn test_poll_github_errors() {
    let run = |e: GithubError| {
        let mut poll = RepoPoll::new();
        poll.step(PollEvent::Start);
        poll.step(PollEvent::TrackedLabels(Ok(labels())));
        poll.step(PollEvent::LastPollTime(Ok(None)));
        poll.step(PollEvent::Issues(Err(e)))
    };
    assert!(matches!(
        run(GithubError::Unauthorized),
        PollAction::Done(Err(PollerError::Github(GithubError::Unauthorized)))
    ));
    assert!(matches!(run(GithubError::RateLimited), PollAction::Done(Ok(()))));
    assert!(matches!(run(GithubError::GraphQLApiError("x".to_string())), PollAction::Done(Ok(()))));
}

#[test]
fn test_poll_failed_send_keeps_poll_time() {
    let mut poll = RepoPoll::new();
    poll.step(PollEvent::Start);
    poll.step(PollEvent::TrackedLabels(Ok(labels())));
    poll.step(PollEvent::LastPollTime(Ok(Some(LAST_POLL_TIME))));
    poll.step(PollEvent::Issues(Ok(vec![issue_at(LAST_POLL_TIME + 1)])));
    let sent = poll.step(PollEvent::MessageSent(Err(
        good_first_bot::messaging::MessagingError::TeloxideRequest("x".to_string()),
    )));
    assert!(matches!(sent, PollAction::Done(Ok(()))));
}
