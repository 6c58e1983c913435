//! Polling one tracked repository: the decisions between the storage,
//! GitHub and Telegram calls, as a state machine that the caller drives.
use vstd::prelude::*;

use crate::github::{GithubError, IssueNode};
use crate::messaging::MessagingError;
use crate::storage::StorageError;

verus! {

/// Errors that end a poll.
#[derive(Debug, Clone, PartialEq, Eq)]
pub enum PollerError {
    /// Failed to poll GitHub issues.
    Github(GithubError),
    /// Failed to access storage.
    Storage(StorageError),
    /// Failed to send message to Telegram.
    Messaging(MessagingError),
}

/// The instant that `DateTime::parse_from_rfc3339` reads from the text `s`,
/// as whole seconds since the Unix epoch and the nanoseconds past that
/// second; `None` when the text is not RFC 3339.
pub uninterp spec fn rfc3339_timestamp(s: Seq<char>) -> Option<(i64, u32)>;

/// chrono's `DateTime::parse_from_rfc3339`, read back as
/// `(timestamp(), timestamp_subsec_nanos())`. What counts as RFC 3339 text
/// is chrono's parser and is only named here.
#[verifier::external_body]
fn parse_rfc3339(s: &str) -> (res: Option<(i64, u32)>)
    ensures
        res == rfc3339_timestamp(s@),
{
    chrono::DateTime::parse_from_rfc3339(s).ok().map(|dt| (dt.timestamp(), dt.timestamp_subsec_nanos()))
}

/// Nanoseconds in a second.
pub open spec fn nanos_per_sec() -> int {
    1_000_000_000
}

/// The issue was created strictly after `last_poll_secs` seconds past the
/// epoch; an issue whose time cannot be read is never new.
pub open spec fn is_new_issue(issue: IssueNode, last_poll_secs: nat) -> bool {
    match rfc3339_timestamp(issue.created_at@) {
        Some((secs, nanos)) => secs * nanos_per_sec() + nanos > last_poll_secs * nanos_per_sec(),
        None => false,
    }
}

/// The issues created after the last poll, in their given order.
pub open spec fn new_issues(issues: Seq<IssueNode>, last_poll_secs: nat) -> Seq<IssueNode> {
    issues.filter(|i: IssueNode| is_new_issue(i, last_poll_secs))
}

/// Keeps the issues created after the last poll time, in order.
pub fn filter_new_issues(issues: Vec<IssueNode>, last_poll_secs: u64) -> (res: Vec<IssueNode>)
    requires
        last_poll_secs <= i64::MAX,
    ensures
        res@ == new_issues(issues@, last_poll_secs as nat),
{
    let mut res: Vec<IssueNode> = Vec::new();
    let mut rest = issues;
    let ghost all = rest@;
    let mut k: usize = 0;
    let n = rest.len();
    while k < n
        invariant
            n == all.len(),
            k <= n,
            rest@ == all.subrange(k as int, n as int),
            res@ == new_issues(all.take(k as int), last_poll_secs as nat),
            last_poll_secs <= i64::MAX,
        decreases n - k,
    {
        let issue = rest.remove(0);
        assert(issue == all[k as int]);
        proof {
            reveal_with_fuel(Seq::<_>::filter, 1);
            assert(all.take(k + 1).drop_last() =~= all.take(k as int));
            assert(rest@ =~= all.subrange(k + 1, n as int));
        }
        let keep = match parse_rfc3339(issue.created_at.as_str()) {
            Some((secs, nanos)) => {
                (secs as i128) * 1_000_000_000 + (nanos as i128) > (last_poll_secs as i128)
                    * 1_000_000_000
            },
            None => false,
        };
        assert(keep == is_new_issue(issue, last_poll_secs as nat));
        assert(all.take(k + 1).last() == issue);
        if keep {
            res.push(issue);
        }
        k = k + 1;
    }
    assert(all.take(n as int) =~= all);
    res
}

} // verus!

verus! {

/// Where a poll of one repository stands.
#[derive(Debug, Clone, Copy, PartialEq, Eq)]
pub enum PollPhase {
    /// Nothing has been asked yet.
    Init,
    /// Waiting for the labels the user tracks in the repository.
    AwaitTrackedLabels,
    /// Waiting for the time of the last successful notification.
    AwaitLastPollTime,
    /// Waiting for the repository's issues that carry the tracked labels.
    AwaitIssues,
    /// Waiting for the new-issues message to be sent.
    AwaitSend,
    /// Waiting for the last poll time to be stored.
    AwaitSetPollTime,
    /// The poll is over.
    Finished,
}

/// The state of a poll of one repository.
pub struct RepoPoll {
    /// The current phase.
    pub phase: PollPhase,
    /// The tracked labels, once known.
    pub labels: Vec<String>,
    /// The last poll time in seconds since the epoch, once known.
    pub last_poll_secs: u64,
}

/// What the caller must do next.
pub enum PollAction {
    /// Read the labels tracked for the repository.
    GetTrackedLabels,
    /// Read the repository's last poll time.
    GetLastPollTime,
    /// Fetch the repository's issues carrying these labels.
    FetchIssues(Vec<String>),
    /// Send a message listing these new issues.
    SendNewIssues(Vec<IssueNode>),
    /// Store the current time as the repository's last poll time.
    SetLastPollTime,
    /// The poll is over with this outcome.
    Done(Result<(), PollerError>),
}

/// What the caller observed.
pub enum PollEvent {
    /// The poll begins.
    Start,
    /// The tracked labels were read.
    TrackedLabels(Result<Vec<String>, StorageError>),
    /// The last poll time was read (seconds since the epoch).
    LastPollTime(Result<Option<i64>, StorageError>),
    /// The issues were fetched.
    Issues(Result<Vec<IssueNode>, GithubError>),
    /// The new-issues message was sent.
    MessageSent(Result<(), MessagingError>),
    /// The last poll time was stored.
    LastPollTimeSet(Result<(), StorageError>),
}

/// Abstract state of a poll.
pub struct RepoPollView {
    pub phase: PollPhase,
    pub labels: Seq<String>,
    pub last_poll_secs: nat,
}

/// Abstract action.
pub enum PollActionView {
    GetTrackedLabels,
    GetLastPollTime,
    FetchIssues(Seq<String>),
    SendNewIssues(Seq<IssueNode>),
    SetLastPollTime,
    Done(Result<(), PollerError>),
}

/// Abstract event.
pub enum PollEventView {
    Start,
    TrackedLabels(Result<Seq<String>, StorageError>),
    LastPollTime(Result<Option<i64>, StorageError>),
    Issues(Result<Seq<IssueNode>, GithubError>),
    MessageSent(Result<(), MessagingError>),
    LastPollTimeSet(Result<(), StorageError>),
}

impl View for RepoPoll {
    type V = RepoPollView;

    open spec fn view(&self) -> RepoPollView {
        RepoPollView {
            phase: self.phase,
            labels: self.labels@,
            last_poll_secs: self.last_poll_secs as nat,
        }
    }
}

impl View for PollAction {
    type V = PollActionView;

    open spec fn view(&self) -> PollActionView {
        match self {
            PollAction::GetTrackedLabels => PollActionView::GetTrackedLabels,
            PollAction::GetLastPollTime => PollActionView::GetLastPollTime,
            PollAction::FetchIssues(l) => PollActionView::FetchIssues(l@),
            PollAction::SendNewIssues(i) => PollActionView::SendNewIssues(i@),
            PollAction::SetLastPollTime => PollActionView::SetLastPollTime,
            PollAction::Done(r) => PollActionView::Done(*r),
        }
    }
}

impl View for PollEvent {
    type V = PollEventView;

    open spec fn view(&self) -> PollEventView {
        match self {
            PollEvent::Start => PollEventView::Start,
            PollEvent::TrackedLabels(r) => PollEventView::TrackedLabels(
                match r {
                    Ok(l) => Ok(l@),
                    Err(e) => Err(*e),
                },
            ),
            PollEvent::LastPollTime(r) => PollEventView::LastPollTime(*r),
            PollEvent::Issues(r) => PollEventView::Issues(
                match r {
                    Ok(i) => Ok(i@),
                    Err(e) => Err(*e),
                },
            ),
            PollEvent::MessageSent(r) => PollEventView::MessageSent(*r),
            PollEvent::LastPollTimeSet(r) => PollEventView::LastPollTimeSet(*r),
        }
    }
}

/// The event is the answer that `phase` waits for, and a stored poll time
/// is not negative (it counts seconds after the epoch).
pub open spec fn accepts(phase: PollPhase, e: PollEventView) -> bool {
    match (phase, e) {
        (PollPhase::Init, PollEventView::Start) => true,
        (PollPhase::AwaitTrackedLabels, PollEventView::TrackedLabels(_)) => true,
        (PollPhase::AwaitLastPollTime, PollEventView::LastPollTime(r)) => match r {
            Ok(Some(t)) => t >= 0,
            _ => true,
        },
        (PollPhase::AwaitIssues, PollEventView::Issues(_)) => true,
        (PollPhase::AwaitSend, PollEventView::MessageSent(_)) => true,
        (PollPhase::AwaitSetPollTime, PollEventView::LastPollTimeSet(_)) => true,
        _ => false,
    }
}

/// A GitHub error that stops the poller: the token or the client setup is
/// broken. Other GitHub errors skip the repository for this cycle.
pub open spec fn is_fatal_github_error(e: GithubError) -> bool {
    match e {
        GithubError::Unauthorized => true,
        GithubError::InvalidHeader(_) => true,
        GithubError::SerializationError(_) => true,
        GithubError::GraphQLApiError(_) => false,
        GithubError::RateLimited => false,
        GithubError::RequestError(_) => false,
    }
}

/// The poll ends with this outcome.
pub open spec fn finish(s: RepoPollView, r: Result<(), PollerError>) -> (RepoPollView, PollActionView) {
    (RepoPollView { phase: PollPhase::Finished, ..s }, PollActionView::Done(r))
}

/// One step of a poll: the next state and action after event `e`.
pub open spec fn poll_transition(s: RepoPollView, e: PollEventView) -> (RepoPollView, PollActionView) {
    match e {
        PollEventView::Start => (
            RepoPollView { phase: PollPhase::AwaitTrackedLabels, ..s },
            PollActionView::GetTrackedLabels,
        ),
        PollEventView::TrackedLabels(Err(err)) => finish(s, Err(PollerError::Storage(err))),
        PollEventView::TrackedLabels(Ok(labels)) => if labels.len() == 0 {
            finish(s, Ok(()))
        } else {
            (
                RepoPollView { phase: PollPhase::AwaitLastPollTime, labels, ..s },
                PollActionView::GetLastPollTime,
            )
        },
        PollEventView::LastPollTime(Err(err)) => finish(s, Err(PollerError::Storage(err))),
        PollEventView::LastPollTime(Ok(t)) => (
            RepoPollView {
                phase: PollPhase::AwaitIssues,
                last_poll_secs: match t {
                    Some(secs) => secs as nat,
                    None => 0,
                },
                ..s
            },
            PollActionView::FetchIssues(s.labels),
        ),
        PollEventView::Issues(Err(err)) => if is_fatal_github_error(err) {
            finish(s, Err(PollerError::Github(err)))
        } else {
            finish(s, Ok(()))
        },
        PollEventView::Issues(Ok(issues)) => {
            let fresh = new_issues(issues, s.last_poll_secs);
            if fresh.len() == 0 {
                finish(s, Ok(()))
            } else {
                (
                    RepoPollView { phase: PollPhase::AwaitSend, ..s },
                    PollActionView::SendNewIssues(fresh),
                )
            }
        },
        PollEventView::MessageSent(Err(_)) => finish(s, Ok(())),
        PollEventView::MessageSent(Ok(())) => (
            RepoPollView { phase: PollPhase::AwaitSetPollTime, ..s },
            PollActionView::SetLastPollTime,
        ),
        PollEventView::LastPollTimeSet(_) => finish(s, Ok(())),
    }
}

impl RepoPoll {
    /// A poll that has not started.
    pub fn new() -> (res: Self)
        ensures
            res@.phase == PollPhase::Init,
            res@.labels.len() == 0,
            res@.last_poll_secs == 0,
    {
        RepoPoll { phase: PollPhase::Init, labels: Vec::new(), last_poll_secs: 0 }
    }

    /// Whether `event` is an answer this poll can take now.
    pub fn accepts(&self, event: &PollEvent) -> (res: bool)
        ensures
            res == accepts(self.phase, event@),
    {
        match (self.phase, event) {
            (PollPhase::Init, PollEvent::Start) => true,
            (PollPhase::AwaitTrackedLabels, PollEvent::TrackedLabels(_)) => true,
            (PollPhase::AwaitLastPollTime, PollEvent::LastPollTime(r)) => match r {
                Ok(Some(t)) => *t >= 0,
                _ => true,
            },
            (PollPhase::AwaitIssues, PollEvent::Issues(_)) => true,
            (PollPhase::AwaitSend, PollEvent::MessageSent(_)) => true,
            (PollPhase::AwaitSetPollTime, PollEvent::LastPollTimeSet(_)) => true,
            _ => false,
        }
    }

    /// Advances the poll by one event and returns what to do next.
    pub fn step(&mut self, event: PollEvent) -> (action: PollAction)
        requires
            accepts(old(self).phase, event@),
            old(self).last_poll_secs <= i64::MAX,
        ensures
            (final(self)@, action@) == poll_transition(old(self)@, event@),
            final(self).last_poll_secs <= i64::MAX,
    {
        match event {
            PollEvent::Start => {
                self.phase = PollPhase::AwaitTrackedLabels;
                PollAction::GetTrackedLabels
            },
            PollEvent::TrackedLabels(Err(err)) => {
                self.phase = PollPhase::Finished;
                PollAction::Done(Err(PollerError::Storage(err)))
            },
            PollEvent::TrackedLabels(Ok(labels)) => {
                if labels.len() == 0 {
                    self.phase = PollPhase::Finished;
                    PollAction::Done(Ok(()))
                } else {
                    self.phase = PollPhase::AwaitLastPollTime;
                    self.labels = labels;
                    PollAction::GetLastPollTime
                }
            },
            PollEvent::LastPollTime(Err(err)) => {
                self.phase = PollPhase::Finished;
                PollAction::Done(Err(PollerError::Storage(err)))
            },
            PollEvent::LastPollTime(Ok(t)) => {
                self.phase = PollPhase::AwaitIssues;
                self.last_poll_secs = match t {
                    Some(secs) => secs as u64,
                    None => 0,
                };
                let sent = self.labels.clone();
                proof {
                    assert(sent@ =~= self.labels@);
                }
                PollAction::FetchIssues(sent)
            },
            PollEvent::Issues(Err(err)) => {
                self.phase = PollPhase::Finished;
                let fatal = match err {
                    GithubError::Unauthorized => true,
                    GithubError::InvalidHeader(_) => true,
                    GithubError::SerializationError(_) => true,
                    _ => false,
                };
                if fatal {
                    PollAction::Done(Err(PollerError::Github(err)))
                } else {
                    PollAction::Done(Ok(()))
                }
            },
            PollEvent::Issues(Ok(issues)) => {
                let fresh = filter_new_issues(issues, self.last_poll_secs);
                if fresh.len() == 0 {
                    self.phase = PollPhase::Finished;
                    PollAction::Done(Ok(()))
                } else {
                    self.phase = PollPhase::AwaitSend;
                    PollAction::SendNewIssues(fresh)
                }
            },
            PollEvent::MessageSent(Err(_)) => {
                self.phase = PollPhase::Finished;
                PollAction::Done(Ok(()))
            },
            PollEvent::MessageSent(Ok(())) => {
                self.phase = PollPhase::AwaitSetPollTime;
                PollAction::SetLastPollTime
            },
            PollEvent::LastPollTimeSet(_) => {
                self.phase = PollPhase::Finished;
                PollAction::Done(Ok(()))
            },
        }
    }
}

} // verus!

verus! {

/// The last poll time is stored only right after the new-issues message
/// was sent successfully, so a failed send is retried next cycle.
pub proof fn law_poll_time_set_only_after_send(s: RepoPollView, e: PollEventView)
    requires
        accepts(s.phase, e),
    ensures
        poll_transition(s, e).1 is SetLastPollTime <==> (s.phase == PollPhase::AwaitSend && e
            == PollEventView::MessageSent(Ok(()))),
{
    match e {
        PollEventView::MessageSent(Ok(u)) => {
            assert(u == ());
        },
        PollEventView::Issues(Ok(issues)) => {},
        _ => {},
    }
}

/// A new-issues message lists exactly the fetched issues created after the
/// last poll time, in order, and is never empty.
pub proof fn law_sent_issues_are_new(s: RepoPollView, e: PollEventView)
    requires
        accepts(s.phase, e),
        poll_transition(s, e).1 is SendNewIssues,
    ensures
        e is Issues,
        ({
            let sent = poll_transition(s, e).1->SendNewIssues_0;
            let fetched = e->Issues_0->Ok_0;
            &&& sent == new_issues(fetched, s.last_poll_secs)
            &&& sent.len() > 0
            &&& forall|i: int| 0 <= i < sent.len() ==> is_new_issue(#[trigger] sent[i], s.last_poll_secs)
            &&& forall|i: int| 0 <= i < sent.len() ==> fetched.contains(#[trigger] sent[i])
        }),
{
    let fetched = e->Issues_0->Ok_0;
    let sent = poll_transition(s, e).1->SendNewIssues_0;
    let p = |x: IssueNode| is_new_issue(x, s.last_poll_secs);
    assert(sent == fetched.filter(p));
    assert forall|i: int| 0 <= i < sent.len() implies is_new_issue(#[trigger] sent[i], s.last_poll_secs) && fetched.contains(sent[i]) by {
        fetched.lemma_filter_pred(p, i);
        assert(sent.contains(sent[i]));
        fetched.lemma_filter_contains_rev(p, sent[i]);
    }
}

/// A poll ends in an error only when storage could not be read or GitHub
/// refused the client; rate limits, network and GraphQL errors, a failed
/// message and a failed write of the poll time all end the poll normally.
pub proof fn law_poll_errors(s: RepoPollView, e: PollEventView)
    requires
        accepts(s.phase, e),
        poll_transition(s, e).1 is Done,
        poll_transition(s, e).1->Done_0 is Err,
    ensures
        match poll_transition(s, e).1->Done_0->Err_0 {
            PollerError::Storage(err) => e == PollEventView::TrackedLabels(Err(err))
                || e == PollEventView::LastPollTime(Err(err)),
            PollerError::Github(err) => e == PollEventView::Issues(Err(err)) && is_fatal_github_error(
                err,
            ),
            PollerError::Messaging(_) => false,
        },
{
}

/// A repository without tracked labels is skipped: the poll ends at once,
/// without asking GitHub.
pub proof fn law_no_labels_no_fetch(s: RepoPollView)
    requires
        s.phase == PollPhase::AwaitTrackedLabels,
    ensures
        poll_transition(s, PollEventView::TrackedLabels(Ok(Seq::empty()))) == finish(s, Ok(())),
{
}

/// GitHub is asked for issues carrying exactly the tracked labels that
/// were read, after the last poll time is known.
pub proof fn law_fetch_uses_tracked_labels(labels: Seq<String>, t: Option<i64>, s0: RepoPollView)
    requires
        s0.phase == PollPhase::AwaitTrackedLabels,
        labels.len() > 0,
        t matches Some(x) ==> x >= 0,
    ensures
        ({
            let s1 = poll_transition(s0, PollEventView::TrackedLabels(Ok(labels))).0;
            let a2 = poll_transition(s1, PollEventView::LastPollTime(Ok(t))).1;
            a2 == PollActionView::FetchIssues(labels)
        }),
{
}

/// A finished poll accepts no further event.
pub proof fn law_finished_is_final(e: PollEventView)
    ensures
        !accepts(PollPhase::Finished, e),
{
}

/// How far a poll has come: each phase after the ones before it.
pub open spec fn phase_rank(p: PollPhase) -> nat {
    match p {
        PollPhase::Init => 0,
        PollPhase::AwaitTrackedLabels => 1,
        PollPhase::AwaitLastPollTime => 2,
        PollPhase::AwaitIssues => 3,
        PollPhase::AwaitSend => 4,
        PollPhase::AwaitSetPollTime => 5,
        PollPhase::Finished => 6,
    }
}

/// Every answer moves a poll forward, so a poll ends after at most six
/// answers; it ends exactly when its action is `Done`.
pub proof fn law_poll_progresses(s: RepoPollView, e: PollEventView)
    requires
        accepts(s.phase, e),
    ensures
        phase_rank(poll_transition(s, e).0.phase) > phase_rank(s.phase),
        poll_transition(s, e).0.phase == PollPhase::Finished <==> poll_transition(s, e).1 is Done,
{
}

/// A repository without a stored poll time is polled from the epoch: the
/// poll starts at second zero, and then every fetched issue whose creation
/// time reads as later than the epoch is sent.
pub proof fn law_no_stored_time_polls_from_epoch(s: RepoPollView, issues: Seq<IssueNode>)
    requires
        s.phase == PollPhase::AwaitLastPollTime,
    ensures
        poll_transition(s, PollEventView::LastPollTime(Ok(None))).0.last_poll_secs == 0,
        forall|i: int|
            #![trigger issues[i]]
            0 <= i < issues.len() && (rfc3339_timestamp(issues[i].created_at@) matches Some(
                (secs, nanos),
            ) && secs * 1_000_000_000 + nanos > 0) ==> (poll_transition(
                poll_transition(s, PollEventView::LastPollTime(Ok(None))).0,
                PollEventView::Issues(Ok(issues)),
            ).1 matches PollActionView::SendNewIssues(sent) && sent.contains(issues[i])),
{
    let s1 = poll_transition(s, PollEventView::LastPollTime(Ok(None))).0;
    assert(s1.last_poll_secs == 0);
    let p = |x: IssueNode| is_new_issue(x, s1.last_poll_secs);
    assert forall|i: int|
        #![trigger issues[i]]
        0 <= i < issues.len() && (rfc3339_timestamp(issues[i].created_at@) matches Some(
            (secs, nanos),
        ) && secs * 1_000_000_000 + nanos > 0) implies (poll_transition(
        s1,
        PollEventView::Issues(Ok(issues)),
    ).1 matches PollActionView::SendNewIssues(sent) && sent.contains(issues[i])) by {
        assert(p(issues[i]));
        issues.lemma_filter_contains(p, i);
        let fresh = new_issues(issues, s1.last_poll_secs);
        assert(fresh == issues.filter(p));
        assert(fresh.contains(issues[i]));
        assert(fresh.len() > 0);
    }
}

/// The issue was created strictly after `t` seconds past the epoch, by
/// its RFC 3339 creation time.
pub open spec fn created_after(issue: IssueNode, t: int) -> bool {
    rfc3339_timestamp(issue.created_at@) matches Some((secs, nanos)) && secs * 1_000_000_000 + nanos
        > t * 1_000_000_000
}

/// After the last poll time `t` is read (the epoch when none is stored),
/// a fetched issue is announced exactly when it was created after `t`;
/// when none was, the poll ends without a message.
pub proof fn law_issues_sent_exactly_when_after_last_poll(
    s: RepoPollView,
    t: Option<i64>,
    issues: Seq<IssueNode>,
)
    requires
        s.phase == PollPhase::AwaitLastPollTime,
        t matches Some(x) ==> x >= 0,
    ensures
        ({
            let since: int = match t {
                Some(x) => x as int,
                None => 0,
            };
            let s1 = poll_transition(s, PollEventView::LastPollTime(Ok(t))).0;
            let a = poll_transition(s1, PollEventView::Issues(Ok(issues))).1;
            &&& s1.last_poll_secs == since
            &&& forall|i: int|
                #![trigger issues[i]]
                0 <= i < issues.len() ==> (created_after(issues[i], since) <==> (a matches PollActionView::SendNewIssues(
                    sent,
                ) && sent.contains(issues[i])))
            &&& (forall|i: int| 0 <= i < issues.len() ==> !created_after(#[trigger] issues[i], since))
                ==> a == PollActionView::Done(Ok(()))
        }),
{
    let since: int = match t {
        Some(x) => x as int,
        None => 0,
    };
    let s1 = poll_transition(s, PollEventView::LastPollTime(Ok(t))).0;
    let p = |x: IssueNode| is_new_issue(x, s1.last_poll_secs);
    let fresh = issues.filter(p);
    assert(new_issues(issues, s1.last_poll_secs) == fresh);
    assert forall|i: int| #![trigger issues[i]] 0 <= i < issues.len() implies (created_after(
        issues[i],
        since,
    ) <==> fresh.contains(issues[i])) by {
        if created_after(issues[i], since) {
            issues.lemma_filter_contains(p, i);
        }
        if fresh.contains(issues[i]) {
            let k = choose|k: int| 0 <= k < fresh.len() && fresh[k] == issues[i];
            issues.lemma_filter_pred(p, k);
        }
    }
    if forall|i: int| 0 <= i < issues.len() ==> !created_after(#[trigger] issues[i], since) {
        if fresh.len() > 0 {
            issues.lemma_filter_pred(p, 0);
            issues.lemma_filter_contains_rev(p, fresh[0]);
            let k = choose|k: int| 0 <= k < issues.len() && issues[k] == fresh[0];
            assert(!created_after(issues[k], since));
        }
    }
}

} // verus!
