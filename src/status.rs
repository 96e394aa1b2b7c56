//! Query status and the decisions of waiting for a query to complete: poll,
//! sleep a fixed interval between polls, give up after a fixed number of
//! polls.
use vstd::prelude::*;
use crate::text::same_text;

verus! {

/// Polls made at most while waiting for one query.
pub const MAX_POLL_ATTEMPTS: u32 = 5;

/// Where a submitted query stands, as the backend reports it.
#[derive(Debug, Clone, Copy, PartialEq, Eq, Structural)]
pub enum QueryStatus {
    Queued,
    Running,
    Succeeded,
    Failed,
    Cancelled,
    /// A state the backend reported that this shell does not know, or none.
    Unknown,
}

pub open spec fn queued_text() -> Seq<char> {
    seq!['Q', 'U', 'E', 'U', 'E', 'D']
}

pub open spec fn running_text() -> Seq<char> {
    seq!['R', 'U', 'N', 'N', 'I', 'N', 'G']
}

pub open spec fn succeeded_text() -> Seq<char> {
    seq!['S', 'U', 'C', 'C', 'E', 'E', 'D', 'E', 'D']
}

pub open spec fn failed_text() -> Seq<char> {
    seq!['F', 'A', 'I', 'L', 'E', 'D']
}

pub open spec fn cancelled_text() -> Seq<char> {
    seq!['C', 'A', 'N', 'C', 'E', 'L', 'L', 'E', 'D']
}

/// The status that the backend's state text names.
pub open spec fn status_of(s: Seq<char>) -> QueryStatus {
    if s == queued_text() {
        QueryStatus::Queued
    } else if s == running_text() {
        QueryStatus::Running
    } else if s == succeeded_text() {
        QueryStatus::Succeeded
    } else if s == failed_text() {
        QueryStatus::Failed
    } else if s == cancelled_text() {
        QueryStatus::Cancelled
    } else {
        QueryStatus::Unknown
    }
}

impl QueryStatus {
    /// A terminal status is one from which the query moves no further.
    pub open spec fn spec_is_terminal(self) -> bool {
        !(self is Queued || self is Running)
    }

    #[verifier::when_used_as_spec(spec_is_terminal)]
    pub fn is_terminal(self) -> (r: bool)
        ensures
            r == self.spec_is_terminal(),
    {
        match self {
            QueryStatus::Queued | QueryStatus::Running => false,
            _ => true,
        }
    }

    /// Reads the backend's state text; any text but the five known states
    /// is `Unknown`.
    pub fn from_state(s: &str) -> (r: QueryStatus)
        ensures
            r == status_of(s@),
    {
        proof {
            reveal_strlit("QUEUED");
            reveal_strlit("RUNNING");
            reveal_strlit("SUCCEEDED");
            reveal_strlit("FAILED");
            reveal_strlit("CANCELLED");
        }
        assert("QUEUED"@ =~= queued_text());
        assert("RUNNING"@ =~= running_text());
        assert("SUCCEEDED"@ =~= succeeded_text());
        assert("FAILED"@ =~= failed_text());
        assert("CANCELLED"@ =~= cancelled_text());
        if same_text(s, "QUEUED") {
            QueryStatus::Queued
        } else if same_text(s, "RUNNING") {
            QueryStatus::Running
        } else if same_text(s, "SUCCEEDED") {
            QueryStatus::Succeeded
        } else if same_text(s, "FAILED") {
            QueryStatus::Failed
        } else if same_text(s, "CANCELLED") {
            QueryStatus::Cancelled
        } else {
            QueryStatus::Unknown
        }
    }

    /// As `from_state`, where a response without any state is `Unknown`.
    pub fn from_reported(s: Option<&str>) -> (r: QueryStatus)
        ensures
            r == match s {
                Some(t) => status_of(t@),
                None => QueryStatus::Unknown,
            },
    {
        match s {
            Some(t) => QueryStatus::from_state(t),
            None => QueryStatus::Unknown,
        }
    }
}

/// What the waiting loop does next.
#[derive(Debug, Clone, Copy, PartialEq, Eq, Structural)]
pub enum PollStep {
    /// Fetch the query's status and hand it to `on_status`.
    Poll,
    /// Sleep this many seconds, then call `after_sleep`.
    Sleep(u64),
    /// Stop: whether the query is known to have succeeded.
    Finished(bool),
}

/// The step after a poll has returned `status`.
pub open spec fn status_step(status: QueryStatus, interval: u64) -> PollStep {
    match status {
        QueryStatus::Succeeded => PollStep::Finished(true),
        QueryStatus::Queued | QueryStatus::Running => PollStep::Sleep(interval),
        _ => PollStep::Finished(false),
    }
}

/// The step after a sleep, once `polls` polls have been made.
pub open spec fn sleep_step(polls: nat) -> PollStep {
    if polls < MAX_POLL_ATTEMPTS {
        PollStep::Poll
    } else {
        PollStep::Finished(false)
    }
}

/// Waits for one query: decides, from the statuses that come back, when to
/// poll again, when to sleep, and when to stop.
pub struct CompletionPoller {
    polls: u32,
    interval: u64,
}

impl CompletionPoller {
    /// Polls made so far.
    pub closed spec fn spec_polls(&self) -> nat {
        self.polls as nat
    }

    /// Seconds slept between polls.
    pub closed spec fn spec_interval(&self) -> u64 {
        self.interval
    }

    /// A poller that has made no poll and sleeps `interval_secs` seconds
    /// between polls. Its first step is to poll.
    pub fn new(interval_secs: u64) -> (r: CompletionPoller)
        ensures
            r.spec_polls() == 0,
            r.spec_interval() == interval_secs,
    {
        CompletionPoller { polls: 0, interval: interval_secs }
    }

    pub fn polls(&self) -> (r: u32)
        ensures
            r as nat == self.spec_polls(),
    {
        self.polls
    }

    /// Whether the budget of polls still allows one.
    pub fn can_poll(&self) -> (r: bool)
        ensures
            r == (self.spec_polls() < MAX_POLL_ATTEMPTS),
    {
        self.polls < MAX_POLL_ATTEMPTS
    }

    /// Takes the status that a poll returned. Success finishes with `true`;
    /// failure, cancellation and an unknown state finish with `false` at
    /// once; a query still queued or running asks for a sleep.
    pub fn on_status(&mut self, status: QueryStatus) -> (r: PollStep)
        requires
            old(self).spec_polls() < MAX_POLL_ATTEMPTS,
        ensures
            final(self).spec_polls() == old(self).spec_polls() + 1,
            final(self).spec_interval() == old(self).spec_interval(),
            r == status_step(status, old(self).spec_interval()),
    {
        self.polls = self.polls + 1;
        match status {
            QueryStatus::Succeeded => PollStep::Finished(true),
            QueryStatus::Queued | QueryStatus::Running => PollStep::Sleep(self.interval),
            _ => PollStep::Finished(false),
        }
    }

    /// After a sleep: poll again while the budget allows, else finish with
    /// `false`, which means only that success was not confirmed.
    pub fn after_sleep(&self) -> (r: PollStep)
        ensures
            r == sleep_step(self.spec_polls()),
    {
        if self.polls < MAX_POLL_ATTEMPTS {
            PollStep::Poll
        } else {
            PollStep::Finished(false)
        }
    }
}

/// The outcome of waiting when the backend answers the polls with `stub` in
/// turn, `polls` polls having been made before: whether success was
/// confirmed, the polls made in all, and the sleeps taken.
pub open spec fn run_poller(polls: nat, interval: u64, stub: Seq<QueryStatus>) -> (bool, nat, nat)
    decreases stub.len(),
{
    if stub.len() == 0 {
        (false, polls, 0)
    } else {
        let p = polls + 1;
        match status_step(stub[0], interval) {
            PollStep::Finished(b) => (b, p, 0),
            PollStep::Sleep(_) => match sleep_step(p) {
                PollStep::Finished(b) => (b, p, 1),
                _ => {
                    let rest = run_poller(p, interval, stub.drop_first());
                    (rest.0, rest.1, rest.2 + 1)
                },
            },
            PollStep::Poll => (false, p, 0),
        }
    }
}

proof fn lemma_running_then_success(j: nat, k: nat, interval: u64, stub: Seq<QueryStatus>)
    requires
        j <= k < MAX_POLL_ATTEMPTS,
        stub.len() > k - j,
        forall|i: int| 0 <= i < k - j ==> !(#[trigger] stub[i]).spec_is_terminal(),
        stub[k - j] == QueryStatus::Succeeded,
    ensures
        run_poller(j, interval, stub) == (true, k + 1, (k - j) as nat),
    decreases k - j,
{
    if j < k {
        let rest = stub.drop_first();
        assert(!stub[0].spec_is_terminal());
        assert forall|i: int| 0 <= i < k - (j + 1) implies !(#[trigger] rest[i]).spec_is_terminal() by {
            assert(rest[i] == stub[i + 1]);
        }
        assert(rest[k - (j + 1)] == stub[k - j]);
        lemma_running_then_success(j + 1, k, interval, rest);
    }
}

proof fn lemma_running_throughout(j: nat, interval: u64, stub: Seq<QueryStatus>)
    requires
        j < MAX_POLL_ATTEMPTS,
        stub.len() >= MAX_POLL_ATTEMPTS - j,
        forall|i: int| 0 <= i < MAX_POLL_ATTEMPTS - j ==> !(#[trigger] stub[i]).spec_is_terminal(),
    ensures
        run_poller(j, interval, stub) == (false, MAX_POLL_ATTEMPTS as nat, (MAX_POLL_ATTEMPTS
            - j) as nat),
    decreases MAX_POLL_ATTEMPTS - j,
{
    assert(!stub[0].spec_is_terminal());
    if j + 1 < MAX_POLL_ATTEMPTS {
        let rest = stub.drop_first();
        assert forall|i: int| 0 <= i < MAX_POLL_ATTEMPTS - (j + 1) implies !(
        #[trigger] rest[i]).spec_is_terminal() by {
            assert(rest[i] == stub[i + 1]);
        }
        lemma_running_throughout(j + 1, interval, rest);
    }
}

/// A query reported queued or running for `k` polls, fewer than the budget,
/// and then succeeded, is confirmed after exactly `k + 1` polls and `k`
/// sleeps. One reported queued or running at every poll of the budget is
/// not confirmed: the wait ends with `false` after all polls and as many
/// sleeps.
pub proof fn lemma_poll_budget(k: nat, interval: u64, stub: Seq<QueryStatus>)
    requires
        stub.len() >= MAX_POLL_ATTEMPTS,
    ensures
        k < MAX_POLL_ATTEMPTS && (forall|i: int| 0 <= i < k ==> !(#[trigger] stub[i]).spec_is_terminal())
            && stub[k as int] == QueryStatus::Succeeded ==> run_poller(0, interval, stub) == (
        true,
        k + 1,
        k,
        ),
        (forall|i: int|
            0 <= i < MAX_POLL_ATTEMPTS ==> !(#[trigger] stub[i]).spec_is_terminal())
            ==> run_poller(0, interval, stub) == (
        false,
        MAX_POLL_ATTEMPTS as nat,
        MAX_POLL_ATTEMPTS as nat,
        ),
{
    if k < MAX_POLL_ATTEMPTS && (forall|i: int| 0 <= i < k ==> !(#[trigger] stub[i]).spec_is_terminal())
        && stub[k as int] == QueryStatus::Succeeded {
        lemma_running_then_success(0, k, interval, stub);
    }
    if forall|i: int| 0 <= i < MAX_POLL_ATTEMPTS ==> !(#[trigger] stub[i]).spec_is_terminal() {
        lemma_running_throughout(0, interval, stub);
    }
}

} // verus!
