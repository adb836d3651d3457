use vstd::prelude::*;

use crate::job::JobStatus;

verus! {

/// Seconds to wait after the generate job was accepted before the first
/// status check.
pub const INITIAL_DELAY_SECS: u64 = 60;

/// Seconds between two status checks.
pub const POLL_INTERVAL_SECS: u64 = 60;

/// Number of back-to-back failed status checks after which polling a job is
/// given up.
pub const MAX_CONSECUTIVE_FAILURES: u32 = 5;

/// Why one call to the proxy did not give a usable answer.
#[derive(Debug, Clone, PartialEq, Eq)]
pub enum JobError {
    /// The request did not get through, or the proxy answered with an HTTP error.
    Transport(String),
    /// The answer did not have the expected shape.
    Decode(String),
}

/// What one status check gave.
#[derive(Debug, Clone, PartialEq, Eq)]
pub enum PollOutcome {
    Fetched(JobStatus),
    Failed(JobError),
}

/// What the poller decides after one status check.
#[derive(Debug, Clone, PartialEq, Eq)]
pub enum PollStep {
    /// Wait for the next tick and check again.
    Continue,
    /// The job reached completion; this is the snapshot that said so.
    Complete(JobStatus),
    /// The failure budget is spent; this is the last failure.
    Exhausted(JobError),
    /// The job did not complete within the allowed number of checks.
    TimedOut,
}

/// The completion sentinel of a job's progress.
pub open spec fn is_complete(progress: Seq<char>) -> bool {
    progress == seq!['1', '0', '0', '%']
}

/// Whether the progress text of a snapshot is exactly `100%`.
pub fn is_complete_progress(progress: &String) -> (r: bool)
    ensures
        r == is_complete(progress@),
{
    let p = progress.as_str();
    if p.unicode_len() != 4 {
        return false;
    }
    let r = p.get_char(0) == '1' && p.get_char(1) == '0' && p.get_char(2) == '0' && p.get_char(3)
        == '%';
    proof {
        if r {
            assert(p@ =~= seq!['1', '0', '0', '%']);
        }
    }
    r
}

/// The abstract state of a poller.
pub struct PollView {
    pub failures: nat,
    pub polls: nat,
    pub max_polls: Option<nat>,
}

/// `n + 1`, held at the largest `u64`.
pub open spec fn saturating_inc(n: nat) -> nat {
    if n < u64::MAX {
        n + 1
    } else {
        n
    }
}

/// Whether a poller is still allowed to check.
pub open spec fn is_running(v: PollView) -> bool {
    v.failures < MAX_CONSECUTIVE_FAILURES
}

/// Whether a poller has used up its allowed number of checks.
pub open spec fn out_of_polls(v: PollView) -> bool {
    match v.max_polls {
        Some(m) => v.polls >= m,
        None => false,
    }
}

/// One status check: a successful check resets the failure count, a failed
/// one adds to it; completion wins over everything, an exhausted budget over
/// a timeout.
pub open spec fn poll_step(v: PollView, ev: PollOutcome) -> (PollView, PollStep) {
    match ev {
        PollOutcome::Fetched(s) => {
            let next = PollView { failures: 0, polls: saturating_inc(v.polls), ..v };
            if is_complete(s.progress@) {
                (next, PollStep::Complete(s))
            } else if out_of_polls(next) {
                (next, PollStep::TimedOut)
            } else {
                (next, PollStep::Continue)
            }
        },
        PollOutcome::Failed(e) => {
            let next = PollView {
                failures: v.failures + 1,
                polls: saturating_inc(v.polls),
                ..v
            };
            if next.failures >= MAX_CONSECUTIVE_FAILURES {
                (next, PollStep::Exhausted(e))
            } else if out_of_polls(next) {
                (next, PollStep::TimedOut)
            } else {
                (next, PollStep::Continue)
            }
        },
    }
}

/// Feeds the checks of `evs` in order until the poller decides something
/// other than `Continue`; gives the last state, the last decision and how
/// many checks were used.
pub open spec fn poll_run(v: PollView, evs: Seq<PollOutcome>) -> (PollView, PollStep, nat)
    decreases evs.len(),
{
    if evs.len() == 0 {
        (v, PollStep::Continue, 0)
    } else {
        let (next, step) = poll_step(v, evs[0]);
        if step is Continue {
            let (last, s, n) = poll_run(next, evs.drop_first());
            (last, s, n + 1)
        } else {
            (next, step, 1)
        }
    }
}

/// Whether `o` is a successful check that does not show completion.
pub open spec fn is_pending(o: PollOutcome) -> bool {
    o is Fetched && !is_complete(o->Fetched_0.progress@)
}

/// Number of failed checks at the front of `evs`.
pub open spec fn leading_failures(evs: Seq<PollOutcome>) -> nat
    decreases evs.len(),
{
    if evs.len() > 0 && evs[0] is Failed {
        1 + leading_failures(evs.drop_first())
    } else {
        0
    }
}

/// Without a bound on checks, a poller that sees pending snapshots and then
/// a complete one returns that complete snapshot, after exactly one check per
/// snapshot.
pub proof fn lemma_completes_on_first_complete(v: PollView, evs: Seq<PollOutcome>)
    requires
        is_running(v),
        v.max_polls is None,
        evs.len() >= 1,
        forall|i: int| 0 <= i < evs.len() - 1 ==> is_pending(#[trigger] evs[i]),
        evs.last() is Fetched,
        is_complete(evs.last()->Fetched_0.progress@),
    ensures
        poll_run(v, evs).1 == PollStep::Complete(evs.last()->Fetched_0),
        poll_run(v, evs).2 == evs.len(),
    decreases evs.len(),
{
    if evs.len() > 1 {
        assert(is_pending(evs[0]));
        let next = poll_step(v, evs[0]).0;
        let rest = evs.drop_first();
        assert forall|i: int| 0 <= i < rest.len() - 1 implies is_pending(#[trigger] rest[i]) by {
            assert(rest[i] == evs[i + 1]);
        }
        assert(rest.last() == evs.last());
        lemma_completes_on_first_complete(next, rest);
    }
}

/// Without a bound on checks, failed checks in a row are tolerated while
/// fewer than `MAX_CONSECUTIVE_FAILURES` have happened since the last success;
/// the one that reaches that number ends polling with `Exhausted`, carrying
/// that failure.
pub proof fn lemma_failure_budget(v: PollView, evs: Seq<PollOutcome>)
    requires
        is_running(v),
        v.max_polls is None,
        forall|i: int| 0 <= i < evs.len() ==> (#[trigger] evs[i]) is Failed,
    ensures
        v.failures + evs.len() < MAX_CONSECUTIVE_FAILURES ==> {
            &&& poll_run(v, evs).1 is Continue
            &&& poll_run(v, evs).2 == evs.len()
            &&& poll_run(v, evs).0.failures == v.failures + evs.len()
        },
        v.failures + evs.len() >= MAX_CONSECUTIVE_FAILURES ==> {
            let k = MAX_CONSECUTIVE_FAILURES - v.failures;
            &&& poll_run(v, evs).1 == PollStep::Exhausted(evs[k - 1]->Failed_0)
            &&& poll_run(v, evs).2 == k
        },
    decreases evs.len(),
{
    if evs.len() > 0 {
        assert(evs[0] is Failed);
        let next = poll_step(v, evs[0]).0;
        let rest = evs.drop_first();
        if next.failures < MAX_CONSECUTIVE_FAILURES {
            assert forall|i: int| 0 <= i < rest.len() implies (#[trigger] rest[i]) is Failed by {
                assert(rest[i] == evs[i + 1]);
            }
            lemma_failure_budget(next, rest);
            if v.failures + evs.len() >= MAX_CONSECUTIVE_FAILURES {
                let k = MAX_CONSECUTIVE_FAILURES - v.failures;
                assert(rest[k - 2] == evs[k - 1]);
            }
        }
    }
}

/// Whether `evs` holds, somewhere, `MAX_CONSECUTIVE_FAILURES` failed checks
/// back to back.
pub open spec fn has_failure_run(evs: Seq<PollOutcome>) -> bool
    decreases evs.len(),
{
    evs.len() > 0 && (leading_failures(evs) >= MAX_CONSECUTIVE_FAILURES || has_failure_run(
        evs.drop_first(),
    ))
}

/// Only failures in a row count: without a bound on checks and without a
/// complete snapshot, a poller that starts with no failures never gives up
/// unless `MAX_CONSECUTIVE_FAILURES` failed checks come back to back.
pub proof fn lemma_no_exhaustion_without_failure_run(v: PollView, evs: Seq<PollOutcome>)
    requires
        v.failures == 0,
        v.max_polls is None,
        forall|i: int| 0 <= i < evs.len() ==> !((#[trigger] evs[i]) is Fetched && is_complete(
            evs[i]->Fetched_0.progress@,
        )),
        !has_failure_run(evs),
    ensures
        poll_run(v, evs).1 is Continue,
{
    lemma_no_exhaustion_from(v, evs);
}

proof fn lemma_no_exhaustion_from(v: PollView, evs: Seq<PollOutcome>)
    requires
        v.max_polls is None,
        v.failures + leading_failures(evs) < MAX_CONSECUTIVE_FAILURES,
        forall|i: int| 0 <= i < evs.len() ==> !((#[trigger] evs[i]) is Fetched && is_complete(
            evs[i]->Fetched_0.progress@,
        )),
        !has_failure_run(evs),
    ensures
        poll_run(v, evs).1 is Continue,
    decreases evs.len(),
{
    if evs.len() > 0 {
        let next = poll_step(v, evs[0]).0;
        let rest = evs.drop_first();
        assert(!(evs[0] is Fetched && is_complete(evs[0]->Fetched_0.progress@)));
        assert forall|i: int| 0 <= i < rest.len() implies !((#[trigger] rest[i]) is Fetched
            && is_complete(rest[i]->Fetched_0.progress@)) by {
            assert(rest[i] == evs[i + 1]);
        }
        assert(!has_failure_run(rest));
        if evs[0] is Failed {
            assert(leading_failures(evs) == 1 + leading_failures(rest));
        } else if rest.len() > 0 {
            assert(leading_failures(rest) < MAX_CONSECUTIVE_FAILURES);
        } else {
            assert(leading_failures(rest) == 0);
        }
        lemma_no_exhaustion_from(next, rest);
    }
}

/// Waits for a job to reach `100%`, tolerating fewer than
/// `MAX_CONSECUTIVE_FAILURES` failed checks in a row.
#[derive(Debug, Clone, PartialEq, Eq)]
pub struct PollLoop {
    failures: u32,
    polls: u64,
    max_polls: Option<u64>,
}

/// The optional bound of a poller, in spec terms.
pub open spec fn opt_nat(o: Option<u64>) -> Option<nat> {
    match o {
        Some(m) => Some(m as nat),
        None => None,
    }
}

/// A poller that has not checked yet.
pub open spec fn fresh_poll(max_polls: Option<nat>) -> PollView {
    PollView { failures: 0, polls: 0, max_polls }
}

impl View for PollLoop {
    type V = PollView;

    closed spec fn view(&self) -> PollView {
        PollView {
            failures: self.failures as nat,
            polls: self.polls as nat,
            max_polls: opt_nat(self.max_polls),
        }
    }
}

impl PollLoop {
    /// A poller that has not checked yet; with `Some(m)` it gives up with
    /// `TimedOut` once `m` checks did not show completion.
    pub fn new(max_polls: Option<u64>) -> (r: PollLoop)
        ensures
            r@ == fresh_poll(opt_nat(max_polls)),
    {
        PollLoop { failures: 0, polls: 0, max_polls }
    }

    /// Takes the outcome of one status check into account.
    pub fn step(&mut self, ev: PollOutcome) -> (r: PollStep)
        requires
            is_running(old(self)@),
        ensures
            (final(self)@, r) == poll_step(old(self)@, ev),
    {
        let polls = self.polls.saturating_add(1);
        match ev {
            PollOutcome::Fetched(s) => {
                self.failures = 0;
                self.polls = polls;
                if is_complete_progress(&s.progress) {
                    PollStep::Complete(s)
                } else if self.out_of_polls() {
                    PollStep::TimedOut
                } else {
                    PollStep::Continue
                }
            },
            PollOutcome::Failed(e) => {
                self.failures = self.failures + 1;
                self.polls = polls;
                if self.failures >= MAX_CONSECUTIVE_FAILURES {
                    PollStep::Exhausted(e)
                } else if self.out_of_polls() {
                    PollStep::TimedOut
                } else {
                    PollStep::Continue
                }
            },
        }
    }

    fn out_of_polls(&self) -> (r: bool)
        ensures
            r == out_of_polls(self@),
    {
        match self.max_polls {
            Some(m) => self.polls >= m,
            None => false,
        }
    }
}

} // verus!
