use vstd::prelude::*;

use crate::job::{is_upscale_of, ImageChangeParams, JobStatus, SubmitImageResult};
use crate::poll::{
    fresh_poll, is_complete, is_running, opt_nat, poll_step, JobError, PollLoop, PollOutcome, PollStep,
    PollView, INITIAL_DELAY_SECS, POLL_INTERVAL_SECS,
};

verus! {

/// The two jobs of a workflow.
#[derive(Debug, Clone, Copy, PartialEq, Eq)]
pub enum Stage {
    /// The job that renders candidate images from the prompt.
    Generate,
    /// The job that picks and upscales the first candidate.
    Upscale,
}

/// Why a workflow ended without an image.
#[derive(Debug, Clone, PartialEq, Eq)]
pub enum WorkflowError {
    /// The submit call of `stage` failed; no retry is made.
    Submit { stage: Stage, cause: JobError },
    /// Polling the job of `stage` failed too often in a row; `last` is the
    /// last failure.
    PollExhausted { stage: Stage, last: JobError },
    /// The job of `stage` did not complete within the allowed number of checks.
    PollTimeout { stage: Stage },
    /// The caller cancelled the workflow while it was at `stage`.
    Cancelled { stage: Stage },
}

/// What the surrounding code reports back to the workflow.
#[derive(Debug, Clone, PartialEq, Eq)]
pub enum Event {
    /// The pending submit call was accepted.
    Submitted(SubmitImageResult),
    /// The pending submit call failed.
    SubmitFailed(JobError),
    /// The pending status check gave this.
    Polled(PollOutcome),
    /// The caller wants the workflow to stop.
    Cancelled,
}

/// What the workflow asks the surrounding code to do next.
#[derive(Debug, Clone, PartialEq, Eq)]
pub enum Action {
    /// Submit a generate job for `prompt`.
    SubmitGenerate { prompt: String },
    /// Wait until tick `tick` (see `tick_offset_secs`), then fetch the status
    /// of `job_id`.
    FetchStatus { job_id: String, tick: u64 },
    /// Submit this upscale request.
    SubmitUpscale { params: ImageChangeParams },
    /// The workflow is done; this is the final image.
    Finish { image_url: String },
    /// The workflow failed.
    Fail { error: WorkflowError },
}

/// Where a workflow stands, in spec terms.
pub enum Phase {
    Submitting,
    PollingGenerate { job_id: String, poll: PollView },
    Upscaling { job_id: String },
    PollingUpscale { job_id: String, poll: PollView },
    Done { image_url: String },
    Failed { error: WorkflowError },
}

/// The abstract state of a workflow.
pub struct WorkflowView {
    pub prompt: String,
    pub max_polls: Option<nat>,
    pub next_tick: nat,
    pub phase: Phase,
}

/// A workflow that has not submitted anything yet.
pub open spec fn initial_view(prompt: String, max_polls: Option<nat>) -> WorkflowView {
    WorkflowView { prompt, max_polls, next_tick: 0, phase: Phase::Submitting }
}

/// The invariant of a workflow: a poller in use is still running and has the
/// workflow's bound.
pub open spec fn workflow_inv(v: WorkflowView) -> bool {
    match v.phase {
        Phase::PollingGenerate { poll, .. } => is_running(poll) && poll.max_polls == v.max_polls,
        Phase::PollingUpscale { poll, .. } => is_running(poll) && poll.max_polls == v.max_polls,
        _ => true,
    }
}

/// The stage a phase belongs to.
pub open spec fn stage_of(phase: Phase) -> Stage {
    match phase {
        Phase::Upscaling { .. } => Stage::Upscale,
        Phase::PollingUpscale { .. } => Stage::Upscale,
        _ => Stage::Generate,
    }
}

/// Whether a workflow has finished, with or without an image.
pub open spec fn is_terminal(phase: Phase) -> bool {
    phase is Done || phase is Failed
}

/// The phase after one status check of the job of `stage`.
pub open spec fn after_poll(
    stage: Stage,
    job_id: String,
    poll: PollView,
    o: PollOutcome,
) -> Phase {
    let (next, step) = poll_step(poll, o);
    match step {
        PollStep::Continue => match stage {
            Stage::Generate => Phase::PollingGenerate { job_id, poll: next },
            Stage::Upscale => Phase::PollingUpscale { job_id, poll: next },
        },
        PollStep::Complete(s) => match stage {
            Stage::Generate => Phase::Upscaling { job_id },
            Stage::Upscale => Phase::Done { image_url: s.image_url },
        },
        PollStep::Exhausted(e) => Phase::Failed {
            error: WorkflowError::PollExhausted { stage, last: e },
        },
        PollStep::TimedOut => Phase::Failed { error: WorkflowError::PollTimeout { stage } },
    }
}

/// How a workflow moves on one event. A cancel ends every unfinished
/// workflow; an event that does not answer the pending action changes nothing.
pub open spec fn workflow_step(v: WorkflowView, ev: Event) -> WorkflowView {
    if is_terminal(v.phase) {
        v
    } else if ev is Cancelled {
        WorkflowView {
            phase: Phase::Failed { error: WorkflowError::Cancelled { stage: stage_of(v.phase) } },
            ..v
        }
    } else {
        match (v.phase, ev) {
            (Phase::Submitting, Event::Submitted(r)) => WorkflowView {
                phase: Phase::PollingGenerate { job_id: r.result, poll: fresh_poll(v.max_polls) },
                ..v
            },
            (Phase::Submitting, Event::SubmitFailed(e)) => WorkflowView {
                phase: Phase::Failed {
                    error: WorkflowError::Submit { stage: Stage::Generate, cause: e },
                },
                ..v
            },
            (Phase::PollingGenerate { job_id, poll }, Event::Polled(o)) => WorkflowView {
                next_tick: saturating_tick(v.next_tick),
                phase: after_poll(Stage::Generate, job_id, poll, o),
                ..v
            },
            (Phase::Upscaling { .. }, Event::Submitted(r)) => WorkflowView {
                phase: Phase::PollingUpscale { job_id: r.result, poll: fresh_poll(v.max_polls) },
                ..v
            },
            (Phase::Upscaling { .. }, Event::SubmitFailed(e)) => WorkflowView {
                phase: Phase::Failed {
                    error: WorkflowError::Submit { stage: Stage::Upscale, cause: e },
                },
                ..v
            },
            (Phase::PollingUpscale { job_id, poll }, Event::Polled(o)) => WorkflowView {
                next_tick: saturating_tick(v.next_tick),
                phase: after_poll(Stage::Upscale, job_id, poll, o),
                ..v
            },
            _ => v,
        }
    }
}

/// `t + 1`, held at the largest `u64`.
pub open spec fn saturating_tick(t: nat) -> nat {
    if t < u64::MAX {
        t + 1
    } else {
        t
    }
}

/// Feeds the events of `evs` to a workflow in order.
pub open spec fn workflow_run(v: WorkflowView, evs: Seq<Event>) -> WorkflowView
    decreases evs.len(),
{
    if evs.len() == 0 {
        v
    } else {
        workflow_run(workflow_step(v, evs[0]), evs.drop_first())
    }
}

/// Every step keeps the invariant of a workflow.
pub proof fn lemma_step_keeps_inv(v: WorkflowView, ev: Event)
    requires
        workflow_inv(v),
    ensures
        workflow_inv(workflow_step(v, ev)),
{
}

/// A finished workflow stays as it is, whatever comes.
pub proof fn lemma_terminal_is_final(v: WorkflowView, evs: Seq<Event>)
    requires
        is_terminal(v.phase),
    ensures
        workflow_run(v, evs) == v,
    decreases evs.len(),
{
    if evs.len() > 0 {
        lemma_terminal_is_final(v, evs.drop_first());
    }
}

/// The two-stage happy path: the generate job `r1` is accepted and polled to
/// completion, the upscale of `r1.result` is accepted as `r2` and polled to
/// completion with `s2`; the workflow then finishes with `s2.image_url`,
/// having asked for the status of `r1.result`, then the upscale of it, then
/// the status of `r2.result`.
pub proof fn lemma_happy_path(
    prompt: String,
    max_polls: Option<nat>,
    r1: SubmitImageResult,
    s1: JobStatus,
    r2: SubmitImageResult,
    s2: JobStatus,
)
    requires
        is_complete(s1.progress@),
        is_complete(s2.progress@),
    ensures
        ({
            let v0 = initial_view(prompt, max_polls);
            let v1 = workflow_step(v0, Event::Submitted(r1));
            let v2 = workflow_step(v1, Event::Polled(PollOutcome::Fetched(s1)));
            let v3 = workflow_step(v2, Event::Submitted(r2));
            let v4 = workflow_step(v3, Event::Polled(PollOutcome::Fetched(s2)));
            &&& v1.phase is PollingGenerate && v1.phase->PollingGenerate_job_id == r1.result
            &&& v2.phase == Phase::Upscaling { job_id: r1.result }
            &&& v3.phase is PollingUpscale && v3.phase->PollingUpscale_job_id == r2.result
            &&& v4.phase == Phase::Done { image_url: s2.image_url }
            &&& workflow_run(
                v0,
                seq![
                    Event::Submitted(r1),
                    Event::Polled(PollOutcome::Fetched(s1)),
                    Event::Submitted(r2),
                    Event::Polled(PollOutcome::Fetched(s2)),
                ],
            ) == v4
        }),
{
    let v0 = initial_view(prompt, max_polls);
    let evs = seq![
        Event::Submitted(r1),
        Event::Polled(PollOutcome::Fetched(s1)),
        Event::Submitted(r2),
        Event::Polled(PollOutcome::Fetched(s2)),
    ];
    let v1 = workflow_step(v0, evs[0]);
    let v2 = workflow_step(v1, evs[1]);
    let v3 = workflow_step(v2, evs[2]);
    let v4 = workflow_step(v3, evs[3]);
    let e1 = evs.drop_first();
    let e2 = e1.drop_first();
    let e3 = e2.drop_first();
    let e4 = e3.drop_first();
    assert(e1[0] == evs[1]);
    assert(e2[0] == evs[2]);
    assert(e3[0] == evs[3]);
    assert(e4.len() == 0);
    assert(workflow_run(v3, e3) == workflow_run(v4, e4));
    assert(workflow_run(v2, e2) == workflow_run(v3, e3));
    assert(workflow_run(v1, e1) == workflow_run(v2, e2));
    assert(workflow_run(v0, evs) == workflow_run(v1, e1));
}

/// A failed generate submit ends the workflow at once with that error, left
/// untouched, and nothing that comes after changes it: no status is ever
/// asked for.
pub proof fn lemma_submit_failure_ends_workflow(
    prompt: String,
    max_polls: Option<nat>,
    e: JobError,
    evs: Seq<Event>,
)
    ensures
        ({
            let v1 = workflow_step(initial_view(prompt, max_polls), Event::SubmitFailed(e));
            &&& v1.phase == Phase::Failed {
                error: WorkflowError::Submit { stage: Stage::Generate, cause: e },
            }
            &&& workflow_run(v1, evs) == v1
            &&& forall|a: Action| is_action_of(workflow_run(v1, evs), a) ==> a is Fail
        }),
{
    let v1 = workflow_step(initial_view(prompt, max_polls), Event::SubmitFailed(e));
    lemma_terminal_is_final(v1, evs);
}

/// The job a workflow in phase `phase` is polling, if any.
pub open spec fn polled_job(phase: Phase) -> Option<String> {
    match phase {
        Phase::PollingGenerate { job_id, .. } => Some(job_id),
        Phase::PollingUpscale { job_id, .. } => Some(job_id),
        _ => None,
    }
}

/// Job ids flow only from submits: a workflow starts polling a job only with
/// the id that the submit it just made returned, keeps polling that same id,
/// and upscales exactly the generate job it polled to completion.
pub proof fn lemma_job_ids_come_from_submits(v: WorkflowView, ev: Event)
    ensures
        ({
            let w = workflow_step(v, ev);
            &&& polled_job(w.phase) matches Some(j) ==> polled_job(v.phase) == Some(j) || (
            ev is Submitted && ev->Submitted_0.result == j)
            &&& w.phase matches Phase::Upscaling { job_id } ==> (v.phase == w.phase || polled_job(
                v.phase,
            ) == Some(job_id))
        }),
{
}

/// Whether `ev` reports a call that went through.
pub open spec fn is_success(ev: Event) -> bool {
    ev is Submitted || (ev is Polled && ev->Polled_0 is Fetched)
}

/// Without a bound on checks, a workflow whose every call goes through (each
/// answer decoded) never fails.
pub proof fn lemma_successful_calls_never_fail(prompt: String, evs: Seq<Event>)
    requires
        forall|i: int| 0 <= i < evs.len() ==> is_success(#[trigger] evs[i]),
    ensures
        !(workflow_run(initial_view(prompt, None), evs).phase is Failed),
{
    lemma_successful_run(initial_view(prompt, None), evs);
}

proof fn lemma_successful_run(v: WorkflowView, evs: Seq<Event>)
    requires
        workflow_inv(v),
        v.max_polls is None,
        !(v.phase is Failed),
        forall|i: int| 0 <= i < evs.len() ==> is_success(#[trigger] evs[i]),
    ensures
        !(workflow_run(v, evs).phase is Failed),
    decreases evs.len(),
{
    if evs.len() > 0 {
        assert(is_success(evs[0]));
        let next = workflow_step(v, evs[0]);
        let rest = evs.drop_first();
        assert forall|i: int| 0 <= i < rest.len() implies is_success(#[trigger] rest[i]) by {
            assert(rest[i] == evs[i + 1]);
        }
        lemma_successful_run(next, rest);
    }
}

/// Whether `a` is what a workflow in state `v` asks for.
pub open spec fn is_action_of(v: WorkflowView, a: Action) -> bool {
    match v.phase {
        Phase::Submitting => a == Action::SubmitGenerate { prompt: v.prompt },
        Phase::PollingGenerate { job_id, .. } => a == Action::FetchStatus {
            job_id,
            tick: v.next_tick as u64,
        },
        Phase::Upscaling { job_id } => a is SubmitUpscale && is_upscale_of(
            a->SubmitUpscale_params,
            job_id,
        ),
        Phase::PollingUpscale { job_id, .. } => a == Action::FetchStatus {
            job_id,
            tick: v.next_tick as u64,
        },
        Phase::Done { image_url } => a == Action::Finish { image_url },
        Phase::Failed { error } => a == Action::Fail { error },
    }
}

/// Seconds after the generate job was accepted at which status check number
/// `tick` (from 0, counted over both stages) is due; held at the largest `u64`.
pub fn tick_offset_secs(tick: u64) -> (r: u64)
    ensures
        r == if INITIAL_DELAY_SECS + tick * POLL_INTERVAL_SECS <= u64::MAX {
            INITIAL_DELAY_SECS + tick * POLL_INTERVAL_SECS
        } else {
            u64::MAX as int
        },
{
    if tick > (u64::MAX - INITIAL_DELAY_SECS) / POLL_INTERVAL_SECS {
        u64::MAX
    } else {
        INITIAL_DELAY_SECS + tick * POLL_INTERVAL_SECS
    }
}

enum WorkflowState {
    Submitting,
    PollingGenerate { job_id: String, poll: PollLoop },
    Upscaling { job_id: String },
    PollingUpscale { job_id: String, poll: PollLoop },
    Done { image_url: String },
    Failed { error: WorkflowError },
}

spec fn phase_of(s: WorkflowState) -> Phase {
    match s {
        WorkflowState::Submitting => Phase::Submitting,
        WorkflowState::PollingGenerate { job_id, poll } => Phase::PollingGenerate {
            job_id,
            poll: poll@,
        },
        WorkflowState::Upscaling { job_id } => Phase::Upscaling { job_id },
        WorkflowState::PollingUpscale { job_id, poll } => Phase::PollingUpscale {
            job_id,
            poll: poll@,
        },
        WorkflowState::Done { image_url } => Phase::Done { image_url },
        WorkflowState::Failed { error } => Phase::Failed { error },
    }
}

/// The generate, then upscale, workflow that turns a prompt into one image.
/// It does no I/O: the caller performs each `Action` and reports the `Event`.
pub struct ImageWorkflow {
    prompt: String,
    max_polls: Option<u64>,
    next_tick: u64,
    state: WorkflowState,
}

impl View for ImageWorkflow {
    type V = WorkflowView;

    closed spec fn view(&self) -> WorkflowView {
        WorkflowView {
            prompt: self.prompt,
            max_polls: opt_nat(self.max_polls),
            next_tick: self.next_tick as nat,
            phase: phase_of(self.state),
        }
    }
}

fn clone_job_error(e: &JobError) -> (r: JobError)
    ensures
        r == *e,
{
    match e {
        JobError::Transport(m) => JobError::Transport(m.clone()),
        JobError::Decode(m) => JobError::Decode(m.clone()),
    }
}

fn clone_stage(s: &Stage) -> (r: Stage)
    ensures
        r == *s,
{
    match s {
        Stage::Generate => Stage::Generate,
        Stage::Upscale => Stage::Upscale,
    }
}

impl WorkflowError {
    /// A copy of this error.
    pub fn duplicate(&self) -> (r: WorkflowError)
        ensures
            r == *self,
    {
        match self {
            WorkflowError::Submit { stage, cause } => WorkflowError::Submit {
                stage: clone_stage(stage),
                cause: clone_job_error(cause),
            },
            WorkflowError::PollExhausted { stage, last } => WorkflowError::PollExhausted {
                stage: clone_stage(stage),
                last: clone_job_error(last),
            },
            WorkflowError::PollTimeout { stage } => WorkflowError::PollTimeout {
                stage: clone_stage(stage),
            },
            WorkflowError::Cancelled { stage } => WorkflowError::Cancelled {
                stage: clone_stage(stage),
            },
        }
    }
}

impl ImageWorkflow {
    pub open spec fn wf(&self) -> bool {
        workflow_inv(self@)
    }

    /// A workflow for `prompt`; with `Some(m)` each stage gives up after `m`
    /// status checks that did not show completion.
    pub fn new(prompt: String, max_polls: Option<u64>) -> (r: ImageWorkflow)
        ensures
            r.wf(),
            r@ == initial_view(prompt, opt_nat(max_polls)),
    {
        ImageWorkflow { prompt, max_polls, next_tick: 0, state: WorkflowState::Submitting }
    }

    /// What the caller has to do next.
    pub fn action(&self) -> (r: Action)
        requires
            self.wf(),
        ensures
            is_action_of(self@, r),
    {
        match &self.state {
            WorkflowState::Submitting => Action::SubmitGenerate { prompt: self.prompt.clone() },
            WorkflowState::PollingGenerate { job_id, .. } => Action::FetchStatus {
                job_id: job_id.clone(),
                tick: self.next_tick,
            },
            WorkflowState::Upscaling { job_id } => Action::SubmitUpscale {
                params: ImageChangeParams::new(job_id.clone()),
            },
            WorkflowState::PollingUpscale { job_id, .. } => Action::FetchStatus {
                job_id: job_id.clone(),
                tick: self.next_tick,
            },
            WorkflowState::Done { image_url } => Action::Finish { image_url: image_url.clone() },
            WorkflowState::Failed { error } => Action::Fail { error: error.duplicate() },
        }
    }

    /// Whether the workflow has finished, with or without an image.
    pub fn is_finished(&self) -> (r: bool)
        ensures
            r == is_terminal(self@.phase),
    {
        match &self.state {
            WorkflowState::Done { .. } => true,
            WorkflowState::Failed { .. } => true,
            _ => false,
        }
    }

    /// Takes the answer to the pending action (or a cancel) into account.
    pub fn on_event(&mut self, ev: Event)
        requires
            old(self).wf(),
        ensures
            final(self).wf(),
            final(self)@ == workflow_step(old(self)@, ev),
    {
        let mut state = WorkflowState::Submitting;
        core::mem::swap(&mut self.state, &mut state);
        let next = match state {
            WorkflowState::Submitting => match ev {
                Event::Submitted(r) => WorkflowState::PollingGenerate {
                    job_id: r.result,
                    poll: PollLoop::new(self.max_polls),
                },
                Event::SubmitFailed(e) => WorkflowState::Failed {
                    error: WorkflowError::Submit { stage: Stage::Generate, cause: e },
                },
                Event::Cancelled => WorkflowState::Failed {
                    error: WorkflowError::Cancelled { stage: Stage::Generate },
                },
                Event::Polled(_) => WorkflowState::Submitting,
            },
            WorkflowState::PollingGenerate { job_id, poll } => match ev {
                Event::Polled(o) => {
                    self.next_tick = self.next_tick.saturating_add(1);
                    Self::after_poll(Stage::Generate, job_id, poll, o)
                },
                Event::Cancelled => WorkflowState::Failed {
                    error: WorkflowError::Cancelled { stage: Stage::Generate },
                },
                _ => WorkflowState::PollingGenerate { job_id, poll },
            },
            WorkflowState::Upscaling { job_id } => match ev {
                Event::Submitted(r) => WorkflowState::PollingUpscale {
                    job_id: r.result,
                    poll: PollLoop::new(self.max_polls),
                },
                Event::SubmitFailed(e) => WorkflowState::Failed {
                    error: WorkflowError::Submit { stage: Stage::Upscale, cause: e },
                },
                Event::Cancelled => WorkflowState::Failed {
                    error: WorkflowError::Cancelled { stage: Stage::Upscale },
                },
                Event::Polled(_) => WorkflowState::Upscaling { job_id },
            },
            WorkflowState::PollingUpscale { job_id, poll } => match ev {
                Event::Polled(o) => {
                    self.next_tick = self.next_tick.saturating_add(1);
                    Self::after_poll(Stage::Upscale, job_id, poll, o)
                },
                Event::Cancelled => WorkflowState::Failed {
                    error: WorkflowError::Cancelled { stage: Stage::Upscale },
                },
                _ => WorkflowState::PollingUpscale { job_id, poll },
            },
            WorkflowState::Done { image_url } => WorkflowState::Done { image_url },
            WorkflowState::Failed { error } => WorkflowState::Failed { error },
        };
        self.state = next;
    }

    fn after_poll(
        stage: Stage,
        job_id: String,
        poll: PollLoop,
        o: PollOutcome,
    ) -> (r: WorkflowState)
        requires
            is_running(poll@),
        ensures
            phase_of(r) == after_poll(stage, job_id, poll@, o),
            r matches WorkflowState::PollingGenerate { poll: p, .. } ==> is_running(p@)
                && p@.max_polls == poll@.max_polls,
            r matches WorkflowState::PollingUpscale { poll: p, .. } ==> is_running(p@)
                && p@.max_polls == poll@.max_polls,
    {
        let mut poll = poll;
        match poll.step(o) {
            PollStep::Continue => match stage {
                Stage::Generate => WorkflowState::PollingGenerate { job_id, poll },
                Stage::Upscale => WorkflowState::PollingUpscale { job_id, poll },
            },
            PollStep::Complete(s) => match stage {
                Stage::Generate => WorkflowState::Upscaling { job_id },
                Stage::Upscale => WorkflowState::Done { image_url: s.image_url },
            },
            PollStep::Exhausted(e) => WorkflowState::Failed {
                error: WorkflowError::PollExhausted { stage, last: e },
            },
            PollStep::TimedOut => WorkflowState::Failed {
                error: WorkflowError::PollTimeout { stage },
            },
        }
    }
}

} // verus!
