use daily_bot::{
    is_complete_progress, tick_offset_secs, Action, Event, ImageChangeParams, ImageWorkflow,
    JobError, JobStatus, Midjourney, PollLoop, PollOutcome, PollStep, Stage, SubmitImageResult,
    WorkflowError,
};

fn status(id: &str, progress: &str, image_url: &str) -> JobStatus {
    JobStatus {
        action: "IMAGINE".to_string(),
        id: id.to_string(),
        status: "IN_PROGRESS".to_string(),
        progress: progress.to_string(),
        image_url: image_url.to_string(),
    }
}

fn submitted(job_id: &str) -> SubmitImageResult {
    SubmitImageResult {
        code: 1,
        description: "提交成功".to_string(),
        result: job_id.to_string(),
    }
}

fn transport(msg: &str) -> JobError {
    JobError::Transport(msg.to_string())
}

#[test]
fn progress_sentinel_is_exact() {
    assert!(is_complete_progress(&"100%".to_string()));
    assert!(!is_complete_progress(&"100".to_string()));
    assert!(!is_complete_progress(&"99%".to_string()));
    assert!(!is_complete_progress(&"100%%".to_string()));
    assert!(!is_complete_progress(&"".to_string()));
}

#[test]
fn poll_stops_on_third_fetch_at_full_progress() {
    let mut poll = PollLoop::new(None);
    let mut fetches = 0;
    let mut last = PollStep::Continue;
    for p in ["10%", "55%", "100%"] {
        fetches += 1;
        last = poll.step(PollOutcome::Fetched(status("J1", p, "")));
        if last != PollStep::Continue {
            break;
        }
    }
    assert_eq!(fetches, 3);
    assert_eq!(last, PollStep::Complete(status("J1", "100%", "")));
}

#[test]
fn poll_gives_up_on_fifth_failure_in_a_row() {
    let mut poll = PollLoop::new(None);
    for i in 1..5 {
        let step = poll.step(PollOutcome::Failed(transport(&format!("down {}", i))));
        assert_eq!(step, PollStep::Continue);
    }
    let step = poll.step(PollOutcome::Failed(transport("down 5")));
    assert_eq!(step, PollStep::Exhausted(transport("down 5")));
}

#[test]
fn poll_success_resets_failure_count() {
    let mut poll = PollLoop::new(None);
    let events = vec![
        PollOutcome::Failed(transport("1")),
        PollOutcome::Failed(transport("2")),
        PollOutcome::Fetched(status("J1", "40%", "")),
        PollOutcome::Failed(transport("3")),
        PollOutcome::Failed(transport("4")),
        PollOutcome::Failed(transport("5")),
        PollOutcome::Failed(transport("6")),
    ];
    for ev in events {
        assert_eq!(poll.step(ev), PollStep::Continue);
    }
    assert_eq!(
        poll.step(PollOutcome::Failed(JobError::Decode("bad".to_string()))),
        PollStep::Exhausted(JobError::Decode("bad".to_string()))
    );
}

#[test]
fn poll_times_out_at_its_bound() {
    let mut poll = PollLoop::new(Some(2));
    assert_eq!(poll.step(PollOutcome::Fetched(status("J1", "10%", ""))), PollStep::Continue);
    assert_eq!(poll.step(PollOutcome::Failed(transport("x"))), PollStep::TimedOut);
}

#[test]
fn poll_completion_wins_over_bound() {
    let mut poll = PollLoop::new(Some(1));
    assert_eq!(
        poll.step(PollOutcome::Fetched(status("J1", "100%", "u"))),
        PollStep::Complete(status("J1", "100%", "u"))
    );
}

#[test]
fn tick_offsets_are_anchored() {
    assert_eq!(tick_offset_secs(0), 60);
    assert_eq!(tick_offset_secs(1), 120);
    assert_eq!(tick_offset_secs(9), 600);
    assert_eq!(tick_offset_secs(u64::MAX), u64::MAX);
    assert_eq!(tick_offset_secs((u64::MAX - 60) / 60), 60 + ((u64::MAX - 60) / 60) * 60);
}

#[test]
fn workflow_happy_path_returns_upscaled_image() {
    let mut wf = ImageWorkflow::new("a happy rabbit".to_string(), None);
    assert_eq!(
        wf.action(),
        Action::SubmitGenerate { prompt: "a happy rabbit".to_string() }
    );
    wf.on_event(Event::Submitted(submitted("J1")));
    assert_eq!(wf.action(), Action::FetchStatus { job_id: "J1".to_string(), tick: 0 });
    wf.on_event(Event::Polled(PollOutcome::Fetched(status("J1", "100%", ""))));
    let expected = ImageChangeParams {
        action: "UPSCALE".to_string(),
        index: 1,
        notify_hook: "".to_string(),
        state: "".to_string(),
        task_id: "J1".to_string(),
    };
    assert_eq!(wf.action(), Action::SubmitUpscale { params: expected });
    wf.on_event(Event::Submitted(submitted("J2")));
    assert_eq!(wf.action(), Action::FetchStatus { job_id: "J2".to_string(), tick: 1 });
    wf.on_event(Event::Polled(PollOutcome::Fetched(status("J2", "100%", "https://x/y.png"))));
    assert!(wf.is_finished());
    assert_eq!(wf.action(), Action::Finish { image_url: "https://x/y.png".to_string() });
}

#[test]
fn workflow_submit_failure_fails_without_fetching() {
    let mut wf = ImageWorkflow::new("p".to_string(), None);
    wf.on_event(Event::SubmitFailed(transport("connection refused")));
    let expected = WorkflowError::Submit {
        stage: Stage::Generate,
        cause: transport("connection refused"),
    };
    assert_eq!(wf.action(), Action::Fail { error: expected.clone() });
    wf.on_event(Event::Polled(PollOutcome::Fetched(status("J1", "100%", "u"))));
    wf.on_event(Event::Submitted(submitted("J9")));
    assert_eq!(wf.action(), Action::Fail { error: expected });
}

#[test]
fn workflow_upscale_submit_failure() {
    let mut wf = ImageWorkflow::new("p".to_string(), None);
    wf.on_event(Event::Submitted(submitted("J1")));
    wf.on_event(Event::Polled(PollOutcome::Fetched(status("J1", "100%", ""))));
    wf.on_event(Event::SubmitFailed(JobError::Decode("not json".to_string())));
    assert_eq!(
        wf.action(),
        Action::Fail {
            error: WorkflowError::Submit {
                stage: Stage::Upscale,
                cause: JobError::Decode("not json".to_string()),
            },
        }
    );
}

#[test]
fn workflow_poll_exhaustion_is_terminal() {
    let mut wf = ImageWorkflow::new("p".to_string(), None);
    wf.on_event(Event::Submitted(submitted("J1")));
    for i in 0..5u64 {
        assert_eq!(wf.action(), Action::FetchStatus { job_id: "J1".to_string(), tick: i });
        wf.on_event(Event::Polled(PollOutcome::Failed(transport("timeout"))));
    }
    assert_eq!(
        wf.action(),
        Action::Fail {
            error: WorkflowError::PollExhausted { stage: Stage::Generate, last: transport("timeout") },
        }
    );
}

#[test]
fn workflow_upscale_poll_timeout() {
    let mut wf = ImageWorkflow::new("p".to_string(), Some(2));
    wf.on_event(Event::Submitted(submitted("J1")));
    wf.on_event(Event::Polled(PollOutcome::Fetched(status("J1", "50%", ""))));
    wf.on_event(Event::Polled(PollOutcome::Fetched(status("J1", "100%", ""))));
    wf.on_event(Event::Submitted(submitted("J2")));
    wf.on_event(Event::Polled(PollOutcome::Fetched(status("J2", "10%", ""))));
    assert_eq!(wf.action(), Action::FetchStatus { job_id: "J2".to_string(), tick: 3 });
    wf.on_event(Event::Polled(PollOutcome::Fetched(status("J2", "20%", ""))));
    assert_eq!(
        wf.action(),
        Action::Fail { error: WorkflowError::PollTimeout { stage: Stage::Upscale } }
    );
}

#[test]
fn workflow_cancel_stops_at_current_stage() {
    let mut wf = ImageWorkflow::new("p".to_string(), None);
    wf.on_event(Event::Submitted(submitted("J1")));
    wf.on_event(Event::Polled(PollOutcome::Fetched(status("J1", "100%", ""))));
    wf.on_event(Event::Cancelled);
    assert_eq!(
        wf.action(),
        Action::Fail { error: WorkflowError::Cancelled { stage: Stage::Upscale } }
    );
}

#[test]
fn workflow_ignores_answers_to_other_actions() {
    let mut wf = ImageWorkflow::new("p".to_string(), None);
    wf.on_event(Event::Polled(PollOutcome::Fetched(status("J1", "100%", ""))));
    assert_eq!(wf.action(), Action::SubmitGenerate { prompt: "p".to_string() });
    wf.on_event(Event::Submitted(submitted("J1")));
    wf.on_event(Event::Submitted(submitted("J5")));
    assert_eq!(wf.action(), Action::FetchStatus { job_id: "J1".to_string(), tick: 0 });
}

#[test]
fn workflow_with_only_successful_calls_does_not_fail() {
    let mut wf = ImageWorkflow::new("p".to_string(), None);
    wf.on_event(Event::Submitted(submitted("J1")));
    for p in ["0%", "10%", "50%", "90%"] {
        wf.on_event(Event::Polled(PollOutcome::Fetched(status("J1", p, ""))));
        assert!(!matches!(wf.action(), Action::Fail { .. }));
    }
    wf.on_event(Event::Polled(PollOutcome::Fetched(status("J1", "100%", ""))));
    wf.on_event(Event::Submitted(submitted("J2")));
    wf.on_event(Event::Polled(PollOutcome::Fetched(status("J2", "100%", "https://x/z.png"))));
    assert_eq!(wf.action(), Action::Finish { image_url: "https://x/z.png".to_string() });
}

#[test]
fn proxy_endpoints() {
    let mj = Midjourney::new("http://proxy:8080/mj".to_string(), "SECRET-REDACTED".to_string());
    assert_eq!(mj.imagine_url(), "http://proxy:8080/mj/submit/imagine");
    assert_eq!(mj.change_url(), "http://proxy:8080/mj/submit/change");
    assert_eq!(mj.job_url("1691733511960857"), "http://proxy:8080/mj//task/1691733511960857/fetch");
    assert_eq!(mj.job_url("J1"), mj.job_url("J1"));
    assert_eq!(mj.secret_value(), "SECRET-REDACTED");
}

#[test]
fn upscale_request_selects_first_candidate() {
    let p = ImageChangeParams::new("1691741750445654".to_string());
    assert_eq!(p.action, "UPSCALE");
    assert_eq!(p.index, 1);
    assert_eq!(p.notify_hook, "");
    assert_eq!(p.state, "");
    assert_eq!(p.task_id, "1691741750445654");
}
