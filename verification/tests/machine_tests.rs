use ytmusicd::decisions::WhatToDo;
use ytmusicd::machine::{keep_decision, Phase, PromptFlag, RequestMachine, StepEvent};

#[test]
fn clean_run_completes() {
    // download ok, nothing selected for fingerprinting, import ok,
    // keep-policy never: the request runs to completion in one work dir
    let mut m = RequestMachine::new();
    assert_eq!(m.phase, Phase::Downloading);
    m = m.step(StepEvent::Completed);
    assert_eq!(m.phase, Phase::Fingerprinting);
    m = m.step(StepEvent::Completed);
    assert_eq!(m.phase, Phase::Importing);
    m = m.step(StepEvent::Completed);
    assert_eq!(m.phase, Phase::Finalizing);
    assert_eq!(keep_decision(PromptFlag::Never), Some(false));
    m = m.step(StepEvent::Completed);
    assert_eq!(m.outcome, Some(true));
    assert_eq!(m.work_dirs_created, 1);
}

#[test]
fn retry_reuses_the_work_directory() {
    // download fails once, the human retries, the second attempt passes:
    // no new work directory and no earlier step is re-run
    let mut m = RequestMachine::new();
    m = m.step(StepEvent::Failed(WhatToDo::Retry));
    assert_eq!(m.phase, Phase::Downloading);
    assert_eq!(m.work_dirs_created, 1);
    m = m.step(StepEvent::Completed);
    m = m.step(StepEvent::Completed);
    m = m.step(StepEvent::Completed);
    m = m.step(StepEvent::Completed);
    assert_eq!(m.outcome, Some(true));
    assert_eq!(m.work_dirs_created, 1);
}

#[test]
fn restart_during_import_starts_over_fresh() {
    // a restart while importing goes back to downloading with a brand-new
    // work directory for the same request
    let mut m = RequestMachine::new();
    m = m.step(StepEvent::Completed);
    m = m.step(StepEvent::Completed);
    assert_eq!(m.phase, Phase::Importing);
    m = m.step(StepEvent::Failed(WhatToDo::RestartRequest));
    assert_eq!(m.phase, Phase::Downloading);
    assert_eq!(m.work_dirs_created, 2);
    assert_eq!(m.outcome, None);
}

#[test]
fn abort_ends_the_request_at_any_point() {
    for steps_before_abort in 0..4 {
        let mut m = RequestMachine::new();
        for _ in 0..steps_before_abort {
            m = m.step(StepEvent::Completed);
        }
        m = m.step(StepEvent::Failed(WhatToDo::AbortRequest));
        assert_eq!(m.outcome, Some(false));
    }
}

#[test]
fn interrupt_decisions_at_checkpoints() {
    let mut m = RequestMachine::new();
    m = m.step(StepEvent::Completed);
    let paused = m;
    // continue: nothing changes
    m = m.step(StepEvent::Interrupted(WhatToDo::Continue));
    assert_eq!(m, paused);
    // restart: fresh work dir, back to downloading
    m = m.step(StepEvent::Interrupted(WhatToDo::RestartRequest));
    assert_eq!(m.phase, Phase::Downloading);
    assert_eq!(m.work_dirs_created, 2);
    // abort: terminal
    m = m.step(StepEvent::Interrupted(WhatToDo::AbortRequest));
    assert_eq!(m.outcome, Some(false));
}

#[test]
fn continue_skips_the_failing_step() {
    let mut m = RequestMachine::new();
    m = m.step(StepEvent::Failed(WhatToDo::Continue));
    assert_eq!(m.phase, Phase::Fingerprinting);
    assert_eq!(m.outcome, None);
}

#[test]
fn keep_policy_resolution() {
    assert_eq!(keep_decision(PromptFlag::Always), Some(true));
    assert_eq!(keep_decision(PromptFlag::Never), Some(false));
    assert_eq!(keep_decision(PromptFlag::Ask), None);
}
