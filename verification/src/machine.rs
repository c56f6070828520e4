//! The request state machine: drives one video request through download,
//! fingerprinting, library import and finalization, with three nested retry
//! scopes (redo the last step, restart the whole request from a fresh work
//! directory, abort the request).

use vstd::prelude::*;
use crate::decisions::WhatToDo;

verus! {

/// The step a request is currently at.
#[derive(Clone, Copy, Debug, PartialEq, Eq, Structural)]
pub enum Phase {
    Downloading,
    Fingerprinting,
    Importing,
    Finalizing,
}

/// What the driver reports back after attempting the current step:
/// the step completed; the step failed and the human chose a recovery
/// decision; or an interrupt checkpoint fired and the human chose what to
/// do (never `Retry`: an interrupt is not a failed command).
#[derive(Clone, Copy, Debug, PartialEq, Eq, Structural)]
pub enum StepEvent {
    Completed,
    Failed(WhatToDo),
    Interrupted(WhatToDo),
}

/// The keep-temp-directory policy handed in by the caller's configuration.
#[derive(Clone, Copy, Debug, PartialEq, Eq, Structural)]
pub enum PromptFlag {
    Always,
    Ask,
    Never,
}

/// Progress of one video request. `work_dirs_created` counts the isolated
/// work directories made for it: one at the start, one more per restart —
/// a retry of the last step never makes a new one. `outcome` is `None`
/// while the request is in flight, `Some(true)` when it ran to completion,
/// `Some(false)` when it was aborted.
#[derive(Clone, Copy, Debug, PartialEq, Eq, Structural)]
pub struct RequestMachine {
    pub phase: Phase,
    pub work_dirs_created: u64,
    pub outcome: Option<bool>,
}

/// The step after a completed one.
pub open spec fn next_phase(p: Phase) -> Phase {
    match p {
        Phase::Downloading => Phase::Fingerprinting,
        Phase::Fingerprinting => Phase::Importing,
        Phase::Importing => Phase::Finalizing,
        Phase::Finalizing => Phase::Finalizing,
    }
}

impl RequestMachine {
    /// Still in flight.
    pub open spec fn running(self) -> bool {
        self.outcome is None
    }

    /// The machine after the current step succeeded (or was skipped by
    /// `Continue`): move to the next step, or finish if it was the last.
    pub open spec fn advanced(self) -> RequestMachine {
        if self.phase is Finalizing {
            RequestMachine { outcome: Some(true), ..self }
        } else {
            RequestMachine { phase: next_phase(self.phase), ..self }
        }
    }

    /// The machine after a restart decision: back to the download step with
    /// a brand-new work directory.
    pub open spec fn restarted(self) -> RequestMachine {
        RequestMachine {
            phase: Phase::Downloading,
            work_dirs_created: (self.work_dirs_created + 1) as u64,
            outcome: None,
        }
    }

    /// The machine after an abort decision: terminal, did not run to
    /// completion.
    pub open spec fn aborted(self) -> RequestMachine {
        RequestMachine { outcome: Some(false), ..self }
    }

    /// The full transition table.
    pub open spec fn spec_step(self, ev: StepEvent) -> RequestMachine {
        match ev {
            StepEvent::Completed => self.advanced(),
            StepEvent::Failed(w) => match w {
                WhatToDo::Retry => self,
                WhatToDo::RestartRequest => self.restarted(),
                WhatToDo::Continue => self.advanced(),
                WhatToDo::AbortRequest => self.aborted(),
            },
            StepEvent::Interrupted(w) => match w {
                WhatToDo::Retry => self,
                WhatToDo::RestartRequest => self.restarted(),
                WhatToDo::Continue => self,
                WhatToDo::AbortRequest => self.aborted(),
            },
        }
    }

    /// A fresh machine for one request: at the download step, with its
    /// first work directory.
    pub fn new() -> (m: RequestMachine)
        ensures
            m == (RequestMachine {
                phase: Phase::Downloading,
                work_dirs_created: 1u64,
                outcome: None::<bool>,
            }),
    {
        RequestMachine { phase: Phase::Downloading, work_dirs_created: 1, outcome: None }
    }

    /// Take one transition. A retry redoes the current step without a new
    /// work directory; a restart goes back to downloading with one more
    /// work directory; an abort ends the request unsuccessfully wherever it
    /// stands; completing the finalization step ends it successfully.
    pub fn step(self, ev: StepEvent) -> (m: RequestMachine)
        requires
            self.running(),
            self.work_dirs_created < u64::MAX,
            ev matches StepEvent::Interrupted(w) ==> w != WhatToDo::Retry,
        ensures
            m == self.spec_step(ev),
            ev == StepEvent::Failed(WhatToDo::AbortRequest)
                || ev == StepEvent::Interrupted(WhatToDo::AbortRequest) ==> m.outcome == Some(false),
            ev == StepEvent::Failed(WhatToDo::Retry) ==> m == self,
            ev == StepEvent::Failed(WhatToDo::RestartRequest)
                || ev == StepEvent::Interrupted(WhatToDo::RestartRequest) ==> m.phase is Downloading
                && m.work_dirs_created == self.work_dirs_created + 1 && m.running(),
    {
        match ev {
            StepEvent::Completed => self.advance(),
            StepEvent::Failed(w) => match w {
                WhatToDo::Retry => self,
                WhatToDo::RestartRequest => self.restart(),
                WhatToDo::Continue => self.advance(),
                WhatToDo::AbortRequest => self.abort(),
            },
            StepEvent::Interrupted(w) => match w {
                WhatToDo::Retry => self,
                WhatToDo::RestartRequest => self.restart(),
                WhatToDo::Continue => self,
                WhatToDo::AbortRequest => self.abort(),
            },
        }
    }

    fn advance(self) -> (m: RequestMachine)
        ensures
            m == self.advanced(),
    {
        if matches!(self.phase, Phase::Finalizing) {
            RequestMachine { outcome: Some(true), ..self }
        } else {
            let next = match self.phase {
                Phase::Downloading => Phase::Fingerprinting,
                Phase::Fingerprinting => Phase::Importing,
                Phase::Importing => Phase::Finalizing,
                Phase::Finalizing => Phase::Finalizing,
            };
            RequestMachine { phase: next, ..self }
        }
    }

    fn restart(self) -> (m: RequestMachine)
        requires
            self.work_dirs_created < u64::MAX,
        ensures
            m == self.restarted(),
    {
        RequestMachine {
            phase: Phase::Downloading,
            work_dirs_created: self.work_dirs_created + 1,
            outcome: None,
        }
    }

    fn abort(self) -> (m: RequestMachine)
        ensures
            m == self.aborted(),
    {
        RequestMachine { outcome: Some(false), ..self }
    }
}

/// An abort decision is terminal at every step: whatever phase the request
/// is at, the machine ends with "did not run to completion" and the worker
/// is free to take the next request.
pub proof fn lemma_abort_is_terminal(m: RequestMachine, ev: StepEvent)
    requires
        m.running(),
        ev == StepEvent::Failed(WhatToDo::AbortRequest)
            || ev == StepEvent::Interrupted(WhatToDo::AbortRequest),
    ensures
        m.spec_step(ev).outcome == Some(false),
        m.spec_step(ev).work_dirs_created == m.work_dirs_created,
{
}

/// A retry of the last step never creates a work directory and never moves
/// the request to another step.
pub proof fn lemma_retry_keeps_work_dir(m: RequestMachine)
    requires
        m.running(),
    ensures
        m.spec_step(StepEvent::Failed(WhatToDo::Retry)) == m,
{
}

/// `Always` and `Never` decide the keep-temp-directory question without
/// prompting; only `Ask` defers to the human.
pub fn keep_decision(flag: PromptFlag) -> (r: Option<bool>)
    ensures
        flag is Always ==> r == Some(true),
        flag is Never ==> r == Some(false),
        flag is Ask ==> r is None,
{
    match flag {
        PromptFlag::Always => Some(true),
        PromptFlag::Never => Some(false),
        PromptFlag::Ask => None,
    }
}

} // verus!
