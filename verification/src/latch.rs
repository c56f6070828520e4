//! The interrupt signal latch: a process-wide flag set by the interrupt
//! listener and consumed at defined checkpoints, turning one key press into
//! one resumption decision. A second interrupt while one is still pending
//! force-kills the whole process.

use vstd::prelude::*;
use crate::decisions::{spec_all_except, WhatToDo};

verus! {

/// The reserved exit code of the forced double-interrupt kill.
pub const FORCE_KILL_EXIT_CODE: i32 = 72;

/// What the signal listener must do with an interrupt it received.
#[derive(Clone, Copy, Debug, PartialEq, Eq, Structural)]
pub enum SignalOutcome {
    /// The latch was clear: it is now set, to be consumed at the next
    /// checkpoint.
    Noted,
    /// The latch was already set: an interrupt is pending unhandled, so the
    /// process must terminate immediately with `FORCE_KILL_EXIT_CODE`.
    ForceKill,
}

/// The latch after an interrupt, and what the listener must do.
pub open spec fn spec_signal(pending: bool) -> (bool, SignalOutcome) {
    (true, if pending {
        SignalOutcome::ForceKill
    } else {
        SignalOutcome::Noted
    })
}

/// The latch after a checkpoint test, and whether a decision is owed.
pub open spec fn spec_check(pending: bool) -> (bool, bool) {
    (false, pending)
}

/// The latch itself: initially clear.
pub struct InterruptLatch {
    pending: bool,
}

impl InterruptLatch {
    /// Whether an interrupt is pending and unhandled.
    pub closed spec fn is_pending(&self) -> bool {
        self.pending
    }

    /// A clear latch.
    pub fn new() -> (l: InterruptLatch)
        ensures
            !l.is_pending(),
    {
        InterruptLatch { pending: false }
    }

    /// Record one received interrupt: atomically swap the latch to set. If
    /// it was already set, the caller must kill the process.
    pub fn signal(&mut self) -> (r: SignalOutcome)
        ensures
            (final(self).is_pending(), r) == spec_signal(old(self).is_pending()),
    {
        let was_pending = self.pending;
        self.pending = true;
        if was_pending {
            SignalOutcome::ForceKill
        } else {
            SignalOutcome::Noted
        }
    }

    /// Checkpoint test: atomically test and clear the latch, returning
    /// whether an interrupt was pending (in which case the caller owes the
    /// human exactly one decision). Clear latches return instantly with
    /// nothing to do.
    pub fn check(&mut self) -> (r: bool)
        ensures
            (final(self).is_pending(), r) == spec_check(old(self).is_pending()),
    {
        let was_pending = self.pending;
        self.pending = false;
        was_pending
    }
}

/// The decisions offered after an interrupt: everything but `Retry` — an
/// interrupt is never "retry the same command".
pub fn interrupt_menu() -> (r: Vec<WhatToDo>)
    ensures
        r@ == spec_all_except(WhatToDo::Retry),
        forall|i: int| 0 <= i < r@.len() ==> r@[i] != WhatToDo::Retry,
{
    let r = WhatToDo::all_except(WhatToDo::Retry);
    proof {
        assert forall|i: int| 0 <= i < r@.len() implies r@[i] != WhatToDo::Retry by {
            assert(r@ == spec_all_except(WhatToDo::Retry));
        }
    }
    r
}

/// What an interrupt checkpoint does with the decision it obtained, if
/// any.
#[derive(Clone, Copy, Debug, PartialEq, Eq, Structural)]
pub enum CheckpointFlow {
    /// Go on with the work the checkpoint stands in.
    Resume,
    /// Short-circuit the surrounding work with this decision.
    ShortCircuit(WhatToDo),
}

/// The checkpoint semantics: with no pending interrupt, and on a continue
/// decision, the work resumes where it stands; a restart or abort decision
/// short-circuits it. A retry is never offered for an interrupt.
pub fn checkpoint_flow(decision: Option<WhatToDo>) -> (r: CheckpointFlow)
    requires
        decision != Some(WhatToDo::Retry),
    ensures
        decision is None ==> r == CheckpointFlow::Resume,
        decision == Some(WhatToDo::Continue) ==> r == CheckpointFlow::Resume,
        decision == Some(WhatToDo::RestartRequest) ==> r == CheckpointFlow::ShortCircuit(
            WhatToDo::RestartRequest,
        ),
        decision == Some(WhatToDo::AbortRequest) ==> r == CheckpointFlow::ShortCircuit(
            WhatToDo::AbortRequest,
        ),
{
    match decision {
        None => CheckpointFlow::Resume,
        Some(WhatToDo::Continue) => CheckpointFlow::Resume,
        Some(WhatToDo::Retry) => CheckpointFlow::Resume,
        Some(WhatToDo::RestartRequest) => CheckpointFlow::ShortCircuit(WhatToDo::RestartRequest),
        Some(WhatToDo::AbortRequest) => CheckpointFlow::ShortCircuit(WhatToDo::AbortRequest),
    }
}

/// One interrupt yields exactly one decision: a single interrupt sets the
/// latch once; the first checkpoint after it owes a decision and clears the
/// latch; a second checkpoint owes nothing. Two interrupts with no
/// checkpoint between them terminate the process instead.
pub proof fn lemma_interrupt_once()
    ensures
        ({
            let (set_once, first) = spec_signal(false);
            let (after_first_check, owes1) = spec_check(set_once);
            let (_, owes2) = spec_check(after_first_check);
            &&& first == SignalOutcome::Noted
            &&& owes1 == true
            &&& owes2 == false
        }),
        ({
            let (set_once, _) = spec_signal(false);
            let (_, second) = spec_signal(set_once);
            second == SignalOutcome::ForceKill
        }),
{
}

} // verus!
