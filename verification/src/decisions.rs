//! Recovery decisions offered to the human when a step of a video request
//! fails, and the policy for building the decision menu.

use vstd::prelude::*;

verus! {

/// What the human may decide after a failure: redo the last command, start
/// the whole request over, go on anyway, or give the request up.
#[derive(Clone, Copy, Debug, PartialEq, Eq, Structural)]
pub enum WhatToDo {
    Retry,
    RestartRequest,
    Continue,
    AbortRequest,
}

/// Position of a decision in the fixed menu order (declaration order).
pub open spec fn decision_rank(d: WhatToDo) -> int {
    match d {
        WhatToDo::Retry => 0,
        WhatToDo::RestartRequest => 1,
        WhatToDo::Continue => 2,
        WhatToDo::AbortRequest => 3,
    }
}

/// All four decisions, in declaration order.
pub open spec fn all_decisions() -> Seq<WhatToDo> {
    seq![
        WhatToDo::Retry,
        WhatToDo::RestartRequest,
        WhatToDo::Continue,
        WhatToDo::AbortRequest,
    ]
}

/// The menu shown for a given allowed set: the four decisions in declaration
/// order, each present exactly when `allowed` holds it. The order in which
/// the caller listed the allowed decisions is irrelevant.
pub open spec fn spec_menu(allowed: Seq<WhatToDo>) -> Seq<WhatToDo> {
    (if allowed.contains(WhatToDo::Retry) {
        seq![WhatToDo::Retry]
    } else {
        Seq::<WhatToDo>::empty()
    }) + (if allowed.contains(WhatToDo::RestartRequest) {
        seq![WhatToDo::RestartRequest]
    } else {
        Seq::<WhatToDo>::empty()
    }) + (if allowed.contains(WhatToDo::Continue) {
        seq![WhatToDo::Continue]
    } else {
        Seq::<WhatToDo>::empty()
    }) + (if allowed.contains(WhatToDo::AbortRequest) {
        seq![WhatToDo::AbortRequest]
    } else {
        Seq::<WhatToDo>::empty()
    })
}

/// Asking for a decision with nothing allowed is a programming error, never
/// a silent default.
#[derive(Clone, Copy, Debug, PartialEq, Eq, Structural)]
pub enum PromptError {
    NoAllowedDecisions,
}

/// The three decisions left when one is disallowed, in declaration order.
pub open spec fn spec_all_except(except: WhatToDo) -> Seq<WhatToDo> {
    match except {
        WhatToDo::Retry => seq![WhatToDo::RestartRequest, WhatToDo::Continue, WhatToDo::AbortRequest],
        WhatToDo::RestartRequest => seq![WhatToDo::Retry, WhatToDo::Continue, WhatToDo::AbortRequest],
        WhatToDo::Continue => seq![WhatToDo::Retry, WhatToDo::RestartRequest, WhatToDo::AbortRequest],
        WhatToDo::AbortRequest => seq![WhatToDo::Retry, WhatToDo::RestartRequest, WhatToDo::Continue],
    }
}

/// The label under which a decision appears in the menu.
pub open spec fn spec_label(d: WhatToDo) -> Seq<char> {
    match d {
        WhatToDo::Retry => "Retry"@,
        WhatToDo::RestartRequest => "Restart video request"@,
        WhatToDo::Continue => "Continue..."@,
        WhatToDo::AbortRequest => "Abort the video request"@,
    }
}

impl WhatToDo {
    /// Every decision, in menu order.
    pub fn all() -> (r: Vec<WhatToDo>)
        ensures
            r@ == all_decisions(),
    {
        let mut v: Vec<WhatToDo> = Vec::new();
        v.push(WhatToDo::Retry);
        v.push(WhatToDo::RestartRequest);
        v.push(WhatToDo::Continue);
        v.push(WhatToDo::AbortRequest);
        proof {
            assert(v@ =~= all_decisions());
        }
        v
    }

    /// Every decision but one, in menu order.
    pub fn all_except(except: WhatToDo) -> (r: Vec<WhatToDo>)
        ensures
            r@ == spec_all_except(except),
    {
        let mut v: Vec<WhatToDo> = Vec::new();
        if !matches!(except, WhatToDo::Retry) {
            v.push(WhatToDo::Retry);
        }
        if !matches!(except, WhatToDo::RestartRequest) {
            v.push(WhatToDo::RestartRequest);
        }
        if !matches!(except, WhatToDo::Continue) {
            v.push(WhatToDo::Continue);
        }
        if !matches!(except, WhatToDo::AbortRequest) {
            v.push(WhatToDo::AbortRequest);
        }
        proof {
            assert(v@ =~= spec_all_except(except));
        }
        v
    }

    /// The menu label of this decision.
    pub fn label(&self) -> (r: &'static str)
        ensures
            r@ == spec_label(*self),
    {
        match self {
            WhatToDo::Retry => "Retry",
            WhatToDo::RestartRequest => "Restart video request",
            WhatToDo::Continue => "Continue...",
            WhatToDo::AbortRequest => "Abort the video request",
        }
    }
}

/// Whether `v` holds the decision `d`.
pub fn contains_decision(v: &Vec<WhatToDo>, d: WhatToDo) -> (r: bool)
    ensures
        r == v@.contains(d),
{
    let mut i: usize = 0;
    while i < v.len()
        invariant
            i <= v.len(),
            forall|j: int| 0 <= j < i ==> v@[j] != d,
        decreases v.len() - i,
    {
        if v[i] == d {
            assert(v@[i as int] == d);
            return true;
        }
        i += 1;
    }
    false
}

/// Build the decision menu for an allowed set: the allowed decisions in
/// declaration order, duplicates collapsed, whatever order the caller
/// passed. An empty allowed set is refused as a programming error.
pub fn menu_of(allowed: &Vec<WhatToDo>) -> (r: Result<Vec<WhatToDo>, PromptError>)
    ensures
        r is Err <==> allowed@.len() == 0,
        r is Err ==> r->Err_0 == PromptError::NoAllowedDecisions,
        r is Ok ==> r->Ok_0@ == spec_menu(allowed@),
{
    if allowed.len() == 0 {
        return Err(PromptError::NoAllowedDecisions);
    }
    let mut menu: Vec<WhatToDo> = Vec::new();
    if contains_decision(allowed, WhatToDo::Retry) {
        menu.push(WhatToDo::Retry);
    }
    if contains_decision(allowed, WhatToDo::RestartRequest) {
        menu.push(WhatToDo::RestartRequest);
    }
    if contains_decision(allowed, WhatToDo::Continue) {
        menu.push(WhatToDo::Continue);
    }
    if contains_decision(allowed, WhatToDo::AbortRequest) {
        menu.push(WhatToDo::AbortRequest);
    }
    proof {
        assert(menu@ =~= spec_menu(allowed@));
    }
    Ok(menu)
}

/// The menu depends only on which decisions are allowed, never on the order
/// or multiplicity in which the caller listed them.
pub proof fn lemma_menu_order_insensitive(a: Seq<WhatToDo>, b: Seq<WhatToDo>)
    requires
        forall|d: WhatToDo| a.contains(d) <==> b.contains(d),
    ensures
        spec_menu(a) == spec_menu(b),
{
    assert(a.contains(WhatToDo::Retry) <==> b.contains(WhatToDo::Retry));
    assert(a.contains(WhatToDo::RestartRequest) <==> b.contains(WhatToDo::RestartRequest));
    assert(a.contains(WhatToDo::Continue) <==> b.contains(WhatToDo::Continue));
    assert(a.contains(WhatToDo::AbortRequest) <==> b.contains(WhatToDo::AbortRequest));
}

} // verus!
