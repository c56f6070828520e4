use ytmusicd::decisions::{contains_decision, menu_of, PromptError, WhatToDo};

#[test]
fn empty_allowed_set_is_a_fault() {
    assert_eq!(menu_of(&vec![]), Err(PromptError::NoAllowedDecisions));
}

#[test]
fn menu_keeps_declaration_order() {
    let shuffled = vec![WhatToDo::AbortRequest, WhatToDo::Retry, WhatToDo::Continue];
    assert_eq!(
        menu_of(&shuffled).unwrap(),
        vec![WhatToDo::Retry, WhatToDo::Continue, WhatToDo::AbortRequest]
    );
}

#[test]
fn menu_collapses_duplicates() {
    let noisy = vec![WhatToDo::Retry, WhatToDo::Retry, WhatToDo::AbortRequest, WhatToDo::Retry];
    assert_eq!(menu_of(&noisy).unwrap(), vec![WhatToDo::Retry, WhatToDo::AbortRequest]);
}

#[test]
fn all_decisions_in_order() {
    assert_eq!(
        WhatToDo::all(),
        vec![
            WhatToDo::Retry,
            WhatToDo::RestartRequest,
            WhatToDo::Continue,
            WhatToDo::AbortRequest
        ]
    );
}

#[test]
fn all_except_drops_exactly_one() {
    assert_eq!(
        WhatToDo::all_except(WhatToDo::Continue),
        vec![WhatToDo::Retry, WhatToDo::RestartRequest, WhatToDo::AbortRequest]
    );
    assert_eq!(
        WhatToDo::all_except(WhatToDo::Retry),
        vec![WhatToDo::RestartRequest, WhatToDo::Continue, WhatToDo::AbortRequest]
    );
}

#[test]
fn decision_labels() {
    assert_eq!(WhatToDo::Retry.label(), "Retry");
    assert_eq!(WhatToDo::RestartRequest.label(), "Restart video request");
    assert_eq!(WhatToDo::Continue.label(), "Continue...");
    assert_eq!(WhatToDo::AbortRequest.label(), "Abort the video request");
}

#[test]
fn contains_decision_checks_membership() {
    let v = vec![WhatToDo::Retry, WhatToDo::AbortRequest];
    assert!(contains_decision(&v, WhatToDo::Retry));
    assert!(!contains_decision(&v, WhatToDo::Continue));
}
