use ytmusicd::decisions::WhatToDo;
use ytmusicd::fingerprint::{
    auto_select_recording, auto_select_top, chosen_files, classify_poll_status,
    fingerprint_failed_decision, fingerprint_failure_menu, has_recordings,
    lookup_failed_decision, lookup_query, partition_by_recordings, poll_action, poll_human_flow,
    status_is_imported, status_is_ok, submission_flow, submit_query, tag_failed_decision,
    ComputeFlow, LookupFlow, LookupResultsEntry, PollAction, PollObservation, PollResolution,
    RecordingEntry, SelectionNav, SubmitFlow, TagFlow, TreeState,
};
use ytmusicd::iters::{backoff_wait_times, RepeatLast};

fn entry(id: &str, score_millis: u32, recordings: usize) -> LookupResultsEntry {
    LookupResultsEntry {
        id: String::from(id),
        score_millis,
        recordings: if recordings == 0 {
            None
        } else {
            Some((0..recordings).map(|i| RecordingEntry { id: format!("rec{}", i) }).collect())
        },
    }
}

#[test]
fn lookup_status_word() {
    assert!(status_is_ok("ok"));
    assert!(!status_is_ok("error"));
    assert!(!status_is_ok(""));
}

#[test]
fn partition_keeps_order_and_reports_ignored() {
    let results = vec![entry("a", 900, 2), entry("b", 800, 0), entry("c", 700, 1)];
    let (with, without) = partition_by_recordings(results);
    assert_eq!(with.len(), 2);
    assert_eq!(with[0].id, "a");
    assert_eq!(with[1].id, "c");
    // the matches without recordings are the reported ignored count
    assert_eq!(without.len(), 1);
    assert_eq!(without[0].id, "b");
}

#[test]
fn empty_recordings_list_counts_as_none() {
    let e = LookupResultsEntry {
        id: String::from("x"),
        score_millis: 999,
        recordings: Some(vec![]),
    };
    assert!(!has_recordings(&e));
}

#[test]
fn single_high_confidence_first_pass_autoselects() {
    // a single result scored 0.97 with exactly one recording, on the very
    // first pass: both levels auto-apply
    let results = vec![entry("a", 970, 1)];
    assert!(auto_select_top(true, &results));
    assert!(auto_select_recording(true, 1));

    let mut nav = SelectionNav::new();
    nav = nav.pick_top(Some(0));
    assert_eq!(nav.state, TreeState::AtEntry(0));
    nav = nav.pick_recording(Some(0));
    nav = nav.confirm(true);
    assert_eq!(nav.state, TreeState::Accepted(0, 0));
}

#[test]
fn autoselect_needs_first_pass_and_confidence() {
    let one_good = vec![entry("a", 970, 1)];
    assert!(!auto_select_top(false, &one_good));
    let low = vec![entry("a", 950, 1)];
    assert!(!auto_select_top(true, &low));
    let two = vec![entry("a", 970, 1), entry("b", 990, 1)];
    assert!(!auto_select_top(true, &two));
    assert!(!auto_select_recording(true, 2));
    assert!(!auto_select_recording(false, 1));
}

#[test]
fn going_back_clears_first_pass_for_good() {
    let mut nav = SelectionNav::new();
    assert!(nav.first_pass);
    nav = nav.pick_top(Some(1));
    nav = nav.pick_recording(None);
    assert_eq!(nav.state, TreeState::AtTop);
    assert!(!nav.first_pass);
}

#[test]
fn declined_confirmation_returns_to_recordings() {
    let mut nav = SelectionNav::new();
    nav = nav.pick_top(Some(2));
    nav = nav.pick_recording(Some(1));
    assert_eq!(nav.state, TreeState::Confirming(2, 1));
    nav = nav.confirm(false);
    assert_eq!(nav.state, TreeState::AtEntry(2));
    assert!(!nav.first_pass);
}

#[test]
fn none_at_top_level_ends_without_selection() {
    let nav = SelectionNav::new().pick_top(None);
    assert_eq!(nav.state, TreeState::NoSelection);
}

#[test]
fn failed_compute_offers_no_continue() {
    assert_eq!(
        fingerprint_failure_menu(),
        vec![WhatToDo::Retry, WhatToDo::RestartRequest, WhatToDo::AbortRequest]
    );
    assert_eq!(fingerprint_failed_decision(WhatToDo::Retry), ComputeFlow::RetryCompute);
    assert_eq!(
        fingerprint_failed_decision(WhatToDo::RestartRequest),
        ComputeFlow::Propagate(WhatToDo::RestartRequest)
    );
    assert_eq!(
        fingerprint_failed_decision(WhatToDo::AbortRequest),
        ComputeFlow::Propagate(WhatToDo::AbortRequest)
    );
}

#[test]
fn failed_lookup_decisions() {
    assert_eq!(lookup_failed_decision(WhatToDo::Retry), LookupFlow::RetryLookup);
    assert_eq!(lookup_failed_decision(WhatToDo::Continue), LookupFlow::ProceedNoMatch);
    assert_eq!(
        lookup_failed_decision(WhatToDo::RestartRequest),
        LookupFlow::Propagate(WhatToDo::RestartRequest)
    );
    assert_eq!(
        lookup_failed_decision(WhatToDo::AbortRequest),
        LookupFlow::Propagate(WhatToDo::AbortRequest)
    );
}

#[test]
fn submission_outcomes() {
    assert_eq!(submission_flow(None), SubmitFlow::AcceptRecording { persist_key: true });
    assert_eq!(submission_flow(Some(WhatToDo::Retry)), SubmitFlow::Resubmit);
    assert_eq!(
        submission_flow(Some(WhatToDo::Continue)),
        SubmitFlow::AcceptRecording { persist_key: false }
    );
    assert_eq!(
        submission_flow(Some(WhatToDo::RestartRequest)),
        SubmitFlow::Propagate(WhatToDo::RestartRequest)
    );
    assert_eq!(
        submission_flow(Some(WhatToDo::AbortRequest)),
        SubmitFlow::Propagate(WhatToDo::AbortRequest)
    );
}

#[test]
fn failed_tag_decisions() {
    assert_eq!(tag_failed_decision(WhatToDo::Retry), TagFlow::RetryTag);
    assert_eq!(tag_failed_decision(WhatToDo::Continue), TagFlow::ProceedUntagged);
    assert_eq!(
        tag_failed_decision(WhatToDo::RestartRequest),
        TagFlow::Propagate(WhatToDo::RestartRequest)
    );
    assert_eq!(
        tag_failed_decision(WhatToDo::AbortRequest),
        TagFlow::Propagate(WhatToDo::AbortRequest)
    );
}

#[test]
fn poll_status_classification() {
    assert_eq!(
        classify_poll_status("error", Some("imported")),
        PollObservation::RequestFailed
    );
    assert_eq!(classify_poll_status("ok", Some("imported")), PollObservation::Imported);
    assert_eq!(classify_poll_status("ok", Some("pending")), PollObservation::NotImported);
    assert_eq!(classify_poll_status("ok", None), PollObservation::NotImported);
    assert!(status_is_imported("imported"));
    assert!(!status_is_imported("Imported"));
}

#[test]
fn poll_retries_then_asks() {
    assert_eq!(poll_action(0, PollObservation::Imported), PollAction::Done);
    assert_eq!(poll_action(3, PollObservation::RequestFailed), PollAction::RetrySilently);
    assert_eq!(poll_action(4, PollObservation::RequestFailed), PollAction::AskHuman);
    assert_eq!(poll_action(4, PollObservation::NotImported), PollAction::RetrySilently);
    assert_eq!(poll_action(5, PollObservation::NotImported), PollAction::AskHuman);
}

#[test]
fn poll_human_resolution() {
    assert_eq!(poll_human_flow(WhatToDo::Retry), PollResolution::KeepPolling);
    assert_eq!(
        poll_human_flow(WhatToDo::Continue),
        PollResolution::Surface(WhatToDo::Continue)
    );
    assert_eq!(
        poll_human_flow(WhatToDo::AbortRequest),
        PollResolution::Surface(WhatToDo::AbortRequest)
    );
}

#[test]
fn backoff_delays_repeat_the_last() {
    let mut waits = RepeatLast::new(backoff_wait_times());
    let mut seen = Vec::new();
    for _ in 0..8 {
        seen.push(waits.next().unwrap());
    }
    assert_eq!(seen, vec![1, 2, 3, 5, 8, 8, 8, 8]);
}

#[test]
fn repeat_last_over_nothing_yields_nothing() {
    let mut empty = RepeatLast::new(Vec::new());
    assert_eq!(empty.next(), None);
    assert_eq!(empty.next(), None);
}

#[test]
fn none_selection_overrides_everything() {
    assert_eq!(chosen_files(&vec![0, 2, 3]), Vec::<usize>::new());
    assert_eq!(chosen_files(&vec![3, 0]), Vec::<usize>::new());
}

#[test]
fn selections_map_to_file_positions() {
    assert_eq!(chosen_files(&vec![1, 3, 4]), vec![0, 2, 3]);
    assert_eq!(chosen_files(&vec![]), Vec::<usize>::new());
}

#[test]
fn lookup_query_pairs() {
    let q = lookup_query("clientkey", "FINGERPRINT", 215);
    let expect = [
        ("client", "clientkey"),
        ("format", "json"),
        ("fingerprint", "FINGERPRINT"),
        ("meta", "recordings"),
        ("duration", "215"),
    ];
    assert_eq!(q.len(), expect.len());
    for (got, want) in q.iter().zip(expect.iter()) {
        assert_eq!(got.0, want.0);
        assert_eq!(got.1, want.1);
    }
}

#[test]
fn submit_query_pairs() {
    let q = submit_query("ck", "0.1.0", "uk", 90, "FP", "mbid-1", "Song", Some("Artist "));
    assert_eq!(q.len(), 9);
    assert_eq!(q[0], (String::from("format"), String::from("json")));
    assert_eq!(q[4], (String::from("duration.0"), String::from("90")));
    assert_eq!(q[8], (String::from("artist.0"), String::from("Artist ")));
    let q2 = submit_query("ck", "0.1.0", "uk", 90, "FP", "mbid-1", "Song", None);
    assert_eq!(q2.len(), 8);
    assert_eq!(q2[7], (String::from("track.0"), String::from("Song")));
}
