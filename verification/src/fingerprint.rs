//! The fingerprint match & submit sub-flow: the lookup response model, the
//! partition into usable and ignored matches, the auto-select rule, the
//! two-level disambiguation tree, and the submission and status-poll
//! policies. All network and terminal work stays outside; these functions
//! decide what happens for every value handed back.

use vstd::prelude::*;
use vstd::string::StringExecFns;
use crate::decisions::WhatToDo;
use crate::text::eq_str;

verus! {

/// One recording reference inside a lookup match.
#[derive(Debug)]
pub struct RecordingEntry {
    pub id: String,
}

/// One scored match from the fingerprint-lookup service. The score is held
/// in thousandths, so the high-confidence rule needs no floating point.
#[derive(Debug)]
pub struct LookupResultsEntry {
    pub id: String,
    pub score_millis: u32,
    pub recordings: Option<Vec<RecordingEntry>>,
}

/// A whole lookup response: its status word and the scored matches.
#[derive(Debug)]
pub struct Lookup {
    pub status: String,
    pub results: Option<Vec<LookupResultsEntry>>,
}

/// What an external fingerprint computation hands back: the track length in
/// whole seconds and the compressed fingerprint text.
#[derive(Debug)]
pub struct FingerprintOutput {
    pub duration_secs: u64,
    pub fingerprint: String,
}

/// Whether a response status is the success word.
pub fn status_is_ok(status: &str) -> (r: bool)
    ensures
        r == (status@ == "ok"@),
{
    eq_str(status, "ok")
}

/// A match is usable only if it has at least one associated recording.
pub open spec fn spec_has_recordings(e: LookupResultsEntry) -> bool {
    match e.recordings {
        Some(rs) => rs@.len() > 0,
        None => false,
    }
}

pub fn has_recordings(e: &LookupResultsEntry) -> (r: bool)
    ensures
        r == spec_has_recordings(*e),
{
    match &e.recordings {
        Some(rs) => rs.len() > 0,
        None => false,
    }
}

/// The usable matches, in their response order.
pub open spec fn spec_with_recordings(s: Seq<LookupResultsEntry>) -> Seq<LookupResultsEntry>
    decreases s.len(),
{
    if s.len() == 0 {
        Seq::<LookupResultsEntry>::empty()
    } else {
        let rest = spec_with_recordings(s.drop_last());
        if spec_has_recordings(s.last()) {
            rest.push(s.last())
        } else {
            rest
        }
    }
}

/// The matches without any recording, in their response order: reported to
/// the human as an ignored count, never silently dropped.
pub open spec fn spec_without_recordings(s: Seq<LookupResultsEntry>) -> Seq<LookupResultsEntry>
    decreases s.len(),
{
    if s.len() == 0 {
        Seq::<LookupResultsEntry>::empty()
    } else {
        let rest = spec_without_recordings(s.drop_last());
        if spec_has_recordings(s.last()) {
            rest
        } else {
            rest.push(s.last())
        }
    }
}

/// Split the lookup matches into those with at least one recording and
/// those with none, both keeping their order.
pub fn partition_by_recordings(results: Vec<LookupResultsEntry>) -> (pair: (
    Vec<LookupResultsEntry>,
    Vec<LookupResultsEntry>,
))
    ensures
        pair.0@ == spec_with_recordings(results@),
        pair.1@ == spec_without_recordings(results@),
{
    let ghost all = results@;
    let mut rest = results;
    let mut with_recs: Vec<LookupResultsEntry> = Vec::new();
    let mut without_recs: Vec<LookupResultsEntry> = Vec::new();
    proof {
        assert(all.subrange(0, 0) =~= Seq::<LookupResultsEntry>::empty());
        assert(rest@ =~= all.subrange(0, all.len() as int));
    }
    while rest.len() > 0
        invariant
            rest@.len() <= all.len(),
            rest@ == all.subrange(
                all.len() - rest@.len(),
                all.len() as int,
            ),
            with_recs@ == spec_with_recordings(all.subrange(0, all.len() - rest@.len())),
            without_recs@ == spec_without_recordings(all.subrange(0, all.len() - rest@.len())),
        decreases rest@.len(),
    {
        let ghost i = all.len() - rest@.len();
        let e = rest.remove(0);
        proof {
            assert(e == all[i]);
            assert(rest@ =~= all.subrange(i + 1, all.len() as int));
            assert(all.subrange(0, i + 1).drop_last() =~= all.subrange(0, i));
            assert(all.subrange(0, i + 1).last() == all[i]);
        }
        if has_recordings(&e) {
            with_recs.push(e);
        } else {
            without_recs.push(e);
        }
    }
    proof {
        assert(all.subrange(0, all.len() as int) =~= all);
    }
    (with_recs, without_recs)
}

/// The high-confidence score bound, in thousandths.
pub open spec fn high_confidence_millis() -> int {
    950
}

/// The top-level auto-select rule: on the very first pass through the tree,
/// a single usable match scored above the high-confidence bound is taken
/// without prompting.
pub fn auto_select_top(first_pass: bool, results: &Vec<LookupResultsEntry>) -> (r: bool)
    ensures
        r == (first_pass && results@.len() == 1 && results@[0].score_millis
            > high_confidence_millis()),
{
    first_pass && results.len() == 1 && results[0].score_millis > 950
}

/// The second-level auto-select rule: on the first pass, a single
/// associated recording is taken without prompting.
pub fn auto_select_recording(first_pass: bool, n_recordings: usize) -> (r: bool)
    ensures
        r == (first_pass && n_recordings == 1),
{
    first_pass && n_recordings == 1
}

/// Where the human stands in the two-level disambiguation tree.
#[derive(Clone, Copy, Debug, PartialEq, Eq, Structural)]
pub enum TreeState {
    /// Choosing among the usable matches, with a "none" escape.
    AtTop,
    /// Choosing among the recordings of match `i`, with a "back" escape.
    AtEntry(usize),
    /// Shown the full identity of recording `j` of match `i`, answering the
    /// yes/no confirmation.
    Confirming(usize, usize),
    /// Confirmed recording `j` of match `i`.
    Accepted(usize, usize),
    /// Left the tree without confirming anything.
    NoSelection,
}

/// The tree walk: its position, and whether this is still the first pass
/// (the only pass on which auto-selection may fire). Any escape back up,
/// and any declined confirmation, clears the first pass for good.
#[derive(Clone, Copy, Debug, PartialEq, Eq, Structural)]
pub struct SelectionNav {
    pub state: TreeState,
    pub first_pass: bool,
}

impl SelectionNav {
    /// The walk is over.
    pub open spec fn done(self) -> bool {
        self.state is Accepted || self.state is NoSelection
    }

    /// Start at the top level, on the first pass.
    pub fn new() -> (r: SelectionNav)
        ensures
            r == (SelectionNav { state: TreeState::AtTop, first_pass: true }),
    {
        SelectionNav { state: TreeState::AtTop, first_pass: true }
    }

    /// Answer the top-level select: "none" ends the walk with no selection;
    /// a match descends into its recordings.
    pub fn pick_top(self, choice: Option<usize>) -> (r: SelectionNav)
        requires
            self.state is AtTop,
        ensures
            choice is None ==> r == (SelectionNav { state: TreeState::NoSelection, ..self }),
            choice matches Some(i) ==> r == (SelectionNav { state: TreeState::AtEntry(i), ..self }),
    {
        match choice {
            None => SelectionNav { state: TreeState::NoSelection, ..self },
            Some(i) => SelectionNav { state: TreeState::AtEntry(i), ..self },
        }
    }

    /// Answer the second-level select: "back" returns to the top level and
    /// clears first-pass eligibility, so a second visit always prompts; a
    /// recording moves on to its confirmation screen.
    pub fn pick_recording(self, choice: Option<usize>) -> (r: SelectionNav)
        requires
            self.state is AtEntry,
        ensures
            match (choice, self.state) {
                (None, _) => r == (SelectionNav { state: TreeState::AtTop, first_pass: false }),
                (Some(j), TreeState::AtEntry(i)) => r == (SelectionNav {
                    state: TreeState::Confirming(i, j),
                    ..self
                }),
                _ => true,
            },
    {
        match choice {
            None => SelectionNav { state: TreeState::AtTop, first_pass: false },
            Some(j) => {
                let i = match self.state {
                    TreeState::AtEntry(i) => i,
                    _ => 0,
                };
                SelectionNav { state: TreeState::Confirming(i, j), ..self }
            },
        }
    }

    /// Answer the confirmation screen: yes accepts the recording; no
    /// returns into the second-level select and clears first-pass
    /// eligibility.
    pub fn confirm(self, yes: bool) -> (r: SelectionNav)
        requires
            self.state is Confirming,
        ensures
            self.state matches TreeState::Confirming(i, j) ==> {
                &&& yes ==> r == (SelectionNav { state: TreeState::Accepted(i, j), ..self })
                &&& !yes ==> r == (SelectionNav {
                    state: TreeState::AtEntry(i),
                    first_pass: false,
                })
            },
    {
        let (i, j) = match self.state {
            TreeState::Confirming(i, j) => (i, j),
            _ => (0, 0),
        };
        if yes {
            SelectionNav { state: TreeState::Accepted(i, j), ..self }
        } else {
            SelectionNav { state: TreeState::AtEntry(i), first_pass: false }
        }
    }
}

/// What a failed fingerprint computation leads to, by the human's
/// decision.
#[derive(Clone, Copy, Debug, PartialEq, Eq, Structural)]
pub enum ComputeFlow {
    /// Run the fingerprint tool again.
    RetryCompute,
    /// Hand the decision up to the enclosing request machine.
    Propagate(WhatToDo),
}

/// The decisions offered when the fingerprint computation fails: there is
/// no meaningful "continue" from a missing fingerprint, so exactly the
/// other three are offered.
pub fn fingerprint_failure_menu() -> (r: Vec<WhatToDo>)
    ensures
        r@ == crate::decisions::spec_all_except(WhatToDo::Continue),
{
    WhatToDo::all_except(WhatToDo::Continue)
}

/// Map the human's decision after a failed fingerprint computation: a
/// retry redoes the computation; a restart or abort propagates up.
/// `Continue` is never offered for this failure.
pub fn fingerprint_failed_decision(decision: WhatToDo) -> (r: ComputeFlow)
    requires
        decision != WhatToDo::Continue,
    ensures
        decision is Retry ==> r == ComputeFlow::RetryCompute,
        decision is RestartRequest ==> r == ComputeFlow::Propagate(WhatToDo::RestartRequest),
        decision is AbortRequest ==> r == ComputeFlow::Propagate(WhatToDo::AbortRequest),
{
    match decision {
        WhatToDo::Retry => ComputeFlow::RetryCompute,
        other => ComputeFlow::Propagate(other),
    }
}

/// What a failed lookup leads to, by the human's decision.
#[derive(Clone, Copy, Debug, PartialEq, Eq, Structural)]
pub enum LookupFlow {
    /// Call the lookup service again.
    RetryLookup,
    /// Go on as if the lookup had returned no usable match.
    ProceedNoMatch,
    /// Hand the decision up to the enclosing request machine.
    Propagate(WhatToDo),
}

/// Map the human's decision after a non-ok lookup response. All four
/// decisions are offered: a retry calls again, a continue proceeds with no
/// match, and a restart or abort propagates up.
pub fn lookup_failed_decision(decision: WhatToDo) -> (r: LookupFlow)
    ensures
        decision is Retry ==> r == LookupFlow::RetryLookup,
        decision is Continue ==> r == LookupFlow::ProceedNoMatch,
        decision is RestartRequest ==> r == LookupFlow::Propagate(WhatToDo::RestartRequest),
        decision is AbortRequest ==> r == LookupFlow::Propagate(WhatToDo::AbortRequest),
{
    match decision {
        WhatToDo::Retry => LookupFlow::RetryLookup,
        WhatToDo::Continue => LookupFlow::ProceedNoMatch,
        WhatToDo::RestartRequest => LookupFlow::Propagate(WhatToDo::RestartRequest),
        WhatToDo::AbortRequest => LookupFlow::Propagate(WhatToDo::AbortRequest),
    }
}

/// What the submission attempt as a whole leads to.
#[derive(Clone, Copy, Debug, PartialEq, Eq, Structural)]
pub enum SubmitFlow {
    /// Ask for key and id again and resubmit.
    Resubmit,
    /// Take the fetched recording as the selection. The user key is
    /// persisted for the rest of the process only when the submission ran
    /// through cleanly.
    AcceptRecording { persist_key: bool },
    /// Hand the decision up to the enclosing request machine.
    Propagate(WhatToDo),
}

/// Map what the submission status-poll surfaced: nothing means the
/// submission was imported, so the recording is accepted and the key is
/// kept; a retry resubmits; a continue accepts the recording without
/// keeping the key; a restart or abort propagates up and ends the sub-flow.
pub fn submission_flow(outcome: Option<WhatToDo>) -> (r: SubmitFlow)
    ensures
        outcome is None ==> r == (SubmitFlow::AcceptRecording { persist_key: true }),
        outcome == Some(WhatToDo::Retry) ==> r == SubmitFlow::Resubmit,
        outcome == Some(WhatToDo::Continue) ==> r == (SubmitFlow::AcceptRecording {
            persist_key: false,
        }),
        outcome == Some(WhatToDo::RestartRequest) ==> r == SubmitFlow::Propagate(
            WhatToDo::RestartRequest,
        ),
        outcome == Some(WhatToDo::AbortRequest) ==> r == SubmitFlow::Propagate(
            WhatToDo::AbortRequest,
        ),
{
    match outcome {
        None => SubmitFlow::AcceptRecording { persist_key: true },
        Some(WhatToDo::Retry) => SubmitFlow::Resubmit,
        Some(WhatToDo::Continue) => SubmitFlow::AcceptRecording { persist_key: false },
        Some(WhatToDo::RestartRequest) => SubmitFlow::Propagate(WhatToDo::RestartRequest),
        Some(WhatToDo::AbortRequest) => SubmitFlow::Propagate(WhatToDo::AbortRequest),
    }
}

/// What a failed tagging command leads to, by the human's decision.
#[derive(Clone, Copy, Debug, PartialEq, Eq, Structural)]
pub enum TagFlow {
    /// Run the tagging command again.
    RetryTag,
    /// Leave the file as it stands and go on.
    ProceedUntagged,
    /// Hand the decision up to the enclosing request machine.
    Propagate(WhatToDo),
}

/// Map the human's decision after a failed tagging command. All four
/// decisions are offered: a retry reruns the command, a continue proceeds
/// without the rewritten tags, and a restart or abort propagates up.
pub fn tag_failed_decision(decision: WhatToDo) -> (r: TagFlow)
    ensures
        decision is Retry ==> r == TagFlow::RetryTag,
        decision is Continue ==> r == TagFlow::ProceedUntagged,
        decision is RestartRequest ==> r == TagFlow::Propagate(WhatToDo::RestartRequest),
        decision is AbortRequest ==> r == TagFlow::Propagate(WhatToDo::AbortRequest),
{
    match decision {
        WhatToDo::Retry => TagFlow::RetryTag,
        WhatToDo::Continue => TagFlow::ProceedUntagged,
        WhatToDo::RestartRequest => TagFlow::Propagate(WhatToDo::RestartRequest),
        WhatToDo::AbortRequest => TagFlow::Propagate(WhatToDo::AbortRequest),
    }
}

/// What one submission-status poll observed.
#[derive(Clone, Copy, Debug, PartialEq, Eq, Structural)]
pub enum PollObservation {
    /// The status endpoint answered with a non-ok status.
    RequestFailed,
    /// The endpoint answered ok, but the submission is not imported yet.
    NotImported,
    /// The submission reached its imported terminal state.
    Imported,
}

/// Whether a submission entry's status word is the imported terminal
/// state.
pub fn status_is_imported(status: &str) -> (r: bool)
    ensures
        r == (status@ == "imported"@),
{
    eq_str(status, "imported")
}

/// Classify one poll of the submission-status endpoint: a non-ok response
/// status is a failed request; an ok response whose single entry reports
/// `imported` is terminal; an ok response with any other entry status, or
/// with no entry at all, is not imported yet.
pub fn classify_poll_status(response_status: &str, entry_status: Option<&str>) -> (r:
    PollObservation)
    ensures
        response_status@ != "ok"@ ==> r == PollObservation::RequestFailed,
        response_status@ == "ok"@ && (entry_status matches Some(s) && s@ == "imported"@) ==> r
            == PollObservation::Imported,
        response_status@ == "ok"@ && !(entry_status matches Some(s) && s@ == "imported"@) ==> r
            == PollObservation::NotImported,
{
    if !status_is_ok(response_status) {
        PollObservation::RequestFailed
    } else {
        match entry_status {
            Some(s) => if status_is_imported(s) {
                PollObservation::Imported
            } else {
                PollObservation::NotImported
            },
            None => PollObservation::NotImported,
        }
    }
}

/// What to do after a poll.
#[derive(Clone, Copy, Debug, PartialEq, Eq, Structural)]
pub enum PollAction {
    /// Wait the next backoff delay and poll again, without bothering the
    /// human.
    RetrySilently,
    /// Enough silent retries: offer the human the four decisions.
    AskHuman,
    /// Stop polling; the submission is imported.
    Done,
}

/// The automatic bound on silent retries: a non-ok poll answer is retried
/// silently through the fourth poll, a not-yet-imported answer through the
/// fifth; after that the human is asked.
pub fn poll_action(iteration: usize, obs: PollObservation) -> (r: PollAction)
    ensures
        obs is Imported ==> r == PollAction::Done,
        obs is RequestFailed ==> r == (if iteration > 3 {
            PollAction::AskHuman
        } else {
            PollAction::RetrySilently
        }),
        obs is NotImported ==> r == (if iteration > 4 {
            PollAction::AskHuman
        } else {
            PollAction::RetrySilently
        }),
{
    match obs {
        PollObservation::Imported => PollAction::Done,
        PollObservation::RequestFailed => if iteration > 3 {
            PollAction::AskHuman
        } else {
            PollAction::RetrySilently
        },
        PollObservation::NotImported => if iteration > 4 {
            PollAction::AskHuman
        } else {
            PollAction::RetrySilently
        },
    }
}

/// How the human's decision resolves a stuck poll.
#[derive(Clone, Copy, Debug, PartialEq, Eq, Structural)]
pub enum PollResolution {
    /// Keep polling.
    KeepPolling,
    /// Stop polling and surface this decision to the submission flow.
    Surface(WhatToDo),
}

/// A retry keeps polling; every other decision stops the poll and is
/// surfaced.
pub fn poll_human_flow(decision: WhatToDo) -> (r: PollResolution)
    ensures
        decision is Retry ==> r == PollResolution::KeepPolling,
        !(decision is Retry) ==> r == PollResolution::Surface(decision),
{
    match decision {
        WhatToDo::Retry => PollResolution::KeepPolling,
        other => PollResolution::Surface(other),
    }
}

/// The query pairs of a fingerprint lookup call: the client key, the JSON
/// format, the fingerprint, the request for recording metadata, and the
/// track duration in whole seconds.
pub fn lookup_query(client_api_key: &str, fingerprint: &str, duration_secs: u64) -> (r: Vec<
    (String, String),
>)
    ensures
        r@.len() == 5,
        r@[0].0@ == "client"@ && r@[0].1@ == client_api_key@,
        r@[1].0@ == "format"@ && r@[1].1@ == "json"@,
        r@[2].0@ == "fingerprint"@ && r@[2].1@ == fingerprint@,
        r@[3].0@ == "meta"@ && r@[3].1@ == "recordings"@,
        r@[4].0@ == "duration"@ && r@[4].1@ == crate::lockfile::dec_rep(duration_secs as nat),
{
    let mut r: Vec<(String, String)> = Vec::new();
    r.push((String::from_str("client"), String::from_str(client_api_key)));
    r.push((String::from_str("format"), String::from_str("json")));
    r.push((String::from_str("fingerprint"), String::from_str(fingerprint)));
    r.push((String::from_str("meta"), String::from_str("recordings")));
    r.push((String::from_str("duration"), crate::lockfile::u64_to_dec(duration_secs)));
    r
}

/// The query pairs of a fingerprint submission call: format, client key,
/// client version, user key, then the duration, fingerprint, recording id
/// and track title of the one submitted entry, and its artist credit text
/// when there is one.
pub fn submit_query(
    client_api_key: &str,
    client_version: &str,
    user_api_key: &str,
    duration_secs: u64,
    fingerprint: &str,
    mbid: &str,
    track: &str,
    artist: Option<&str>,
) -> (r: Vec<(String, String)>)
    ensures
        r@.len() == (if artist is Some {
            9int
        } else {
            8int
        }),
        r@[0].0@ == "format"@ && r@[0].1@ == "json"@,
        r@[1].0@ == "client"@ && r@[1].1@ == client_api_key@,
        r@[2].0@ == "clientversion"@ && r@[2].1@ == client_version@,
        r@[3].0@ == "user"@ && r@[3].1@ == user_api_key@,
        r@[4].0@ == "duration.0"@ && r@[4].1@ == crate::lockfile::dec_rep(duration_secs as nat),
        r@[5].0@ == "fingerprint.0"@ && r@[5].1@ == fingerprint@,
        r@[6].0@ == "mbid.0"@ && r@[6].1@ == mbid@,
        r@[7].0@ == "track.0"@ && r@[7].1@ == track@,
        artist matches Some(a) ==> r@[8].0@ == "artist.0"@ && r@[8].1@ == a@,
{
    let mut r: Vec<(String, String)> = Vec::new();
    r.push((String::from_str("format"), String::from_str("json")));
    r.push((String::from_str("client"), String::from_str(client_api_key)));
    r.push((String::from_str("clientversion"), String::from_str(client_version)));
    r.push((String::from_str("user"), String::from_str(user_api_key)));
    r.push((String::from_str("duration.0"), crate::lockfile::u64_to_dec(duration_secs)));
    r.push((String::from_str("fingerprint.0"), String::from_str(fingerprint)));
    r.push((String::from_str("mbid.0"), String::from_str(mbid)));
    r.push((String::from_str("track.0"), String::from_str(track)));
    match artist {
        Some(a) => {
            r.push((String::from_str("artist.0"), String::from_str(a)));
        },
        None => {},
    }
    r
}

/// Turn the raw multi-select answer into the list of file positions to
/// fingerprint. Entry `0` is the reserved "none" item: choosing it
/// overrides and clears every other selection; otherwise each chosen entry
/// `k` stands for file `k - 1` of the listing.
pub fn chosen_files(selections: &Vec<usize>) -> (r: Vec<usize>)
    ensures
        selections@.contains(0) ==> r@ == Seq::<usize>::empty(),
        !selections@.contains(0) ==> r@.len() == selections@.len() && (forall|k: int|
            0 <= k < r@.len() ==> r@[k] == selections@[k] - 1),
{
    let mut has_none = false;
    let mut i: usize = 0;
    while i < selections.len()
        invariant
            0 <= i <= selections@.len(),
            has_none == exists|j: int| 0 <= j < i && selections@[j] == 0,
        decreases selections@.len() - i,
    {
        if selections[i] == 0 {
            proof {
                assert(selections@[i as int] == 0);
            }
            has_none = true;
        }
        i += 1;
    }
    if has_none {
        proof {
            assert(selections@.contains(0));
        }
        return Vec::new();
    }
    proof {
        assert(!selections@.contains(0)) by {
            if selections@.contains(0) {
                let j = choose|j: int| 0 <= j < selections@.len() && selections@[j] == 0;
                assert(0 <= j < selections@.len() && selections@[j] == 0);
            }
        };
    }
    let mut r: Vec<usize> = Vec::new();
    let mut k: usize = 0;
    while k < selections.len()
        invariant
            0 <= k <= selections@.len(),
            !selections@.contains(0),
            r@.len() == k,
            forall|j: int| 0 <= j < k ==> r@[j] == selections@[j] - 1,
        decreases selections@.len() - k,
    {
        proof {
            assert(selections@[k as int] != 0) by {
                if selections@[k as int] == 0 {
                    assert(selections@.contains(0));
                }
            };
        }
        r.push(selections[k] - 1);
        k += 1;
    }
    r
}

} // verus!
