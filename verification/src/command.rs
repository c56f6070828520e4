//! Classification of one external command run, the convenience that turns a
//! classified outcome into "payload or recovery decision", and the exact
//! argument vectors handed to the external tools.

use vstd::prelude::*;
use vstd::string::StringExecFns;
use crate::decisions::WhatToDo;

verus! {

/// Result of running one external command. Exactly one exit-status class
/// applies: a zero exit code, a non-zero exit code, or no exit code at all
/// (the process was killed by a signal). `InterruptRequested` short-circuits
/// a run at an interrupt checkpoint with the human's decision instead.
/// The payload is whatever the caller asked to be captured.
#[derive(Clone, Debug)]
pub enum CommandOutcome<T> {
    Success(T),
    NonZeroExit(i32, T),
    KilledBySignal(T),
    InterruptRequested(WhatToDo),
}

/// The classification an exit code receives.
pub open spec fn spec_classify<T>(code: Option<i32>, payload: T) -> CommandOutcome<T> {
    match code {
        Some(c) => if c == 0 {
            CommandOutcome::Success(payload)
        } else {
            CommandOutcome::NonZeroExit(c, payload)
        },
        None => CommandOutcome::KilledBySignal(payload),
    }
}

/// Classify what an awaited child process reported: its exit code if it
/// exited, or no code if a signal killed it.
pub fn classify_exit<T>(code: Option<i32>, payload: T) -> (r: CommandOutcome<T>)
    ensures
        r == spec_classify(code, payload),
{
    match code {
        Some(c) => if c == 0 {
            CommandOutcome::Success(payload)
        } else {
            CommandOutcome::NonZeroExit(c, payload)
        },
        None => CommandOutcome::KilledBySignal(payload),
    }
}

impl<T> CommandOutcome<T> {
    /// Whether the human must be asked for a recovery decision: true for a
    /// non-zero exit and for a kill by signal, never for success or for an
    /// interrupt (which already carries a decision).
    pub fn needs_decision(&self) -> (r: bool)
        ensures
            r == (*self matches CommandOutcome::NonZeroExit(_, _) || *self
                matches CommandOutcome::KilledBySignal(_)),
    {
        match self {
            CommandOutcome::NonZeroExit(_, _) => true,
            CommandOutcome::KilledBySignal(_) => true,
            _ => false,
        }
    }

    /// Success yields the captured payload; a failure yields the decision
    /// the human chose for it; an interrupt yields the decision it carried.
    pub fn into_success_or_decision(self, decision_on_failure: WhatToDo) -> (r: Result<
        T,
        WhatToDo,
    >)
        ensures
            match self {
                CommandOutcome::Success(payload) => r == Result::<T, WhatToDo>::Ok(payload),
                CommandOutcome::NonZeroExit(_, _) => r == Result::<T, WhatToDo>::Err(
                    decision_on_failure,
                ),
                CommandOutcome::KilledBySignal(_) => r == Result::<T, WhatToDo>::Err(
                    decision_on_failure,
                ),
                CommandOutcome::InterruptRequested(w) => r == Result::<T, WhatToDo>::Err(w),
            },
    {
        match self {
            CommandOutcome::Success(payload) => Ok(payload),
            CommandOutcome::NonZeroExit(_, _) => Err(decision_on_failure),
            CommandOutcome::KilledBySignal(_) => Err(decision_on_failure),
            CommandOutcome::InterruptRequested(w) => Err(w),
        }
    }
}

/// Copy the words of `base` into a fresh vector.
fn copied_words(base: &Vec<String>) -> (r: Vec<String>)
    ensures
        r.deep_view() == base.deep_view(),
{
    let mut r: Vec<String> = Vec::new();
    let mut i: usize = 0;
    while i < base.len()
        invariant
            i <= base.len(),
            r@.len() == i,
            forall|j: int| 0 <= j < i ==> r@[j]@ == #[trigger] base@[j]@,
        decreases base.len() - i,
    {
        r.push(base[i].clone());
        i += 1;
    }
    proof {
        assert(r.deep_view() =~= base.deep_view());
    }
    r
}

/// The download command: the configured downloader words, then `--` to end
/// option parsing, then the requested video's identifier.
pub fn download_argv(command: &Vec<String>, youtube_id: &str) -> (r: Vec<String>)
    ensures
        r.deep_view() == command.deep_view() + seq!["--"@, youtube_id@],
{
    let mut r = copied_words(command);
    r.push(String::from_str("--"));
    r.push(String::from_str(youtube_id));
    proof {
        assert(r.deep_view() =~= command.deep_view() + seq!["--"@, youtube_id@]);
    }
    r
}

/// The library-import command: the configured importer words, then `.` so it
/// imports the work directory it runs in.
pub fn import_argv(command: &Vec<String>) -> (r: Vec<String>)
    ensures
        r.deep_view() == command.deep_view() + seq!["."@],
{
    let mut r = copied_words(command);
    r.push(String::from_str("."));
    proof {
        assert(r.deep_view() =~= command.deep_view() + seq!["."@]);
    }
    r
}

/// The fingerprint-computation command: the configured tool, `-json` for
/// machine-readable output, then the file to fingerprint.
pub fn fingerprint_argv(fpcalc: &str, filepath: &str) -> (r: Vec<String>)
    ensures
        r.deep_view() == seq![fpcalc@, "-json"@, filepath@],
{
    let mut r: Vec<String> = Vec::new();
    r.push(String::from_str(fpcalc));
    r.push(String::from_str("-json"));
    r.push(String::from_str(filepath));
    proof {
        assert(r.deep_view() =~= seq![fpcalc@, "-json"@, filepath@]);
    }
    r
}

/// The words of the tagging command: rewrite the metadata of `input` to the
/// confirmed recording while copying the audio stream unmodified, writing
/// the result to `output`.
pub open spec fn spec_tag_argv(
    ffmpeg: Seq<char>,
    loglevel: Seq<char>,
    input: Seq<char>,
    track_id: Seq<char>,
    title: Seq<char>,
    artist: Seq<char>,
    output: Seq<char>,
) -> Seq<Seq<char>> {
    seq![
        ffmpeg,
        "-loglevel"@,
        loglevel,
        "-i"@,
        input,
        "-metadata"@,
        "MusicBrainz Track Id="@ + track_id,
        "-metadata"@,
        "Title="@ + title,
        "-metadata"@,
        "Artist="@ + artist,
        "-codec"@,
        "copy"@,
        output,
    ]
}

/// Build the tagging command for a confirmed recording.
pub fn tag_argv(
    ffmpeg: &str,
    loglevel: &str,
    input: &str,
    track_id: &str,
    title: &str,
    artist: &str,
    output: &str,
) -> (r: Vec<String>)
    ensures
        r.deep_view() == spec_tag_argv(
            ffmpeg@,
            loglevel@,
            input@,
            track_id@,
            title@,
            artist@,
            output@,
        ),
{
    let mut r: Vec<String> = Vec::new();
    r.push(String::from_str(ffmpeg));
    r.push(String::from_str("-loglevel"));
    r.push(String::from_str(loglevel));
    r.push(String::from_str("-i"));
    r.push(String::from_str(input));
    r.push(String::from_str("-metadata"));
    r.push(String::from_str("MusicBrainz Track Id=").concat(track_id));
    r.push(String::from_str("-metadata"));
    r.push(String::from_str("Title=").concat(title));
    r.push(String::from_str("-metadata"));
    r.push(String::from_str("Artist=").concat(artist));
    r.push(String::from_str("-codec"));
    r.push(String::from_str("copy"));
    r.push(String::from_str(output));
    proof {
        assert(r.deep_view() =~= spec_tag_argv(
            ffmpeg@,
            loglevel@,
            input@,
            track_id@,
            title@,
            artist@,
            output@,
        ));
    }
    r
}

} // verus!
