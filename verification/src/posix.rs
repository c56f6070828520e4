//! The configured tool command lines: POSIX-style word splitting of the
//! raw flag values, and the keep-temp-directory flag, with the daemon's
//! configuration errors.

use vstd::prelude::*;
use vstd::string::StringExecFns;
use crate::machine::PromptFlag;
use crate::text::{ci_seq_eq, eq_str_ignore_ascii_case};

verus! {

/// What POSIX-shell word splitting makes of a raw command-line string:
/// its words, or nothing for erroneous input. The result depends on the
/// input characters alone.
pub uninterp spec fn shell_words(s: Seq<char>) -> Option<Seq<Seq<char>>>;

/// Relies on shlex::split: POSIX-shell word splitting, with None for
/// erroneous input such as an unclosed quote or a trailing backslash.
#[verifier::external_body]
fn split_posix(raw: &str) -> (r: Option<Vec<String>>)
    ensures
        match r {
            Some(words) => shell_words(raw@) == Some(words.deep_view()),
            None => shell_words(raw@) is None,
        },
{
    shlex::split(raw)
}

/// Extra tool arguments, already split into words as a POSIX shell would
/// split them.
#[derive(Debug)]
pub struct PosixSplit {
    pub components: Vec<String>,
}

impl PosixSplit {
    pub fn new(args: Vec<String>) -> (r: PosixSplit)
        ensures
            r.components == args,
    {
        PosixSplit { components: args }
    }

    /// Split a raw flag value into words; erroneous input yields nothing.
    pub fn from_raw(raw: &str) -> (r: Option<PosixSplit>)
        ensures
            match r {
                Some(p) => shell_words(raw@) == Some(p.components.deep_view()),
                None => shell_words(raw@) is None,
            },
    {
        match split_posix(raw) {
            Some(words) => Some(PosixSplit::new(words)),
            None => None,
        }
    }
}

/// A whole tool command line, already split into words as a POSIX shell
/// would split them.
#[derive(Debug)]
pub struct PosixCommand {
    pub components: Vec<String>,
}

impl PosixCommand {
    pub fn new(args: Vec<String>) -> (r: PosixCommand)
        ensures
            r.components == args,
    {
        PosixCommand { components: args }
    }

    /// Split a raw flag value into words; erroneous input yields nothing.
    pub fn from_raw(raw: &str) -> (r: Option<PosixCommand>)
        ensures
            match r {
                Some(p) => shell_words(raw@) == Some(p.components.deep_view()),
                None => shell_words(raw@) is None,
            },
    {
        match split_posix(raw) {
            Some(words) => Some(PosixCommand::new(words)),
            None => None,
        }
    }
}

/// A configuration value the daemon refuses, with the offending input.
#[derive(Clone, Debug)]
pub enum DaemonError {
    YtDlpCommand { erroneous_command: String },
    BeetCommand { erroneous_command: String },
    InvalidKeepTmp { provided: String },
}

impl DaemonError {
    /// The diagnostic line for this error.
    pub fn message(&self) -> (r: &'static str)
        ensures
            *self matches DaemonError::YtDlpCommand { .. } ==> r@
                == "The provided yt-dlp command is malformed"@,
            *self matches DaemonError::BeetCommand { .. } ==> r@
                == "The provided beet command is malformed"@,
            *self matches DaemonError::InvalidKeepTmp { .. } ==> r@
                == "Invalid keep-tmp value, allowed values are 'always', 'ask' and 'never'"@,
    {
        match self {
            DaemonError::YtDlpCommand { .. } => "The provided yt-dlp command is malformed",
            DaemonError::BeetCommand { .. } => "The provided beet command is malformed",
            DaemonError::InvalidKeepTmp {
                ..
            } => "Invalid keep-tmp value, allowed values are 'always', 'ask' and 'never'",
        }
    }
}

/// Parse the downloader command flag: its shell words, or the malformed-
/// command error carrying the input.
pub fn parse_yt_dlp(raw: &str) -> (r: Result<PosixCommand, DaemonError>)
    ensures
        match r {
            Ok(p) => shell_words(raw@) == Some(p.components.deep_view()),
            Err(e) => shell_words(raw@) is None && (e matches DaemonError::YtDlpCommand {
                erroneous_command,
            } && erroneous_command@ == raw@),
        },
{
    match PosixCommand::from_raw(raw) {
        Some(p) => Ok(p),
        None => Err(DaemonError::YtDlpCommand { erroneous_command: String::from_str(raw) }),
    }
}

/// Parse the importer command flag.
pub fn parse_beet(raw: &str) -> (r: Result<PosixCommand, DaemonError>)
    ensures
        match r {
            Ok(p) => shell_words(raw@) == Some(p.components.deep_view()),
            Err(e) => shell_words(raw@) is None && (e matches DaemonError::BeetCommand {
                erroneous_command,
            } && erroneous_command@ == raw@),
        },
{
    match PosixCommand::from_raw(raw) {
        Some(p) => Ok(p),
        None => Err(DaemonError::BeetCommand { erroneous_command: String::from_str(raw) }),
    }
}

/// Parse the extra downloader arguments flag.
pub fn parse_yt_dlp_args(raw: &str) -> (r: Result<PosixSplit, DaemonError>)
    ensures
        match r {
            Ok(p) => shell_words(raw@) == Some(p.components.deep_view()),
            Err(e) => shell_words(raw@) is None && (e matches DaemonError::YtDlpCommand {
                erroneous_command,
            } && erroneous_command@ == raw@),
        },
{
    match PosixSplit::from_raw(raw) {
        Some(p) => Ok(p),
        None => Err(DaemonError::YtDlpCommand { erroneous_command: String::from_str(raw) }),
    }
}

/// Parse the extra importer arguments flag.
pub fn parse_beet_args(raw: &str) -> (r: Result<PosixSplit, DaemonError>)
    ensures
        match r {
            Ok(p) => shell_words(raw@) == Some(p.components.deep_view()),
            Err(e) => shell_words(raw@) is None && (e matches DaemonError::BeetCommand {
                erroneous_command,
            } && erroneous_command@ == raw@),
        },
{
    match PosixSplit::from_raw(raw) {
        Some(p) => Ok(p),
        None => Err(DaemonError::BeetCommand { erroneous_command: String::from_str(raw) }),
    }
}

/// Parse the keep-temp-directory flag: `always`, `ask` or `never`, in any
/// ASCII casing; anything else is refused with the offending input.
pub fn parse_prompt_flag(prompt: &str) -> (r: Result<PromptFlag, DaemonError>)
    ensures
        ci_seq_eq(prompt@, "always"@) ==> (r matches Ok(f) && f == PromptFlag::Always),
        ci_seq_eq(prompt@, "ask"@) ==> (r matches Ok(f) && f == PromptFlag::Ask),
        ci_seq_eq(prompt@, "never"@) ==> (r matches Ok(f) && f == PromptFlag::Never),
        !(ci_seq_eq(prompt@, "always"@) || ci_seq_eq(prompt@, "ask"@) || ci_seq_eq(
            prompt@,
            "never"@,
        )) ==> (r matches Err(e) && (e matches DaemonError::InvalidKeepTmp { provided }
            && provided@ == prompt@)),
{
    proof {
        reveal_strlit("always");
        reveal_strlit("ask");
        reveal_strlit("never");
        assert("always"@.len() == 6);
        assert("ask"@.len() == 3);
        assert("never"@.len() == 5);
    }
    if eq_str_ignore_ascii_case(prompt, "always") {
        Ok(PromptFlag::Always)
    } else if eq_str_ignore_ascii_case(prompt, "ask") {
        Ok(PromptFlag::Ask)
    } else if eq_str_ignore_ascii_case(prompt, "never") {
        Ok(PromptFlag::Never)
    } else {
        Err(DaemonError::InvalidKeepTmp { provided: String::from_str(prompt) })
    }
}

} // verus!
