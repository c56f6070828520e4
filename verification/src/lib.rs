//! Core logic of a personal music-archival daemon: a long-running tty
//! instance accepts video-download requests over a loopback interface,
//! drives each request through download, acoustic-fingerprint matching and
//! library import via external tools, with human-in-the-loop error recovery,
//! a bounded FIFO work queue, an interrupt latch and an instance-lock
//! discovery record.
//!
//! This crate holds the verified decision logic: URL recognition, queueing,
//! the request state machine, the fingerprint matching and submission
//! policies, command classification and the lockfile record codec. The
//! process plumbing (HTTP, spawning tools, terminal prompts, file locking)
//! lives in the surrounding application, which feeds plain values in and
//! carries the decisions out.

pub mod command;
pub mod decisions;
pub mod fingerprint;
pub mod iters;
pub mod latch;
pub mod lockfile;
pub mod machine;
pub mod musicbrainz;
pub mod posix;
pub mod queue;
pub mod text;
pub mod video;
