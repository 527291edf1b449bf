//! Progress tracking for a command-line media downloader.
//!
//! The downloader writes its progress as text, one line per report. This
//! library classifies each line (`classify`), parses progress reports
//! (`progress`), and keeps the per-label progress table of one download
//! session, deciding which events its observer receives (`session`). What
//! holds of every session is proved in `guarantees`. Running the
//! downloader process itself is left to the caller: the session hands out
//! the command line and takes the output lines.
#![allow(non_snake_case)]

pub mod text;
pub mod progress;
pub mod classify;
pub mod events;
pub mod options;
pub mod session;
pub mod guarantees;
pub mod template;
pub mod paths;
