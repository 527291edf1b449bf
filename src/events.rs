//! What a download session reports to its observer.
use vstd::prelude::*;
use vstd::string::*;
use crate::progress::{DownloadProgress, ProgressRecord};
use crate::text::{decimal, decimal_string};

verus! {

/// A new playlist item begins: observers clear their rows.
#[derive(Clone, Debug, Default, Eq, PartialEq)]
pub struct DownloadReset {
    pub label: String,
    pub playlistCurrent: usize,
    pub playlistMax: usize,
}

/// The download stopped; `completed` tells whether it finished.
#[derive(Clone, Debug, Default, Eq, PartialEq)]
pub struct DownloadStopped {
    pub label: String,
    pub completed: bool,
}

/// The human-readable title of what is being downloaded.
#[derive(Clone, Debug, Default, Eq, PartialEq)]
pub struct DownloadTitle {
    pub title: String,
}

#[derive(Clone, Debug, Eq, PartialEq)]
pub enum DownloadEvent {
    Progress(DownloadProgress),
    Reset(DownloadReset),
    Stopped(DownloadStopped),
    Title(DownloadTitle),
}

/// What a `DownloadEvent` says, as character sequences and numbers.
pub enum Event {
    Progress(ProgressRecord),
    Reset { label: Seq<char>, current: nat, max: nat },
    Stopped { label: Seq<char>, completed: bool },
    Title { title: Seq<char> },
}

impl View for DownloadEvent {
    type V = Event;

    open spec fn view(&self) -> Event {
        match self {
            DownloadEvent::Progress(p) => Event::Progress(p@),
            DownloadEvent::Reset(r) => Event::Reset {
                label: r.label@,
                current: r.playlistCurrent as nat,
                max: r.playlistMax as nat,
            },
            DownloadEvent::Stopped(s) => Event::Stopped { label: s.label@, completed: s.completed },
            DownloadEvent::Title(t) => Event::Title { title: t.title@ },
        }
    }
}

pub open spec fn event_view(e: Option<DownloadEvent>) -> Option<Event> {
    match e {
        Some(x) => Some(x@),
        None => None,
    }
}

/// The event as one line of text for a person to read.
pub open spec fn event_message(e: Event) -> Seq<char> {
    match e {
        Event::Progress(p) => "Progress "@ + p.label + ": "@ + p.percentComplete + " "@
            + p.transferRate + " "@ + p.size + " "@ + p.time + " "@ + p.fragmentStatus,
        Event::Reset { label, current, max } => "Resetting download progress for part "@
            + decimal(current) + " of "@ + decimal(max) + " - '"@ + label + "'"@,
        Event::Stopped { label, completed } => (if completed {
            "Download has completed: '"@
        } else {
            "Download has stopped: '"@
        }) + label + "'"@,
        Event::Title { title } => "Title: "@ + title,
    }
}

impl DownloadEvent {
    /// The event as one line of text for a person to read.
    pub fn message(&self) -> (r: String)
        ensures
            r@ == event_message(self@),
    {
        match self {
            DownloadEvent::Progress(p) => String::from_str("Progress ").concat(p.label.as_str()).concat(
                ": ",
            ).concat(p.percentComplete.as_str()).concat(" ").concat(p.transferRate.as_str()).concat(
                " ",
            ).concat(p.size.as_str()).concat(" ").concat(p.time.as_str()).concat(" ").concat(
                p.fragmentStatus.as_str(),
            ),
            DownloadEvent::Reset(r) => {
                let current = decimal_string(r.playlistCurrent as u64);
                let max = decimal_string(r.playlistMax as u64);
                String::from_str("Resetting download progress for part ").concat(
                    current.as_str(),
                ).concat(" of ").concat(max.as_str()).concat(" - '").concat(r.label.as_str()).concat(
                    "'",
                )
            },
            DownloadEvent::Stopped(s) => {
                let head = if s.completed {
                    String::from_str("Download has completed: '")
                } else {
                    String::from_str("Download has stopped: '")
                };
                head.concat(s.label.as_str()).concat("'")
            },
            DownloadEvent::Title(t) => String::from_str("Title: ").concat(t.title.as_str()),
        }
    }
}

} // verus!
