//! One download session: the state that the downloader's output lines
//! move, and the events that each line gives its observer.
//!
//! Policy: when the output stream closes, rows are left as they stand; the
//! `Stopped` event says whether every row had finished. A cancel gives its
//! own `Stopped` event, and after it nothing more is reported. A new run of
//! the downloader keeps the known labels and the rows, and starts with no
//! current label.
use vstd::prelude::*;
use vstd::string::*;
use crate::classify::{classify, classifyLine, LineClass, LineKind};
use crate::events::{event_view, DownloadEvent, DownloadReset, DownloadStopped, DownloadTitle, Event};
use crate::options::{argument_list, VideoDownloaderOptions};
use crate::progress::{complete_mark, empty_record, is_finished, is_reportable, parse_progress, DownloadProgress, ProgressRecord};
use crate::text::{decimal, decimal_string, ends_with, ends_with_str, owned, split_at_each, split_by, views};

verus! {

/// The downloader flag that makes it write each progress report on a line
/// of its own.
pub const NEWLINE_FLAG: &'static str = "--newline";

#[derive(Clone, Copy, Debug, PartialEq, Eq, Structural)]
pub enum DownloadPhase {
    Idle,
    Running,
    Stopped,
    Cancelled,
}

/// What a session holds, as sequences and numbers.
pub struct SessionView {
    pub current_label: Seq<char>,
    pub known_labels: Seq<Seq<char>>,
    pub playlist_current: nat,
    pub playlist_max: nat,
    pub rows: Seq<ProgressRecord>,
    pub last_title: Seq<char>,
    pub phase: DownloadPhase,
    pub binary: Seq<char>,
    pub options: VideoDownloaderOptions,
}

/// The index of the first row with label `l` at or after `i`, or -1.
pub open spec fn find_row_from(rows: Seq<ProgressRecord>, l: Seq<char>, i: int) -> int
    decreases rows.len() - i,
{
    if i < 0 || i >= rows.len() {
        -1
    } else if rows[i].label == l {
        i
    } else {
        find_row_from(rows, l, i + 1)
    }
}

pub open spec fn find_row(rows: Seq<ProgressRecord>, l: Seq<char>) -> int {
    find_row_from(rows, l, 0)
}

/// A record merged into the table: a new label gets a row at the end, an
/// unfinished row is overwritten, a finished row stays as it is.
pub open spec fn merge_row(rows: Seq<ProgressRecord>, rec: ProgressRecord) -> Seq<ProgressRecord> {
    let i = find_row(rows, rec.label);
    if i < 0 {
        rows.push(rec)
    } else if is_finished(rows[i]) {
        rows
    } else {
        rows.update(i, rec)
    }
}

pub open spec fn all_finished(rows: Seq<ProgressRecord>) -> bool {
    rows.len() > 0 && forall|i: int| 0 <= i < rows.len() ==> is_finished(#[trigger] rows[i])
}

/// `name` ends with the non-empty label `l`.
pub open spec fn label_matches(name: Seq<char>, l: Seq<char>) -> bool {
    l.len() > 0 && ends_with(name, l)
}

/// The longest known label that the name ends with, or empty.
pub open spec fn best_label(known: Seq<Seq<char>>, name: Seq<char>) -> Seq<char>
    decreases known.len(),
{
    if known.len() == 0 {
        seq![]
    } else {
        let b = best_label(known.drop_last(), name);
        let l = known.last();
        if label_matches(name, l) && l.len() > b.len() {
            l
        } else {
            b
        }
    }
}

/// The title in a file name: the name without its `.f<label>` or
/// `.<label>` ending, where it has one.
pub open spec fn title_of(name: Seq<char>, label: Seq<char>) -> Seq<char> {
    if label.len() == 0 {
        name
    } else if ends_with(name, seq!['.', 'f'] + label) {
        name.subrange(0, name.len() - label.len() - 2)
    } else if ends_with(name, seq!['.'] + label) {
        name.subrange(0, name.len() - label.len() - 1)
    } else {
        name
    }
}

/// The label that lines without one of their own belong to: the label
/// found, else the playlist position where there is one, else empty.
pub open spec fn resolve_label(label: Seq<char>, playlist_current: nat) -> Seq<char> {
    if label.len() > 0 {
        label
    } else if playlist_current > 0 {
        decimal(playlist_current)
    } else {
        seq![]
    }
}

/// Labels appended in order, leaving out empty ones and those already known.
pub open spec fn add_labels(known: Seq<Seq<char>>, pieces: Seq<Seq<char>>) -> Seq<Seq<char>>
    decreases pieces.len(),
{
    if pieces.len() == 0 {
        known
    } else {
        let k = add_labels(known, pieces.drop_last());
        let p = pieces.last();
        if p.len() == 0 || k.contains(p) {
            k
        } else {
            k.push(p)
        }
    }
}

pub open spec fn on_destination(s: SessionView, name: Seq<char>) -> (SessionView, Option<Event>) {
    let label = best_label(s.known_labels, name);
    let title = title_of(name, label);
    let s1 = SessionView { current_label: resolve_label(label, s.playlist_current), ..s };
    if title.len() > 0 && title != s.last_title {
        (SessionView { last_title: title, ..s1 }, Some(Event::Title { title }))
    } else {
        (s1, None)
    }
}

pub open spec fn finished_record(label: Seq<char>) -> ProgressRecord {
    ProgressRecord { label, percentComplete: complete_mark(), ..empty_record() }
}

pub open spec fn on_already_downloaded(s: SessionView, name: Seq<char>) -> (SessionView, Option<Event>) {
    let label = resolve_label(best_label(s.known_labels, name), s.playlist_current);
    (
        SessionView {
            current_label: label,
            rows: merge_row(s.rows, finished_record(label)),
            ..s
        },
        Some(Event::Stopped { label, completed: true }),
    )
}

pub open spec fn on_playlist_item(s: SessionView, current: Option<nat>, max: Option<nat>) -> (SessionView, Option<Event>) {
    let c = match current {
        Some(v) => v,
        None => s.playlist_current,
    };
    let m = match max {
        Some(v) => v,
        None => s.playlist_max,
    };
    (
        SessionView {
            playlist_current: c,
            playlist_max: m,
            known_labels: seq![],
            rows: seq![],
            ..s
        },
        Some(Event::Reset { label: s.current_label, current: c, max: m }),
    )
}

pub open spec fn on_progress(s: SessionView, parsed: ProgressRecord) -> (SessionView, Option<Event>) {
    let rec = ProgressRecord { label: s.current_label, ..parsed };
    let rows = merge_row(s.rows, rec);
    if !is_reportable(rec) || rows == s.rows {
        (s, None)
    } else {
        (SessionView { rows, ..s }, Some(Event::Progress(rec)))
    }
}

pub open spec fn format_separator() -> Seq<char> {
    seq!['+']
}

pub open spec fn subtitle_separator() -> Seq<char> {
    seq![',', ' ']
}

/// What one line of standard output does to a running session, and what
/// it reports. Outside a run, lines change nothing.
pub open spec fn step(s: SessionView, line: Seq<char>) -> (SessionView, Option<Event>) {
    if s.phase != DownloadPhase::Running {
        (s, None)
    } else {
        match classify(line) {
            LineKind::Destination { name } => on_destination(s, name),
            LineKind::AlreadyDownloaded { name } => on_already_downloaded(s, name),
            LineKind::PlaylistItem { current, max } => on_playlist_item(s, current, max),
            LineKind::Progress { rest } => on_progress(s, parse_progress(rest)),
            LineKind::Formats { list } => (
                SessionView {
                    known_labels: add_labels(s.known_labels, split_by(list, format_separator())),
                    ..s
                },
                None,
            ),
            LineKind::Subtitles { list } => if s.options.writes_subtitles() {
                (
                    SessionView {
                        known_labels: add_labels(s.known_labels, split_by(list, subtitle_separator())),
                        ..s
                    },
                    None,
                )
            } else {
                (s, None)
            },
            LineKind::Ignored => (s, None),
        }
    }
}

/// The output stream closed: a running session stops, once.
pub open spec fn close(s: SessionView) -> (SessionView, Option<Event>) {
    if s.phase == DownloadPhase::Running {
        (
            SessionView { phase: DownloadPhase::Stopped, ..s },
            Some(Event::Stopped { label: s.current_label, completed: all_finished(s.rows) }),
        )
    } else {
        (s, None)
    }
}

/// The downloader was killed: a running session is cancelled, once.
pub open spec fn cancel(s: SessionView) -> (SessionView, Option<Event>) {
    if s.phase == DownloadPhase::Running {
        (
            SessionView { phase: DownloadPhase::Cancelled, ..s },
            Some(Event::Stopped { label: s.current_label, completed: false }),
        )
    } else {
        (s, None)
    }
}

/// The arguments of one run of the downloader: the line-per-report flag,
/// the options' flags, and the video last.
pub open spec fn command_line(s: SessionView, video: Seq<char>) -> Seq<Seq<char>> {
    seq![NEWLINE_FLAG@] + argument_list(s.options) + seq![video]
}

/// A new run begins: it keeps what the earlier runs learnt, but no current label.
pub open spec fn begin(s: SessionView) -> SessionView {
    SessionView { phase: DownloadPhase::Running, current_label: seq![], ..s }
}

/// Lines fed in order: the final state and every event reported.
pub open spec fn run(s: SessionView, lines: Seq<Seq<char>>) -> (SessionView, Seq<Event>)
    decreases lines.len(),
{
    if lines.len() == 0 {
        (s, seq![])
    } else {
        let (s1, evs) = run(s, lines.drop_last());
        let (s2, e) = step(s1, lines.last());
        match e {
            Some(x) => (s2, evs.push(x)),
            None => (s2, evs),
        }
    }
}

pub open spec fn row_views(rows: Seq<DownloadProgress>) -> Seq<ProgressRecord> {
    rows.map_values(|r: DownloadProgress| r@)
}

/// Why a run of the downloader was not started.
#[derive(Clone, Copy, Debug, PartialEq, Eq, Structural)]
pub enum DownloadError {
    /// No video was named.
    EmptyVideo,
    /// A run is still going: it must be cancelled or finish first.
    AlreadyRunning,
}

/// The state of one download: which downloader to run with which options,
/// and what its output has said so far.
pub struct VideoDownloader {
    pub binary: String,
    pub options: VideoDownloaderOptions,
    currentDownloadLabel: String,
    partLabels: Vec<String>,
    playlistCurrent: usize,
    playlistMax: usize,
    rows: Vec<DownloadProgress>,
    lastTitle: String,
    phase: DownloadPhase,
}

impl View for VideoDownloader {
    type V = SessionView;

    closed spec fn view(&self) -> SessionView {
        SessionView {
            current_label: self.currentDownloadLabel@,
            known_labels: views(self.partLabels@),
            playlist_current: self.playlistCurrent as nat,
            playlist_max: self.playlistMax as nat,
            rows: row_views(self.rows@),
            last_title: self.lastTitle@,
            phase: self.phase,
            binary: self.binary@,
            options: self.options,
        }
    }
}

fn dotted(l: &str, with_f: bool) -> (r: String)
    ensures
        r@ == (if with_f {
            seq!['.', 'f']
        } else {
            seq!['.']
        }) + l@,
{
    if with_f {
        proof {
            reveal_strlit(".f");
        }
        String::from_str(".f").concat(l)
    } else {
        proof {
            reveal_strlit(".");
        }
        String::from_str(".").concat(l)
    }
}

impl VideoDownloader {
    pub fn new(binary: String, options: VideoDownloaderOptions) -> (r: Self)
        ensures
            r@ == (SessionView {
                current_label: seq![],
                known_labels: seq![],
                playlist_current: 0,
                playlist_max: 0,
                rows: seq![],
                last_title: seq![],
                phase: DownloadPhase::Idle,
                binary: binary@,
                options,
            }),
    {
        let r = VideoDownloader {
            binary,
            options,
            currentDownloadLabel: String::new(),
            partLabels: Vec::new(),
            playlistCurrent: 0,
            playlistMax: 0,
            rows: Vec::new(),
            lastTitle: String::new(),
            phase: DownloadPhase::Idle,
        };
        assert(views(r.partLabels@) =~= Seq::<Seq<char>>::empty());
        assert(row_views(r.rows@) =~= Seq::<ProgressRecord>::empty());
        r
    }

    fn findRow(&self, label: &String) -> (r: Option<usize>)
        ensures
            (match r {
                Some(i) => i as int,
                None => -1,
            }) == find_row(self@.rows, label@),
            r matches Some(i) ==> i < self.rows@.len(),
    {
        let mut i: usize = 0;
        while i < self.rows.len()
            invariant
                i <= self.rows@.len(),
                find_row(self@.rows, label@) == find_row_from(self@.rows, label@, i as int),
            decreases self.rows@.len() - i,
        {
            if self.rows[i].label == *label {
                return Some(i);
            }
            i = i + 1;
        }
        None
    }

    /// Merges `rec` into the rows; says whether any row changed.
    fn merge(&mut self, rec: DownloadProgress) -> (changed: bool)
        ensures
            final(self)@ == (SessionView { rows: merge_row(old(self)@.rows, rec@), ..old(self)@ }),
            changed == (merge_row(old(self)@.rows, rec@) != old(self)@.rows),
    {
        let ghost before = old(self)@.rows;
        match self.findRow(&rec.label) {
            None => {
                self.rows.push(rec);
                assert(row_views(self.rows@) =~= before.push(rec@));
                assert(merge_row(before, rec@).len() != before.len());
                true
            },
            Some(i) => {
                if self.rows[i].isFinished() {
                    false
                } else if self.rows[i].sameAs(&rec) {
                    assert(before.update(i as int, rec@) =~= before);
                    false
                } else {
                    self.rows.set(i, rec);
                    assert(row_views(self.rows@) =~= before.update(i as int, rec@));
                    assert(merge_row(before, rec@)[i as int] != before[i as int]);
                    true
                }
            },
        }
    }

    /// The title and the label in a file name: the longest known label
    /// that the name ends with.
    fn parseTitle(&self, fullTitle: &str) -> (r: (String, String))
        ensures
            r.1@ == best_label(self@.known_labels, fullTitle@),
            r.0@ == title_of(fullTitle@, r.1@),
    {
        let ghost known = self@.known_labels;
        let mut best = String::new();
        let mut i: usize = 0;
        assert(known.subrange(0, 0) =~= Seq::<Seq<char>>::empty());
        while i < self.partLabels.len()
            invariant
                i <= self.partLabels@.len(),
                known == views(self.partLabels@),
                best@ == best_label(known.subrange(0, i as int), fullTitle@),
                best@.len() > 0 ==> label_matches(fullTitle@, best@),
            decreases self.partLabels@.len() - i,
        {
            let l = self.partLabels[i].as_str();
            assert(known.subrange(0, i + 1).drop_last() =~= known.subrange(0, i as int));
            assert(known.subrange(0, i + 1).last() == l@);
            let m = l.unicode_len();
            if m > 0 && m > best.as_str().unicode_len() && ends_with_str(fullTitle, l) {
                best = self.partLabels[i].clone();
            }
            i = i + 1;
        }
        assert(known.subrange(0, i as int) =~= known);
        let n = fullTitle.unicode_len();
        let m = best.as_str().unicode_len();
        if m == 0 {
            (String::from_str(fullTitle), best)
        } else {
            let f = dotted(best.as_str(), true);
            let d = dotted(best.as_str(), false);
            if ends_with_str(fullTitle, f.as_str()) {
                (owned(fullTitle, 0, n - m - 2), best)
            } else if ends_with_str(fullTitle, d.as_str()) {
                (owned(fullTitle, 0, n - m - 1), best)
            } else {
                (String::from_str(fullTitle), best)
            }
        }
    }

    fn knows(&self, label: &String) -> (r: bool)
        ensures
            r == self@.known_labels.contains(label@),
    {
        let mut i: usize = 0;
        while i < self.partLabels.len()
            invariant
                i <= self.partLabels@.len(),
                forall|j: int| 0 <= j < i ==> self@.known_labels[j] != label@,
            decreases self.partLabels@.len() - i,
        {
            if self.partLabels[i] == *label {
                assert(self@.known_labels[i as int] == label@);
                return true;
            }
            i = i + 1;
        }
        false
    }

    fn addLabels(&mut self, pieces: Vec<String>)
        ensures
            final(self)@ == (SessionView {
                known_labels: add_labels(old(self)@.known_labels, views(pieces@)),
                ..old(self)@
            }),
    {
        let ghost known = old(self)@.known_labels;
        let mut i: usize = 0;
        assert(views(pieces@).subrange(0, 0) =~= Seq::<Seq<char>>::empty());
        while i < pieces.len()
            invariant
                i <= pieces@.len(),
                self@ == (SessionView {
                    known_labels: add_labels(known, views(pieces@).subrange(0, i as int)),
                    ..old(self)@
                }),
            decreases pieces@.len() - i,
        {
            let p = &pieces[i];
            assert(views(pieces@).subrange(0, i + 1).drop_last() =~= views(pieces@).subrange(
                0,
                i as int,
            ));
            assert(views(pieces@).subrange(0, i + 1).last() == p@);
            if p.as_str().unicode_len() > 0 && !self.knows(p) {
                let ghost before = self.partLabels@;
                self.partLabels.push(p.clone());
                assert(views(self.partLabels@) =~= views(before).push(p@));
            }
            i = i + 1;
        }
        assert(views(pieces@).subrange(0, pieces@.len() as int) =~= views(pieces@));
    }

    fn processOutput_infoFormats(&mut self, list: &str)
        ensures
            final(self)@ == (SessionView {
                known_labels: add_labels(old(self)@.known_labels, split_by(list@, format_separator())),
                ..old(self)@
            }),
    {
        proof {
            reveal_strlit("+");
        }
        assert("+"@ =~= format_separator());
        let pieces = split_at_each(list, "+");
        self.addLabels(pieces);
    }

    fn processOutput_infoSubtitles(&mut self, list: &str)
        ensures
            final(self)@ == (SessionView {
                known_labels: add_labels(
                    old(self)@.known_labels,
                    split_by(list@, subtitle_separator()),
                ),
                ..old(self)@
            }),
    {
        proof {
            reveal_strlit(", ");
        }
        assert(", "@ =~= subtitle_separator());
        let pieces = split_at_each(list, ", ");
        self.addLabels(pieces);
    }

    fn processOutput_title(&mut self, name: String) -> (r: Option<DownloadEvent>)
        ensures
            (final(self)@, event_view(r)) == on_destination(old(self)@, name@),
    {
        let (title, label) = self.parseTitle(name.as_str());
        self.updateCurrentDownloadLabel(label);
        if title.as_str().unicode_len() > 0 && !(title == self.lastTitle) {
            self.lastTitle = title.clone();
            Some(DownloadEvent::Title(DownloadTitle { title }))
        } else {
            None
        }
    }

    fn processOutput_alreadyDownloaded(&mut self, name: String) -> (r: Option<DownloadEvent>)
        ensures
            (final(self)@, event_view(r)) == on_already_downloaded(old(self)@, name@),
    {
        let (_title, label) = self.parseTitle(name.as_str());
        self.updateCurrentDownloadLabel(label);
        let mut rec = DownloadProgress::empty();
        rec.label = self.currentDownloadLabel.clone();
        proof {
            reveal_strlit("100%");
        }
        rec.percentComplete = String::from_str("100%");
        assert("100%"@ =~= complete_mark());
        assert(rec@ == finished_record(self@.current_label));
        self.merge(rec);
        Some(
            DownloadEvent::Stopped(
                DownloadStopped { label: self.currentDownloadLabel.clone(), completed: true },
            ),
        )
    }

    fn processOutput_playlistCount(&mut self, current: Option<usize>, max: Option<usize>) -> (r:
        DownloadEvent)
        ensures
            (final(self)@, Some(r@)) == on_playlist_item(
                old(self)@,
                crate::classify::count_view(current),
                crate::classify::count_view(max),
            ),
    {
        if let Some(c) = current {
            self.playlistCurrent = c;
        }
        if let Some(m) = max {
            self.playlistMax = m;
        }
        self.partLabels.clear();
        self.rows.clear();
        assert(views(self.partLabels@) =~= Seq::<Seq<char>>::empty());
        assert(row_views(self.rows@) =~= Seq::<ProgressRecord>::empty());
        DownloadEvent::Reset(
            DownloadReset {
                label: self.currentDownloadLabel.clone(),
                playlistCurrent: self.playlistCurrent,
                playlistMax: self.playlistMax,
            },
        )
    }

    fn processOutput_downloadProgress(&mut self, rest: &str) -> (r: Option<DownloadEvent>)
        ensures
            (final(self)@, event_view(r)) == on_progress(old(self)@, parse_progress(rest@)),
    {
        let mut rec = DownloadProgress::parse(rest);
        rec.label = self.currentDownloadLabel.clone();
        if !rec.isReportable() {
            return None;
        }
        let reported = rec.duplicate();
        if self.merge(rec) {
            Some(DownloadEvent::Progress(reported))
        } else {
            None
        }
    }

    /// Feeds one line of the downloader's standard output to the session,
    /// and returns what it reports.
    pub fn processLine(&mut self, line: &str) -> (r: Option<DownloadEvent>)
        ensures
            (final(self)@, event_view(r)) == step(old(self)@, line@),
    {
        match self.phase {
            DownloadPhase::Running => {},
            _ => {
                return None;
            },
        }
        match classifyLine(line) {
            LineClass::Destination { name } => self.processOutput_title(name),
            LineClass::AlreadyDownloaded { name } => self.processOutput_alreadyDownloaded(name),
            LineClass::PlaylistItem { current, max } => Some(
                self.processOutput_playlistCount(current, max),
            ),
            LineClass::Progress { rest } => self.processOutput_downloadProgress(rest.as_str()),
            LineClass::Formats { list } => {
                self.processOutput_infoFormats(list.as_str());
                None
            },
            LineClass::Subtitles { list } => {
                if self.options.writeSubs || self.options.writeAutoSubs {
                    self.processOutput_infoSubtitles(list.as_str());
                }
                None
            },
            LineClass::Ignored => None,
        }
    }

    /// The output stream closed.
    pub fn streamClosed(&mut self) -> (r: Option<DownloadEvent>)
        ensures
            (final(self)@, event_view(r)) == close(old(self)@),
    {
        match self.phase {
            DownloadPhase::Running => {},
            _ => {
                return None;
            },
        }
        self.phase = DownloadPhase::Stopped;
        let completed = self.allFinished();
        Some(
            DownloadEvent::Stopped(
                DownloadStopped { label: self.currentDownloadLabel.clone(), completed },
            ),
        )
    }

    /// The downloader was killed: the session reports its end and nothing after.
    pub fn cancel(&mut self) -> (r: Option<DownloadEvent>)
        ensures
            (final(self)@, event_view(r)) == cancel(old(self)@),
    {
        match self.phase {
            DownloadPhase::Running => {},
            _ => {
                return None;
            },
        }
        self.phase = DownloadPhase::Cancelled;
        Some(
            DownloadEvent::Stopped(
                DownloadStopped { label: self.currentDownloadLabel.clone(), completed: false },
            ),
        )
    }

    /// Every row has reached `100%`, and there is at least one.
    pub fn allFinished(&self) -> (r: bool)
        ensures
            r == all_finished(self@.rows),
    {
        if self.rows.len() == 0 {
            return false;
        }
        let mut i: usize = 0;
        while i < self.rows.len()
            invariant
                i <= self.rows@.len(),
                forall|j: int| 0 <= j < i ==> is_finished(#[trigger] self@.rows[j]),
            decreases self.rows@.len() - i,
        {
            assert(self@.rows[i as int] == self.rows@[i as int]@);
            if !self.rows[i].isFinished() {
                return false;
            }
            i = i + 1;
        }
        true
    }

    /// Starts a run of the downloader on `video`: returns the arguments to
    /// run it with. Refused when no video is named or a run is going.
    pub fn download(&mut self, video: &str) -> (r: Result<Vec<String>, DownloadError>)
        ensures
            video@.len() == 0 ==> r matches Err(DownloadError::EmptyVideo),
            video@.len() > 0 && old(self)@.phase == DownloadPhase::Running ==> r matches Err(
                DownloadError::AlreadyRunning,
            ),
            r is Err ==> final(self)@ == old(self)@,
            video@.len() > 0 && old(self)@.phase != DownloadPhase::Running ==> r is Ok,
            r matches Ok(args) ==> views(args@) == command_line(old(self)@, video@) && final(self)@
                == begin(old(self)@),
    {
        if video.unicode_len() == 0 {
            return Err(DownloadError::EmptyVideo);
        }
        match self.phase {
            DownloadPhase::Running => {
                return Err(DownloadError::AlreadyRunning);
            },
            _ => {},
        }
        let mut args: Vec<String> = Vec::new();
        args.push(String::from_str(NEWLINE_FLAG));
        let mut generated = self.options.generateArgumentList();
        args.append(&mut generated);
        args.push(String::from_str(video));
        assert(views(args@) =~= command_line(old(self)@, video@));
        self.phase = DownloadPhase::Running;
        self.currentDownloadLabel = String::new();
        Ok(args)
    }

    pub fn phase(&self) -> (r: DownloadPhase)
        ensures
            r == self@.phase,
    {
        self.phase
    }

    /// The label that lines without one of their own go to.
    pub fn currentLabel(&self) -> (r: &String)
        ensures
            r@ == self@.current_label,
    {
        &self.currentDownloadLabel
    }

    /// The format and subtitle labels announced for the current item.
    pub fn knownLabels(&self) -> (r: &Vec<String>)
        ensures
            views(r@) == self@.known_labels,
    {
        &self.partLabels
    }

    /// One row per label, in the order the labels first reported progress.
    pub fn progressRows(&self) -> (r: &Vec<DownloadProgress>)
        ensures
            row_views(r@) == self@.rows,
    {
        &self.rows
    }

    /// The playlist item being downloaded and the number of items, 0 where
    /// none was announced.
    pub fn playlistPosition(&self) -> (r: (usize, usize))
        ensures
            r.0 as nat == self@.playlist_current,
            r.1 as nat == self@.playlist_max,
    {
        (self.playlistCurrent, self.playlistMax)
    }

    /// Lines without a label of their own go to `label`, or failing that
    /// to the playlist position.
    fn updateCurrentDownloadLabel(&mut self, label: String)
        ensures
            final(self)@ == (SessionView {
                current_label: resolve_label(label@, old(self)@.playlist_current),
                ..old(self)@
            }),
    {
        if label.as_str().unicode_len() > 0 {
            self.currentDownloadLabel = label;
        } else if self.playlistCurrent > 0 {
            self.currentDownloadLabel = decimal_string(self.playlistCurrent as u64);
        } else {
            self.currentDownloadLabel = String::new();
        }
    }
}

} // verus!
