//! What holds of every session, whatever the downloader writes.
use vstd::prelude::*;
use crate::classify::{classify, LineKind};
use crate::events::Event;
use crate::progress::{is_finished, parse_progress, ProgressRecord};
use crate::session::{
    add_labels, cancel, close, find_row, find_row_from, merge_row, on_progress, run, step,
    DownloadPhase, SessionView,
};

verus! {

proof fn lemma_find_row_from(rows: Seq<ProgressRecord>, l: Seq<char>, i: int)
    requires
        0 <= i,
    ensures
        ({
            let r = find_row_from(rows, l, i);
            (r == -1 && forall|j: int| i <= j < rows.len() ==> (#[trigger] rows[j]).label != l) || (i
                <= r < rows.len() && rows[r].label == l && forall|j: int|
                i <= j < r ==> (#[trigger] rows[j]).label != l)
        }),
    decreases rows.len() - i,
{
    if i < rows.len() && rows[i].label != l {
        lemma_find_row_from(rows, l, i + 1);
    }
}

/// The first row with label `l` is at `k` (-1: there is none).
proof fn lemma_find_row_is(rows: Seq<ProgressRecord>, l: Seq<char>, k: int)
    requires
        (k == -1 && forall|j: int| 0 <= j < rows.len() ==> (#[trigger] rows[j]).label != l) || (0
            <= k < rows.len() && rows[k].label == l && forall|j: int|
            0 <= j < k ==> (#[trigger] rows[j]).label != l),
    ensures
        find_row(rows, l) == k,
{
    lemma_find_row_from(rows, l, 0);
    let r = find_row(rows, l);
    if r != k {
        if r == -1 {
            assert(rows[k].label == l);
        } else if k == -1 {
            assert(rows[r].label == l);
        } else if r < k {
            assert(rows[r].label == l);
        } else {
            assert(rows[k].label == l);
        }
    }
}

/// Merging the same record twice leaves the rows as merging it once.
pub proof fn lemma_merge_idempotent(rows: Seq<ProgressRecord>, rec: ProgressRecord)
    ensures
        merge_row(merge_row(rows, rec), rec) == merge_row(rows, rec),
{
    let l = rec.label;
    let i = find_row(rows, l);
    let m = merge_row(rows, rec);
    lemma_find_row_from(rows, l, 0);
    if i < 0 {
        assert forall|j: int| 0 <= j < rows.len() implies (#[trigger] m[j]).label != l by {
            assert(m[j] == rows[j]);
        }
        lemma_find_row_is(m, l, rows.len() as int);
        assert(m.update(rows.len() as int, rec) =~= m);
    } else if !is_finished(rows[i]) {
        assert forall|j: int| 0 <= j < i implies (#[trigger] m[j]).label != l by {
            assert(m[j] == rows[j]);
        }
        lemma_find_row_is(m, l, i);
        assert(m.update(i, rec) =~= m);
    }
}

/// A progress line fed twice in a row: the second time changes nothing
/// and reports nothing.
pub proof fn lemma_progress_line_idempotent(s: SessionView, line: Seq<char>)
    requires
        classify(line) is Progress,
    ensures
        step(step(s, line).0, line) == (step(s, line).0, None::<Event>),
{
    if s.phase == DownloadPhase::Running {
        let parsed = parse_progress(classify(line)->rest);
        let rec = ProgressRecord { label: s.current_label, ..parsed };
        lemma_merge_idempotent(s.rows, rec);
        let s1 = on_progress(s, parsed).0;
        if crate::progress::is_reportable(rec) && merge_row(s.rows, rec) != s.rows {
            assert(merge_row(s1.rows, rec) == s1.rows);
        }
    }
}

/// Merging any record keeps a finished row where it is, as it is.
pub proof fn lemma_merge_keeps_finished(
    rows: Seq<ProgressRecord>,
    rec: ProgressRecord,
    l: Seq<char>,
)
    requires
        find_row(rows, l) >= 0,
        is_finished(rows[find_row(rows, l)]),
    ensures
        find_row(merge_row(rows, rec), l) == find_row(rows, l),
        merge_row(rows, rec)[find_row(rows, l)] == rows[find_row(rows, l)],
{
    let i = find_row(rows, l);
    let k = find_row(rows, rec.label);
    let m = merge_row(rows, rec);
    lemma_find_row_from(rows, l, 0);
    lemma_find_row_from(rows, rec.label, 0);
    if rec.label == l {
        assert(k == i);
    } else {
        assert(k != i);
        assert forall|j: int| 0 <= j < i implies (#[trigger] m[j]).label != l by {
            if j != k {
                assert(m[j] == rows[j]);
            }
        }
        assert(m[i] == rows[i]);
        lemma_find_row_is(m, l, i);
    }
}

/// A finished row keeps its place and content through any line but a
/// new playlist item, which clears every row.
pub proof fn lemma_finished_row_stays(s: SessionView, line: Seq<char>, l: Seq<char>)
    requires
        find_row(s.rows, l) >= 0,
        is_finished(s.rows[find_row(s.rows, l)]),
    ensures
        s.phase == DownloadPhase::Running && classify(line) is PlaylistItem ==> step(
            s,
            line,
        ).0.rows.len() == 0,
        !(s.phase == DownloadPhase::Running && classify(line) is PlaylistItem) ==> find_row(
            step(s, line).0.rows,
            l,
        ) == find_row(s.rows, l) && step(s, line).0.rows[find_row(s.rows, l)] == s.rows[find_row(
            s.rows,
            l,
        )],
{
    if s.phase == DownloadPhase::Running {
        match classify(line) {
            LineKind::Progress { rest } => {
                let rec = ProgressRecord { label: s.current_label, ..parse_progress(rest) };
                lemma_merge_keeps_finished(s.rows, rec, l);
            },
            LineKind::AlreadyDownloaded { name } => {
                let label = step(s, line).0.current_label;
                lemma_merge_keeps_finished(s.rows, crate::session::finished_record(label), l);
            },
            _ => {},
        }
    }
}

/// Through any lines that hold no new playlist item, a finished row keeps
/// its place and content.
pub proof fn lemma_finished_row_stays_through_run(
    s: SessionView,
    lines: Seq<Seq<char>>,
    l: Seq<char>,
)
    requires
        find_row(s.rows, l) >= 0,
        is_finished(s.rows[find_row(s.rows, l)]),
        forall|k: int| 0 <= k < lines.len() ==> !(classify(#[trigger] lines[k]) is PlaylistItem),
    ensures
        find_row(run(s, lines).0.rows, l) == find_row(s.rows, l),
        run(s, lines).0.rows[find_row(s.rows, l)] == s.rows[find_row(s.rows, l)],
    decreases lines.len(),
{
    if lines.len() > 0 {
        let p = lines.drop_last();
        assert forall|k: int| 0 <= k < p.len() implies !(classify(#[trigger] p[k]) is PlaylistItem) by {
            assert(p[k] == lines[k]);
        }
        lemma_finished_row_stays_through_run(s, p, l);
        let s1 = run(s, p).0;
        assert(!(classify(lines[lines.len() - 1]) is PlaylistItem));
        lemma_finished_row_stays(s1, lines.last(), l);
    }
}

/// No two rows share a label.
pub open spec fn rows_unique(rows: Seq<ProgressRecord>) -> bool {
    forall|i: int, j: int| 0 <= i < j < rows.len() ==> rows[i].label != rows[j].label
}

/// No label is known twice.
pub open spec fn labels_unique(known: Seq<Seq<char>>) -> bool {
    forall|i: int, j: int| 0 <= i < j < known.len() ==> known[i] != known[j]
}

pub proof fn lemma_merge_keeps_rows_unique(rows: Seq<ProgressRecord>, rec: ProgressRecord)
    requires
        rows_unique(rows),
    ensures
        rows_unique(merge_row(rows, rec)),
{
    lemma_find_row_from(rows, rec.label, 0);
}

pub proof fn lemma_add_labels_keeps_unique(known: Seq<Seq<char>>, pieces: Seq<Seq<char>>)
    requires
        labels_unique(known),
    ensures
        labels_unique(add_labels(known, pieces)),
    decreases pieces.len(),
{
    if pieces.len() > 0 {
        lemma_add_labels_keeps_unique(known, pieces.drop_last());
        let k = add_labels(known, pieces.drop_last());
        let p = pieces.last();
        if !(p.len() == 0 || k.contains(p)) {
            assert forall|i: int, j: int| 0 <= i < j < k.len() + 1 implies k.push(p)[i] != k.push(
                p,
            )[j] by {
                if j == k.len() {
                    assert(k[i] != p);
                }
            }
        }
    }
}

/// Every line keeps the rows' labels and the known labels free of repeats.
pub proof fn lemma_step_keeps_labels_unique(s: SessionView, line: Seq<char>)
    requires
        rows_unique(s.rows),
        labels_unique(s.known_labels),
    ensures
        rows_unique(step(s, line).0.rows),
        labels_unique(step(s, line).0.known_labels),
{
    if s.phase == DownloadPhase::Running {
        match classify(line) {
            LineKind::Progress { rest } => {
                let rec = ProgressRecord { label: s.current_label, ..parse_progress(rest) };
                lemma_merge_keeps_rows_unique(s.rows, rec);
            },
            LineKind::AlreadyDownloaded { name } => {
                let label = step(s, line).0.current_label;
                lemma_merge_keeps_rows_unique(s.rows, crate::session::finished_record(label));
            },
            LineKind::Formats { list } => {
                lemma_add_labels_keeps_unique(
                    s.known_labels,
                    crate::text::split_by(list, crate::session::format_separator()),
                );
            },
            LineKind::Subtitles { list } => {
                lemma_add_labels_keeps_unique(
                    s.known_labels,
                    crate::text::split_by(list, crate::session::subtitle_separator()),
                );
            },
            _ => {},
        }
    }
}

/// A Title event always carries a title other than the last one reported,
/// and becomes the last one reported; every other line leaves the last
/// title as it was, a new playlist item included. So an unchanged title is
/// never reported again.
pub proof fn lemma_title_reported_only_when_changed(s: SessionView, line: Seq<char>)
    ensures
        step(s, line).1 matches Some(Event::Title { title }) ==> title != s.last_title
            && step(s, line).0.last_title == title,
        !(step(s, line).1 matches Some(Event::Title { .. })) ==> step(s, line).0.last_title
            == s.last_title,
{
}

/// A session that is not running reports nothing and changes in nothing,
/// whatever lines come and whether the stream closes or the downloader is
/// killed again.
pub proof fn lemma_stopped_session_is_silent(s: SessionView, lines: Seq<Seq<char>>)
    requires
        s.phase != DownloadPhase::Running,
    ensures
        run(s, lines) == (s, Seq::<Event>::empty()),
        close(s) == (s, None::<Event>),
        cancel(s) == (s, None::<Event>),
    decreases lines.len(),
{
    if lines.len() > 0 {
        lemma_stopped_session_is_silent(s, lines.drop_last());
    }
}

/// Cancelling a running session reports exactly one `Stopped` event, and
/// after it no line, closing or second cancel reports anything.
pub proof fn lemma_cancel_reports_once(s: SessionView, lines: Seq<Seq<char>>)
    requires
        s.phase == DownloadPhase::Running,
    ensures
        cancel(s).1 == Some(Event::Stopped { label: s.current_label, completed: false }),
        run(cancel(s).0, lines).1.len() == 0,
        close(run(cancel(s).0, lines).0).1 is None,
        cancel(run(cancel(s).0, lines).0).1 is None,
{
    lemma_stopped_session_is_silent(cancel(s).0, lines);
}

} // verus!
