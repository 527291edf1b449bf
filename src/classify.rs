//! The shapes of the downloader's output lines, and the classifier that
//! tells them apart. A line is one line of output without its terminator.
use vstd::prelude::*;
use vstd::string::*;
use crate::text::{digits_value, is_digit, matches_at, occurs_at, owned, parse_digits};

verus! {

pub const DOWNLOAD_TAG: &'static str = "[download]";

pub const DESTINATION_PREFIX: &'static str = "[download] Destination: ";

pub const ALREADY_PREFIX: &'static str = "[download] ";

pub const ALREADY_SUFFIX: &'static str = " has already been downloaded";

pub const PLAYLIST_PREFIX: &'static str = "[download] Downloading item ";

pub const PLAYLIST_SEPARATOR: &'static str = " of ";

pub const INFO_TAG: &'static str = "[info]";

pub const FORMATS_MARKER: &'static str = ": Downloading ";

pub const FORMATS_TAIL: &'static str = " format(s): ";

pub const SUBTITLES_MARKER: &'static str = ": Downloading subtitles: ";

/// What a line announces, as character sequences.
pub enum LineKind {
    Destination { name: Seq<char> },
    AlreadyDownloaded { name: Seq<char> },
    PlaylistItem { current: Option<nat>, max: Option<nat> },
    Progress { rest: Seq<char> },
    Formats { list: Seq<char> },
    Subtitles { list: Seq<char> },
    Ignored,
}

/// What a line announces. A playlist position that does not fit a `usize`
/// is `None`.
pub enum LineClass {
    /// `[download] Destination: <path>`: the file name of the path without
    /// its extension.
    Destination { name: String },
    /// `[download] <path> has already been downloaded`.
    AlreadyDownloaded { name: String },
    /// `[download] Downloading item <current> of <max>`.
    PlaylistItem { current: Option<usize>, max: Option<usize> },
    /// Any other `[download]` line: the text after the tag.
    Progress { rest: String },
    /// `[info] ...: Downloading <n> format(s): <list>`.
    Formats { list: String },
    /// `[info] ...: Downloading subtitles: <list>`.
    Subtitles { list: String },
    Ignored,
}

pub open spec fn count_view(c: Option<usize>) -> Option<nat> {
    match c {
        Some(v) => Some(v as nat),
        None => None,
    }
}

impl View for LineClass {
    type V = LineKind;

    open spec fn view(&self) -> LineKind {
        match self {
            LineClass::Destination { name } => LineKind::Destination { name: name@ },
            LineClass::AlreadyDownloaded { name } => LineKind::AlreadyDownloaded { name: name@ },
            LineClass::PlaylistItem { current, max } => LineKind::PlaylistItem {
                current: count_view(*current),
                max: count_view(*max),
            },
            LineClass::Progress { rest } => LineKind::Progress { rest: rest@ },
            LineClass::Formats { list } => LineKind::Formats { list: list@ },
            LineClass::Subtitles { list } => LineKind::Subtitles { list: list@ },
            LineClass::Ignored => LineKind::Ignored,
        }
    }
}

/// The largest index below `hi` that holds `a` or `b`, or -1.
pub open spec fn last_index(s: Seq<char>, hi: int, a: char, b: char) -> int
    decreases hi,
{
    if hi <= 0 {
        -1
    } else if s[hi - 1] == a || s[hi - 1] == b {
        hi - 1
    } else {
        last_index(s, hi - 1, a, b)
    }
}

/// The file name of `path` without directories and extension: the text
/// between the last `/` or `\` and the last `.` that has at least three
/// characters after it. `None` where no such `.` exists.
pub open spec fn file_stem(path: Seq<char>) -> Option<Seq<char>> {
    let d = last_index(path, path.len() - 3, '.', '.');
    if d < 0 {
        None
    } else {
        Some(path.subrange(last_index(path, d, '/', '\\') + 1, d))
    }
}

/// The end of the run of decimal digits that starts at `i`.
pub open spec fn digit_run_end(s: Seq<char>, i: int) -> int
    decreases s.len() - i,
{
    if 0 <= i < s.len() && is_digit(s[i]) {
        digit_run_end(s, i + 1)
    } else {
        i
    }
}

pub open spec fn fits(n: nat) -> Option<nat> {
    if n <= usize::MAX {
        Some(n)
    } else {
        None
    }
}

pub open spec fn destination_name(line: Seq<char>) -> Option<Seq<char>> {
    let p = DESTINATION_PREFIX@;
    if p.is_prefix_of(line) {
        file_stem(line.subrange(p.len() as int, line.len() as int))
    } else {
        None
    }
}

pub open spec fn already_downloaded_name(line: Seq<char>) -> Option<Seq<char>> {
    let p = ALREADY_PREFIX@;
    let q = ALREADY_SUFFIX@;
    if p.len() + q.len() <= line.len() && p.is_prefix_of(line) && q.is_suffix_of(line) {
        file_stem(line.subrange(p.len() as int, line.len() - q.len()))
    } else {
        None
    }
}

/// `(current, max)` of a playlist line: two runs of digits, each as long
/// as it goes, around ` of `.
pub open spec fn playlist_counts(line: Seq<char>) -> Option<(Seq<char>, Seq<char>)> {
    let p = PLAYLIST_PREFIX@;
    let a = p.len() as int;
    let e1 = digit_run_end(line, a);
    let b = e1 + PLAYLIST_SEPARATOR@.len();
    let e2 = digit_run_end(line, b);
    if p.is_prefix_of(line) && e1 > a && occurs_at(line, e1, PLAYLIST_SEPARATOR@) && e2 > b {
        Some((line.subrange(a, e1), line.subrange(b, e2)))
    } else {
        None
    }
}

/// A formats announcement's marker at `j`, followed by at least one
/// character of list.
pub open spec fn formats_at(line: Seq<char>, j: int) -> bool {
    let d = j + FORMATS_MARKER@.len();
    let e = digit_run_end(line, d);
    occurs_at(line, j, FORMATS_MARKER@) && e > d && occurs_at(line, e, FORMATS_TAIL@) && e
        + FORMATS_TAIL@.len() < line.len()
}

pub open spec fn formats_list_start(line: Seq<char>, j: int) -> int {
    digit_run_end(line, j + FORMATS_MARKER@.len()) + FORMATS_TAIL@.len()
}

pub open spec fn subtitles_at(line: Seq<char>, j: int) -> bool {
    occurs_at(line, j, SUBTITLES_MARKER@) && j + SUBTITLES_MARKER@.len() < line.len()
}

/// The last marker position at or after the tag and below `hi`, or -1:
/// the text between the tag and the marker is as long as it can be.
pub open spec fn last_formats_at(line: Seq<char>, hi: int) -> int
    decreases hi,
{
    if hi <= INFO_TAG@.len() {
        -1
    } else if formats_at(line, hi - 1) {
        hi - 1
    } else {
        last_formats_at(line, hi - 1)
    }
}

pub open spec fn last_subtitles_at(line: Seq<char>, hi: int) -> int
    decreases hi,
{
    if hi <= INFO_TAG@.len() {
        -1
    } else if subtitles_at(line, hi - 1) {
        hi - 1
    } else {
        last_subtitles_at(line, hi - 1)
    }
}

/// The classification of one line. `[download]` lines are tried as a
/// destination, then as already downloaded, then as a playlist position,
/// and are otherwise progress; `[info]` lines as formats, then subtitles.
pub open spec fn classify(line: Seq<char>) -> LineKind {
    if DOWNLOAD_TAG@.is_prefix_of(line) {
        if destination_name(line) is Some {
            LineKind::Destination { name: destination_name(line)->0 }
        } else if already_downloaded_name(line) is Some {
            LineKind::AlreadyDownloaded { name: already_downloaded_name(line)->0 }
        } else if playlist_counts(line) is Some {
            let (a, b) = playlist_counts(line)->0;
            LineKind::PlaylistItem { current: fits(digits_value(a)), max: fits(digits_value(b)) }
        } else {
            LineKind::Progress { rest: line.subrange(DOWNLOAD_TAG@.len() as int, line.len() as int) }
        }
    } else if INFO_TAG@.is_prefix_of(line) {
        let f = last_formats_at(line, line.len() as int);
        let s = last_subtitles_at(line, line.len() as int);
        if f >= 0 {
            LineKind::Formats { list: line.subrange(formats_list_start(line, f), line.len() as int) }
        } else if s >= 0 {
            LineKind::Subtitles {
                list: line.subrange(s + SUBTITLES_MARKER@.len(), line.len() as int),
            }
        } else {
            LineKind::Ignored
        }
    } else {
        LineKind::Ignored
    }
}

fn last_index_of(s: &str, hi: usize, a: char, b: char) -> (r: Option<usize>)
    requires
        hi <= s@.len(),
    ensures
        (match r {
            Some(i) => i as int,
            None => -1,
        }) == last_index(s@, hi as int, a, b),
        r matches Some(i) ==> i < hi,
{
    let mut k = hi;
    while k > 0
        invariant
            k <= hi <= s@.len(),
            last_index(s@, hi as int, a, b) == last_index(s@, k as int, a, b),
        decreases k,
    {
        let c = s.get_char(k - 1);
        if c == a || c == b {
            return Some(k - 1);
        }
        k = k - 1;
    }
    None
}

fn stem_of(path: &str) -> (r: Option<String>)
    ensures
        r.deep_view() == file_stem(path@),
{
    let n = path.unicode_len();
    if n <= 3 {
        return None;
    }
    match last_index_of(path, n - 3, '.', '.') {
        None => None,
        Some(d) => {
            let from = match last_index_of(path, d, '/', '\\') {
                Some(i) => i + 1,
                None => 0,
            };
            Some(owned(path, from, d))
        },
    }
}

fn digit_run_from(s: &str, i: usize) -> (r: usize)
    requires
        i <= s@.len(),
    ensures
        r as int == digit_run_end(s@, i as int),
        i <= r <= s@.len(),
        forall|j: int| i <= j < r ==> is_digit(#[trigger] s@[j]),
{
    let n = s.unicode_len();
    let mut k = i;
    while k < n && is_ascii_digit(s.get_char(k))
        invariant
            i <= k <= n,
            n == s@.len(),
            digit_run_end(s@, i as int) == digit_run_end(s@, k as int),
            forall|j: int| i <= j < k ==> is_digit(#[trigger] s@[j]),
        decreases n - k,
    {
        k = k + 1;
    }
    k
}

fn is_ascii_digit(c: char) -> (r: bool)
    ensures
        r == is_digit(c),
{
    '0' <= c && c <= '9'
}

fn has_prefix(s: &str, p: &str) -> (r: bool)
    ensures
        r == p@.is_prefix_of(s@),
{
    let r = matches_at(s, 0, p);
    assert(r == (p@.len() <= s@.len() && p@ =~= s@.subrange(0, p@.len() as int)));
    r
}

fn destination(line: &str) -> (r: Option<String>)
    ensures
        r.deep_view() == destination_name(line@),
{
    if has_prefix(line, DESTINATION_PREFIX) {
        let path = owned(line, DESTINATION_PREFIX.unicode_len(), line.unicode_len());
        stem_of(path.as_str())
    } else {
        None
    }
}

fn already_downloaded(line: &str) -> (r: Option<String>)
    ensures
        r.deep_view() == already_downloaded_name(line@),
{
    let n = line.unicode_len();
    let a = ALREADY_PREFIX.unicode_len();
    let b = ALREADY_SUFFIX.unicode_len();
    if a <= n && b <= n - a && has_prefix(line, ALREADY_PREFIX) && matches_at(
        line,
        n - b,
        ALREADY_SUFFIX,
    ) {
        assert(ALREADY_SUFFIX@.is_suffix_of(line@));
        let path = owned(line, a, n - b);
        stem_of(path.as_str())
    } else {
        proof {
            if a <= n && b <= n - a && ALREADY_PREFIX@.is_prefix_of(line@)
                && ALREADY_SUFFIX@.is_suffix_of(line@) {
                assert(occurs_at(line@, n - b, ALREADY_SUFFIX@));
            }
        }
        None
    }
}

fn playlist_item(line: &str) -> (r: Option<(Option<usize>, Option<usize>)>)
    ensures
        match (playlist_counts(line@), r) {
            (Some((a, b)), Some((c, m))) => count_view(c) == fits(digits_value(a)) && count_view(m)
                == fits(digits_value(b)),
            (None, None) => true,
            _ => false,
        },
{
    let n = line.unicode_len();
    if !has_prefix(line, PLAYLIST_PREFIX) {
        return None;
    }
    let a = PLAYLIST_PREFIX.unicode_len();
    let e1 = digit_run_from(line, a);
    if e1 == a || !matches_at(line, e1, PLAYLIST_SEPARATOR) {
        return None;
    }
    let b = e1 + PLAYLIST_SEPARATOR.unicode_len();
    let e2 = digit_run_from(line, b);
    if e2 == b {
        return None;
    }
    let current = parse_digits(line, a, e1);
    let max = parse_digits(line, b, e2);
    Some((current, max))
}

fn formats_marker_at(line: &str, j: usize) -> (r: bool)
    requires
        j <= line@.len(),
    ensures
        r == formats_at(line@, j as int),
{
    let n = line.unicode_len();
    if !matches_at(line, j, FORMATS_MARKER) {
        return false;
    }
    let d = j + FORMATS_MARKER.unicode_len();
    let e = digit_run_from(line, d);
    e > d && matches_at(line, e, FORMATS_TAIL) && e + FORMATS_TAIL.unicode_len() < n
}

fn last_formats(line: &str) -> (r: Option<usize>)
    ensures
        (match r {
            Some(j) => j as int,
            None => -1,
        }) == last_formats_at(line@, line@.len() as int),
        r matches Some(j) ==> formats_at(line@, j as int),
{
    let n = line.unicode_len();
    let t = INFO_TAG.unicode_len();
    let mut k = n;
    while k > t
        invariant
            t == INFO_TAG@.len(),
            k <= n == line@.len(),
            last_formats_at(line@, n as int) == last_formats_at(line@, k as int),
        decreases k,
    {
        if formats_marker_at(line, k - 1) {
            return Some(k - 1);
        }
        k = k - 1;
    }
    None
}

fn last_subtitles(line: &str) -> (r: Option<usize>)
    ensures
        (match r {
            Some(j) => j as int,
            None => -1,
        }) == last_subtitles_at(line@, line@.len() as int),
        r matches Some(j) ==> subtitles_at(line@, j as int),
{
    let n = line.unicode_len();
    let t = INFO_TAG.unicode_len();
    let m = SUBTITLES_MARKER.unicode_len();
    let mut k = n;
    while k > t
        invariant
            t == INFO_TAG@.len(),
            m == SUBTITLES_MARKER@.len(),
            k <= n == line@.len(),
            last_subtitles_at(line@, n as int) == last_subtitles_at(line@, k as int),
        decreases k,
    {
        if matches_at(line, k - 1, SUBTITLES_MARKER) && k - 1 + m < n {
            return Some(k - 1);
        }
        k = k - 1;
    }
    None
}

/// Classifies one line of the downloader's standard output.
pub fn classifyLine(line: &str) -> (r: LineClass)
    ensures
        r@ == classify(line@),
{
    let n = line.unicode_len();
    if has_prefix(line, DOWNLOAD_TAG) {
        if let Some(name) = destination(line) {
            return LineClass::Destination { name };
        }
        if let Some(name) = already_downloaded(line) {
            return LineClass::AlreadyDownloaded { name };
        }
        if let Some((current, max)) = playlist_item(line) {
            return LineClass::PlaylistItem { current, max };
        }
        LineClass::Progress { rest: owned(line, DOWNLOAD_TAG.unicode_len(), n) }
    } else if has_prefix(line, INFO_TAG) {
        if let Some(j) = last_formats(line) {
            let start = digit_run_from(line, j + FORMATS_MARKER.unicode_len())
                + FORMATS_TAIL.unicode_len();
            return LineClass::Formats { list: owned(line, start, n) };
        }
        if let Some(j) = last_subtitles(line) {
            return LineClass::Subtitles {
                list: owned(line, j + SUBTITLES_MARKER.unicode_len(), n),
            };
        }
        LineClass::Ignored
    } else {
        LineClass::Ignored
    }
}

} // verus!
