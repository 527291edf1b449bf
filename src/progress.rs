//! The progress record that one download line yields, and its parser.
use vstd::prelude::*;
use vstd::string::*;
use crate::text::{ends_with, owned, split_tokens, tokens, views};

verus! {

/// One row of progress for one label; every field is text taken verbatim
/// from the downloader's output, and an empty field means "not reported".
#[derive(Clone, Debug, Default, Eq, PartialEq)]
pub struct DownloadProgress {
    pub size: String,
    pub time: String,
    pub fragmentStatus: String,
    pub label: String,
    pub percentComplete: String,
    pub transferRate: String,
}

/// What a `DownloadProgress` holds, as character sequences.
pub struct ProgressRecord {
    pub size: Seq<char>,
    pub time: Seq<char>,
    pub fragmentStatus: Seq<char>,
    pub label: Seq<char>,
    pub percentComplete: Seq<char>,
    pub transferRate: Seq<char>,
}

impl View for DownloadProgress {
    type V = ProgressRecord;

    open spec fn view(&self) -> ProgressRecord {
        ProgressRecord {
            size: self.size@,
            time: self.time@,
            fragmentStatus: self.fragmentStatus@,
            label: self.label@,
            percentComplete: self.percentComplete@,
            transferRate: self.transferRate@,
        }
    }
}

pub open spec fn empty_record() -> ProgressRecord {
    ProgressRecord {
        size: seq![],
        time: seq![],
        fragmentStatus: seq![],
        label: seq![],
        percentComplete: seq![],
        transferRate: seq![],
    }
}

pub open spec fn complete_mark() -> Seq<char> {
    seq!['1', '0', '0', '%']
}

/// A row at `100%` is finished: nothing moves it again.
pub open spec fn is_finished(r: ProgressRecord) -> bool {
    r.percentComplete == complete_mark()
}

/// A record is worth reporting when it has a percentage, or failing that
/// a size, a time and a rate together.
pub open spec fn is_reportable(r: ProgressRecord) -> bool {
    r.percentComplete.len() > 0 || (r.size.len() > 0 && r.time.len() > 0
        && r.transferRate.len() > 0)
}

/// What one token sets, by its shape. A token of two shapes sets both fields.
pub open spec fn apply_token(r: ProgressRecord, w: Seq<char>) -> ProgressRecord {
    let r1 = if ends_with(w, seq!['%']) {
        ProgressRecord { percentComplete: w, ..r }
    } else {
        r
    };
    let r2 = if ends_with(w, seq!['B']) {
        ProgressRecord { size: w, ..r1 }
    } else {
        r1
    };
    let r3 = if ends_with(w, seq!['B', '/', 's']) {
        ProgressRecord { transferRate: w, ..r2 }
    } else {
        r2
    };
    let r4 = if w.contains(':') {
        ProgressRecord { time: w, ..r3 }
    } else {
        r3
    };
    if ends_with(w, seq![')']) {
        ProgressRecord { fragmentStatus: w.drop_last(), ..r4 }
    } else {
        r4
    }
}

/// The tokens applied left to right: a later token of a shape wins.
pub open spec fn apply_tokens(toks: Seq<Seq<char>>) -> ProgressRecord
    decreases toks.len(),
{
    if toks.len() == 0 {
        empty_record()
    } else {
        apply_token(apply_tokens(toks.drop_last()), toks.last())
    }
}

/// The record that a progress line yields, with no label.
pub open spec fn parse_progress(line: Seq<char>) -> ProgressRecord {
    apply_tokens(tokens(line))
}

pub open spec fn is_percent_token(w: Seq<char>) -> bool {
    ends_with(w, seq!['%'])
}

proof fn lemma_percent_of_tokens(toks: Seq<Seq<char>>)
    ensures
        (forall|j: int| 0 <= j < toks.len() ==> !is_percent_token(#[trigger] toks[j]))
            ==> apply_tokens(toks).percentComplete == Seq::<char>::empty(),
        (exists|j: int| 0 <= j < toks.len() && is_percent_token(#[trigger] toks[j])) ==> exists|
            i: int,
        |
            0 <= i < toks.len() && is_percent_token(#[trigger] toks[i])
                && apply_tokens(toks).percentComplete == toks[i] && forall|j: int|
                i < j < toks.len() ==> !is_percent_token(#[trigger] toks[j]),
    decreases toks.len(),
{
    if toks.len() > 0 {
        let p = toks.drop_last();
        lemma_percent_of_tokens(p);
        let n = toks.len() - 1;
        if is_percent_token(toks[n]) {
            assert(apply_tokens(toks).percentComplete == toks[n]);
        } else {
            assert forall|j: int| 0 <= j < p.len() implies p[j] == toks[j] by {}
            if exists|j: int| 0 <= j < toks.len() && is_percent_token(#[trigger] toks[j]) {
                let j = choose|j: int| 0 <= j < toks.len() && is_percent_token(#[trigger] toks[j]);
                assert(p[j] == toks[j]);
                let i = choose|i: int|
                    0 <= i < p.len() && is_percent_token(#[trigger] p[i])
                        && apply_tokens(p).percentComplete == p[i] && forall|k: int|
                        i < k < p.len() ==> !is_percent_token(#[trigger] p[k]);
                assert(toks[i] == p[i]);
                assert forall|k: int| i < k < toks.len() implies !is_percent_token(
                    #[trigger] toks[k],
                ) by {
                    if k < n {
                        assert(p[k] == toks[k]);
                    }
                }
            } else {
                assert forall|j: int| 0 <= j < p.len() implies !is_percent_token(#[trigger] p[j]) by {
                    assert(p[j] == toks[j]);
                }
            }
        }
    }
}

/// A progress line's percentage is its last token that ends in `%`,
/// verbatim, and is empty where no token does.
pub proof fn lemma_percent_is_last_percent_token(line: Seq<char>)
    ensures
        (forall|j: int| 0 <= j < tokens(line).len() ==> !is_percent_token(#[trigger] tokens(line)[j]))
            ==> parse_progress(line).percentComplete == Seq::<char>::empty(),
        (exists|j: int| 0 <= j < tokens(line).len() && is_percent_token(#[trigger] tokens(line)[j]))
            ==> exists|i: int|
            0 <= i < tokens(line).len() && is_percent_token(#[trigger] tokens(line)[i])
                && parse_progress(line).percentComplete == tokens(line)[i] && forall|j: int|
                i < j < tokens(line).len() ==> !is_percent_token(#[trigger] tokens(line)[j]),
{
    lemma_percent_of_tokens(tokens(line));
}

fn ends_with_char(s: &str, c: char) -> (r: bool)
    ensures
        r == ends_with(s@, seq![c]),
{
    let n = s.unicode_len();
    if n == 0 {
        false
    } else {
        let r = s.get_char(n - 1) == c;
        assert(s@.subrange(n - 1, n as int)[0] == s@[n - 1]);
        assert(r == (s@.subrange(n - 1, n as int) =~= seq![c]));
        r
    }
}

fn ends_with_rate_unit(s: &str) -> (r: bool)
    ensures
        r == ends_with(s@, seq!['B', '/', 's']),
{
    let n = s.unicode_len();
    if n < 3 {
        false
    } else {
        let r = s.get_char(n - 3) == 'B' && s.get_char(n - 2) == '/' && s.get_char(n - 1) == 's';
        assert(r == (s@.subrange(n - 3, n as int) =~= seq!['B', '/', 's']));
        r
    }
}

fn contains_char(s: &str, c: char) -> (r: bool)
    ensures
        r == s@.contains(c),
{
    let n = s.unicode_len();
    let mut i: usize = 0;
    while i < n
        invariant
            n == s@.len(),
            i <= n,
            forall|j: int| 0 <= j < i ==> s@[j] != c,
        decreases n - i,
    {
        if s.get_char(i) == c {
            return true;
        }
        i = i + 1;
    }
    false
}

impl DownloadProgress {
    pub fn empty() -> (r: Self)
        ensures
            r@ == empty_record(),
    {
        DownloadProgress {
            size: String::new(),
            time: String::new(),
            fragmentStatus: String::new(),
            label: String::new(),
            percentComplete: String::new(),
            transferRate: String::new(),
        }
    }

    /// Parses a progress line: each whitespace-separated token sets the
    /// fields whose shape it has (`%` percent, `B` size, `B/s` rate, a `:`
    /// time, a closing `)` fragment status without that parenthesis).
    pub fn parse(line: &str) -> (r: Self)
        ensures
            r@ == parse_progress(line@),
    {
        let toks = split_tokens(line);
        let mut r = DownloadProgress::empty();
        let mut i: usize = 0;
        while i < toks.len()
            invariant
                i <= toks@.len(),
                views(toks@) == tokens(line@),
                r@ == apply_tokens(views(toks@).subrange(0, i as int)),
            decreases toks.len() - i,
        {
            let w = toks[i].as_str();
            assert(views(toks@).subrange(0, i + 1).drop_last() =~= views(toks@).subrange(0, i as int));
            assert(views(toks@).subrange(0, i + 1).last() == w@);
            if ends_with_char(w, '%') {
                r.percentComplete = String::from_str(w);
            }
            if ends_with_char(w, 'B') {
                r.size = String::from_str(w);
            }
            if ends_with_rate_unit(w) {
                r.transferRate = String::from_str(w);
            }
            if contains_char(w, ':') {
                r.time = String::from_str(w);
            }
            if ends_with_char(w, ')') {
                let n = w.unicode_len();
                r.fragmentStatus = owned(w, 0, n - 1);
            }
            i = i + 1;
        }
        assert(views(toks@).subrange(0, toks@.len() as int) =~= views(toks@));
        r
    }

    /// A copy of the record, field by field.
    pub fn duplicate(&self) -> (r: Self)
        ensures
            r@ == self@,
    {
        DownloadProgress {
            size: self.size.clone(),
            time: self.time.clone(),
            fragmentStatus: self.fragmentStatus.clone(),
            label: self.label.clone(),
            percentComplete: self.percentComplete.clone(),
            transferRate: self.transferRate.clone(),
        }
    }

    /// Both records hold the same text in every field.
    pub fn sameAs(&self, other: &Self) -> (r: bool)
        ensures
            r == (self@ == other@),
    {
        self.size == other.size && self.time == other.time && self.fragmentStatus
            == other.fragmentStatus && self.label == other.label && self.percentComplete
            == other.percentComplete && self.transferRate == other.transferRate
    }

    /// Overwrites every field with those of `instance`, unless this record
    /// has finished: a finished record never moves again.
    pub fn update(&mut self, instance: Self)
        ensures
            is_finished(old(self)@) ==> final(self)@ == old(self)@,
            !is_finished(old(self)@) ==> final(self)@ == instance@,
    {
        if self.isFinished() {
            return;
        }
        self.size = instance.size;
        self.time = instance.time;
        self.fragmentStatus = instance.fragmentStatus;
        self.label = instance.label;
        self.percentComplete = instance.percentComplete;
        self.transferRate = instance.transferRate;
    }

    /// The row reads `100%`.
    pub fn isFinished(&self) -> (r: bool)
        ensures
            r == is_finished(self@),
    {
        let p = self.percentComplete.as_str();
        let r = p.unicode_len() == 4 && p.get_char(0) == '1' && p.get_char(1) == '0'
            && p.get_char(2) == '0' && p.get_char(3) == '%';
        assert(r == (p@ =~= complete_mark()));
        r
    }

    /// What a progress bar shows for the row: its value out of 100, and
    /// its caption. A row without a percentage shows a full bar and `?`.
    pub fn barDisplay(&self) -> (r: (String, String))
        ensures
            self@.percentComplete.len() == 0 ==> r.0@ == "100"@ && r.1@ == "?"@,
            self@.percentComplete.len() > 0 ==> r.1@ == self@.percentComplete,
            self@.percentComplete.len() > 0 ==> r.0@ == (if self@.percentComplete.contains('%') {
                self@.percentComplete.drop_last()
            } else {
                "0"@
            }),
    {
        let p = self.percentComplete.as_str();
        let n = p.unicode_len();
        if n == 0 {
            (String::from_str("100"), String::from_str("?"))
        } else if contains_char(p, '%') {
            (owned(p, 0, n - 1), self.percentComplete.clone())
        } else {
            (String::from_str("0"), self.percentComplete.clone())
        }
    }

    pub fn isReportable(&self) -> (r: bool)
        ensures
            r == is_reportable(self@),
    {
        self.percentComplete.unicode_len() > 0 || (self.size.unicode_len() > 0
            && self.time.unicode_len() > 0 && self.transferRate.unicode_len() > 0)
    }
}

} // verus!
