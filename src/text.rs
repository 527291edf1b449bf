//! Character-level helpers over `str` and `String`, each with the
//! sequence-of-characters statement it meets.
use vstd::prelude::*;
use vstd::string::*;

verus! {

/// The characters that Unicode classes as `White_Space`, which is the set
/// that `char::is_whitespace` and `str::split_whitespace` use.
pub open spec fn is_space(c: char) -> bool {
    let u = c as u32;
    (0x09 <= u && u <= 0x0D) || u == 0x20 || u == 0x85 || u == 0xA0 || u == 0x1680
        || (0x2000 <= u && u <= 0x200A) || u == 0x2028 || u == 0x2029 || u == 0x202F
        || u == 0x205F || u == 0x3000
}

pub fn is_space_char(c: char) -> (r: bool)
    ensures
        r == is_space(c),
{
    let u = c as u32;
    (0x09 <= u && u <= 0x0D) || u == 0x20 || u == 0x85 || u == 0xA0 || u == 0x1680
        || (0x2000 <= u && u <= 0x200A) || u == 0x2028 || u == 0x2029 || u == 0x202F
        || u == 0x205F || u == 0x3000
}

/// `p` occurs in `s` starting at index `i`.
pub open spec fn occurs_at(s: Seq<char>, i: int, p: Seq<char>) -> bool {
    0 <= i && i + p.len() <= s.len() && s.subrange(i, i + p.len()) == p
}

pub fn matches_at(s: &str, i: usize, p: &str) -> (r: bool)
    ensures
        r == occurs_at(s@, i as int, p@),
{
    let n = s.unicode_len();
    let m = p.unicode_len();
    if i > n || m > n - i {
        return false;
    }
    let mut k: usize = 0;
    while k < m
        invariant
            i + m <= n,
            n == s@.len(),
            m == p@.len(),
            k <= m,
            forall|j: int| 0 <= j < k ==> s@[i + j] == p@[j],
        decreases m - k,
    {
        if s.get_char(i + k) != p.get_char(k) {
            return false;
        }
        k = k + 1;
    }
    assert(s@.subrange(i as int, i + m) =~= p@);
    true
}

/// The characters of `s` from `from` up to `to`, as an owned string.
pub fn owned(s: &str, from: usize, to: usize) -> (r: String)
    requires
        from <= to <= s@.len(),
    ensures
        r@ == s@.subrange(from as int, to as int),
{
    String::from_str(s.substring_char(from, to))
}

pub open spec fn views(v: Seq<String>) -> Seq<Seq<char>> {
    v.map_values(|t: String| t@)
}

/// The maximal runs of non-space characters of `s`, in order: what
/// `str::split_whitespace` yields. Stated over the last character, so
/// that a run grows by one character at a time.
pub open spec fn tokens(s: Seq<char>) -> Seq<Seq<char>>
    decreases s.len(),
{
    if s.len() == 0 {
        seq![]
    } else {
        let p = s.drop_last();
        let c = s.last();
        let t = tokens(p);
        if is_space(c) {
            t
        } else if p.len() == 0 || is_space(p.last()) {
            t.push(seq![c])
        } else {
            t.update(t.len() - 1, t.last().push(c))
        }
    }
}

/// Splits `s` into its whitespace-separated tokens.
pub fn split_tokens(s: &str) -> (r: Vec<String>)
    ensures
        views(r@) == tokens(s@),
{
    let n = s.unicode_len();
    let mut toks: Vec<String> = Vec::new();
    let mut start: usize = 0;
    let mut inside = false;
    let mut i: usize = 0;
    while i < n
        invariant
            n == s@.len(),
            i <= n,
            inside == (i > 0 && !is_space(s@[i - 1])),
            inside ==> start < i,
            inside ==> views(toks@).push(s@.subrange(start as int, i as int)) == tokens(
                s@.subrange(0, i as int),
            ),
            !inside ==> views(toks@) == tokens(s@.subrange(0, i as int)),
        decreases n - i,
    {
        let c = s.get_char(i);
        let ghost pre = s@.subrange(0, i as int);
        let ghost cur = s@.subrange(0, i + 1);
        assert(cur.drop_last() =~= pre);
        assert(cur.last() == c);
        if is_space_char(c) {
            if inside {
                let t = owned(s, start, i);
                toks.push(t);
                assert(views(toks@) =~= tokens(pre));
            } else {
                assert(views(toks@) =~= tokens(pre));
            }
            inside = false;
        } else {
            if inside {
                assert(pre.last() == s@[i - 1]);
                assert(s@.subrange(start as int, i + 1) =~= s@.subrange(start as int, i as int).push(c));
                assert(views(toks@).push(s@.subrange(start as int, i + 1)) =~= tokens(cur));
            } else {
                start = i;
                assert(s@.subrange(start as int, i + 1) =~= seq![c]);
                assert(views(toks@).push(s@.subrange(start as int, i + 1)) =~= tokens(cur));
                inside = true;
            }
        }
        i = i + 1;
    }
    assert(s@.subrange(0, n as int) =~= s@);
    if inside {
        let t = owned(s, start, n);
        toks.push(t);
        assert(views(toks@) =~= tokens(s@));
    }
    toks
}

pub open spec fn ends_with(s: Seq<char>, p: Seq<char>) -> bool {
    p.len() <= s.len() && s.subrange(s.len() - p.len(), s.len() as int) == p
}

pub fn ends_with_str(s: &str, p: &str) -> (r: bool)
    ensures
        r == ends_with(s@, p@),
{
    let n = s.unicode_len();
    let m = p.unicode_len();
    if m > n {
        false
    } else {
        matches_at(s, n - m, p)
    }
}

/// The pieces of `s` between occurrences of `sep`, found from the left
/// without overlap, empty pieces included: what `str::split` yields.
/// Stated over the last character: a piece ends as soon as it ends with `sep`.
pub open spec fn split_by(s: Seq<char>, sep: Seq<char>) -> Seq<Seq<char>>
    decreases s.len(),
{
    if s.len() == 0 {
        seq![seq![]]
    } else {
        let t = split_by(s.drop_last(), sep);
        let piece = t.last().push(s.last());
        if sep.len() > 0 && ends_with(piece, sep) {
            t.update(t.len() - 1, piece.subrange(0, piece.len() - sep.len())).push(seq![])
        } else {
            t.update(t.len() - 1, piece)
        }
    }
}

pub proof fn lemma_split_by_nonempty(s: Seq<char>, sep: Seq<char>)
    ensures
        split_by(s, sep).len() > 0,
    decreases s.len(),
{
    if s.len() > 0 {
        lemma_split_by_nonempty(s.drop_last(), sep);
    }
}

/// Splits `s` at each occurrence of the non-empty separator `sep`.
pub fn split_at_each(s: &str, sep: &str) -> (r: Vec<String>)
    requires
        sep@.len() > 0,
    ensures
        views(r@) == split_by(s@, sep@),
{
    let n = s.unicode_len();
    let m = sep.unicode_len();
    let mut pieces: Vec<String> = Vec::new();
    let mut start: usize = 0;
    let mut i: usize = 0;
    assert(s@.subrange(0, 0) =~= Seq::<char>::empty());
    assert(views(pieces@).push(s@.subrange(0, 0)) =~= split_by(s@.subrange(0, 0), sep@));
    while i < n
        invariant
            n == s@.len(),
            m == sep@.len(),
            m > 0,
            start <= i <= n,
            views(pieces@).push(s@.subrange(start as int, i as int)) == split_by(
                s@.subrange(0, i as int),
                sep@,
            ),
        decreases n - i,
    {
        let ghost pre = s@.subrange(0, i as int);
        let ghost cur = s@.subrange(0, i + 1);
        assert(cur.drop_last() =~= pre);
        assert(cur.last() == s@[i as int]);
        proof {
            lemma_split_by_nonempty(pre, sep@);
        }
        let ghost piece = s@.subrange(start as int, i + 1);
        assert(piece =~= s@.subrange(start as int, i as int).push(s@[i as int]));
        let len = i + 1 - start;
        if len >= m && matches_at(s, i + 1 - m, sep) {
            assert(piece.subrange(piece.len() - m, piece.len() as int) =~= s@.subrange(
                i + 1 - m,
                i + 1,
            ));
            let t = owned(s, start, i + 1 - m);
            assert(piece.subrange(0, piece.len() - m) =~= t@);
            pieces.push(t);
            start = i + 1;
            assert(s@.subrange(start as int, start as int) =~= Seq::<char>::empty());
            assert(views(pieces@).push(s@.subrange(start as int, i + 1)) =~= split_by(cur, sep@));
        } else {
            assert(!ends_with(piece, sep@)) by {
                if len >= m {
                    assert(piece.subrange(piece.len() - m, piece.len() as int) =~= s@.subrange(
                        i + 1 - m,
                        i + 1,
                    ));
                }
            }
            assert(views(pieces@).push(s@.subrange(start as int, i + 1)) =~= split_by(cur, sep@));
        }
        i = i + 1;
    }
    assert(s@.subrange(0, n as int) =~= s@);
    let t = owned(s, start, n);
    pieces.push(t);
    pieces
}

pub open spec fn is_digit(c: char) -> bool {
    '0' as u32 <= c as u32 && c as u32 <= '9' as u32
}

pub open spec fn digit_value(c: char) -> nat {
    (c as u32 - '0' as u32) as nat
}

/// The number that a run of decimal digits denotes.
pub open spec fn digits_value(s: Seq<char>) -> nat
    decreases s.len(),
{
    if s.len() == 0 {
        0
    } else {
        digits_value(s.drop_last()) * 10 + digit_value(s.last())
    }
}

pub proof fn lemma_digits_value_grows(s: Seq<char>, k: int)
    requires
        0 <= k <= s.len(),
    ensures
        digits_value(s.subrange(0, k)) <= digits_value(s),
    decreases s.len() - k,
{
    if k < s.len() {
        lemma_digits_value_grows(s, k + 1);
        assert(s.subrange(0, k + 1).drop_last() =~= s.subrange(0, k));
    } else {
        assert(s.subrange(0, k) =~= s);
    }
}

/// The value of the digits of `s` from `from` up to `to`, where it fits in
/// a `usize`.
pub fn parse_digits(s: &str, from: usize, to: usize) -> (r: Option<usize>)
    requires
        from <= to <= s@.len(),
        forall|j: int| from <= j < to ==> is_digit(#[trigger] s@[j]),
    ensures
        r is Some <==> digits_value(s@.subrange(from as int, to as int)) <= usize::MAX,
        r matches Some(v) ==> v == digits_value(s@.subrange(from as int, to as int)),
{
    let ghost whole = s@.subrange(from as int, to as int);
    let mut v: usize = 0;
    let mut i: usize = from;
    assert(whole.subrange(0, 0) =~= Seq::<char>::empty());
    while i < to
        invariant
            from <= i <= to,
            to <= s@.len(),
            whole == s@.subrange(from as int, to as int),
            forall|j: int| from <= j < to ==> is_digit(#[trigger] s@[j]),
            v == digits_value(whole.subrange(0, i - from)),
        decreases to - i,
    {
        let c = s.get_char(i);
        assert(is_digit(s@[i as int]));
        let d = (c as u32 - '0' as u32) as usize;
        assert(whole.subrange(0, i + 1 - from).drop_last() =~= whole.subrange(0, i - from));
        assert(whole.subrange(0, i + 1 - from).last() == c);
        proof {
            lemma_digits_value_grows(whole, i + 1 - from);
        }
        match v.checked_mul(10) {
            None => {
                return None;
            },
            Some(t) => match t.checked_add(d) {
                None => {
                    return None;
                },
                Some(u) => {
                    v = u;
                },
            },
        }
        i = i + 1;
    }
    assert(whole.subrange(0, to - from) =~= whole);
    Some(v)
}

pub open spec fn digit_char(d: nat) -> char {
    if d == 0 {
        '0'
    } else if d == 1 {
        '1'
    } else if d == 2 {
        '2'
    } else if d == 3 {
        '3'
    } else if d == 4 {
        '4'
    } else if d == 5 {
        '5'
    } else if d == 6 {
        '6'
    } else if d == 7 {
        '7'
    } else if d == 8 {
        '8'
    } else {
        '9'
    }
}

/// The decimal digits of `n`, most significant first, without leading zeros.
pub open spec fn decimal(n: nat) -> Seq<char>
    decreases n,
{
    if n < 10 {
        seq![digit_char(n)]
    } else {
        decimal(n / 10).push(digit_char(n % 10))
    }
}

fn digit_str(d: u64) -> (r: &'static str)
    requires
        d < 10,
    ensures
        r@ == seq![digit_char(d as nat)],
{
    if d == 0 {
        proof { reveal_strlit("0"); }
        "0"
    } else if d == 1 {
        proof { reveal_strlit("1"); }
        "1"
    } else if d == 2 {
        proof { reveal_strlit("2"); }
        "2"
    } else if d == 3 {
        proof { reveal_strlit("3"); }
        "3"
    } else if d == 4 {
        proof { reveal_strlit("4"); }
        "4"
    } else if d == 5 {
        proof { reveal_strlit("5"); }
        "5"
    } else if d == 6 {
        proof { reveal_strlit("6"); }
        "6"
    } else if d == 7 {
        proof { reveal_strlit("7"); }
        "7"
    } else if d == 8 {
        proof { reveal_strlit("8"); }
        "8"
    } else {
        proof { reveal_strlit("9"); }
        "9"
    }
}

/// Writes `n` in decimal.
pub fn decimal_string(n: u64) -> (r: String)
    ensures
        r@ == decimal(n as nat),
{
    let mut m: u64 = n / 10;
    let mut acc = String::from_str(digit_str(n % 10));
    while m > 0
        invariant
            m > 0 ==> decimal(n as nat) == decimal(m as nat) + acc@,
            m == 0 ==> decimal(n as nat) == acc@,
        decreases m,
    {
        let d = m % 10;
        let ghost old_acc = acc@;
        let next = String::from_str(digit_str(d)).concat(acc.as_str());
        acc = next;
        if m >= 10 {
            assert(decimal(m as nat) == decimal((m / 10) as nat).push(digit_char((m % 10) as nat)));
            assert(decimal(m as nat) + old_acc =~= decimal((m / 10) as nat) + acc@);
        } else {
            assert(decimal(m as nat) + old_acc =~= acc@);
        }
        m = m / 10;
    }
    acc
}

} // verus!
