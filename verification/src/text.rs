//! Character-level text handling: Unicode whitespace, trimming, splitting on a
//! delimiter and splitting once at the first occurrence of a character, with
//! the meaning of `str::trim`, `str::split` and `str::split_once`.
use vstd::prelude::*;

verus! {

broadcast use vstd::string::group_string_axioms;

/// The characters with the Unicode `White_Space` property, which is what
/// `char::is_whitespace` (and so `str::trim`) tests.
pub open spec fn is_whitespace(c: char) -> bool {
    ||| c == '\t' || c == '\n' || c == '\u{0B}' || c == '\u{0C}' || c == '\r'
    ||| c == ' ' || c == '\u{85}' || c == '\u{A0}' || c == '\u{1680}'
    ||| ('\u{2000}' <= c && c <= '\u{200A}')
    ||| c == '\u{2028}' || c == '\u{2029}' || c == '\u{202F}' || c == '\u{205F}'
    ||| c == '\u{3000}'
}

/// `s` without its leading whitespace.
pub open spec fn trim_start(s: Seq<char>) -> Seq<char>
    decreases s.len(),
{
    if s.len() > 0 && is_whitespace(s[0]) {
        trim_start(s.drop_first())
    } else {
        s
    }
}

/// `s` without its trailing whitespace.
pub open spec fn trim_end(s: Seq<char>) -> Seq<char>
    decreases s.len(),
{
    if s.len() > 0 && is_whitespace(s.last()) {
        trim_end(s.drop_last())
    } else {
        s
    }
}

/// `s` without leading and trailing whitespace.
pub open spec fn trim(s: Seq<char>) -> Seq<char> {
    trim_end(trim_start(s))
}

/// The pieces of `s` between occurrences of `d`, in order; an empty `s`
/// gives one empty piece, and a delimiter at either end gives an empty piece
/// there.
pub open spec fn split_on(s: Seq<char>, d: char) -> Seq<Seq<char>>
    decreases s.len(),
{
    if s.len() == 0 {
        seq![Seq::<char>::empty()]
    } else {
        let prev = split_on(s.drop_last(), d);
        if s.last() == d {
            prev.push(Seq::<char>::empty())
        } else {
            prev.update(prev.len() - 1, prev.last().push(s.last()))
        }
    }
}

/// `s` cut at the first occurrence of `d`, which is dropped; `None` when `d`
/// does not occur.
pub open spec fn split_once(s: Seq<char>, d: char) -> Option<(Seq<char>, Seq<char>)> {
    match s.index_of_first(d) {
        Some(i) => Some((s.take(i), s.skip(i + 1))),
        None => None,
    }
}

pub proof fn lemma_split_on_nonempty(s: Seq<char>, d: char)
    ensures
        split_on(s, d).len() >= 1,
    decreases s.len(),
{
    if s.len() > 0 {
        lemma_split_on_nonempty(s.drop_last(), d);
    }
}

pub proof fn lemma_trim_start_skip(s: Seq<char>, lo: int)
    requires
        0 <= lo <= s.len(),
        forall|k: int| 0 <= k < lo ==> is_whitespace(#[trigger] s[k]),
        lo < s.len() ==> !is_whitespace(s[lo]),
    ensures
        trim_start(s) == s.skip(lo),
    decreases lo,
{
    if lo == 0 {
        assert(s.skip(0) =~= s);
    } else {
        let t = s.drop_first();
        assert forall|k: int| 0 <= k < lo - 1 implies is_whitespace(#[trigger] t[k]) by {
            assert(t[k] == s[k + 1]);
        }
        lemma_trim_start_skip(t, lo - 1);
        assert(t.skip(lo - 1) =~= s.skip(lo));
    }
}

pub proof fn lemma_trim_end_take(s: Seq<char>, hi: int)
    requires
        0 <= hi <= s.len(),
        forall|k: int| hi <= k < s.len() ==> is_whitespace(#[trigger] s[k]),
        hi > 0 ==> !is_whitespace(s[hi - 1]),
    ensures
        trim_end(s) == s.take(hi),
    decreases s.len() - hi,
{
    if hi == s.len() {
        assert(s.take(hi) =~= s);
    } else {
        let t = s.drop_last();
        assert forall|k: int| hi <= k < t.len() implies is_whitespace(#[trigger] t[k]) by {
            assert(t[k] == s[k]);
        }
        lemma_trim_end_take(t, hi);
        assert(t.take(hi) =~= s.take(hi));
    }
}

/// The bounds of `chars[start..end]` once whitespace is trimmed from both ends.
pub fn trim_bounds(chars: &Vec<char>, start: usize, end: usize) -> (r: (usize, usize))
    requires
        start <= end <= chars.len(),
    ensures
        start <= r.0 <= r.1 <= end,
        chars@.subrange(r.0 as int, r.1 as int) == trim(chars@.subrange(start as int, end as int)),
{
    let ghost piece = chars@.subrange(start as int, end as int);
    let mut lo = start;
    while lo < end && is_whitespace_char(chars[lo])
        invariant
            start <= lo <= end <= chars.len(),
            forall|k: int| start <= k < lo ==> is_whitespace(#[trigger] chars@[k]),
        decreases end - lo,
    {
        lo = lo + 1;
    }
    proof {
        assert forall|k: int| 0 <= k < lo - start implies is_whitespace(#[trigger] piece[k]) by {
            assert(piece[k] == chars@[start + k]);
        }
        lemma_trim_start_skip(piece, lo - start);
    }
    let ghost rest = piece.skip(lo - start);
    assert(rest =~= chars@.subrange(lo as int, end as int));
    let mut hi = end;
    while hi > lo && is_whitespace_char(chars[hi - 1])
        invariant
            start <= lo <= hi <= end <= chars.len(),
            forall|k: int| hi <= k < end ==> is_whitespace(#[trigger] chars@[k]),
        decreases hi - lo,
    {
        hi = hi - 1;
    }
    proof {
        assert forall|k: int| hi - lo <= k < rest.len() implies is_whitespace(#[trigger] rest[k]) by {
            assert(rest[k] == chars@[lo + k]);
        }
        lemma_trim_end_take(rest, hi - lo);
        assert(rest.take(hi - lo) =~= chars@.subrange(lo as int, hi as int));
    }
    (lo, hi)
}

/// Executable form of [`is_whitespace`].
pub fn is_whitespace_char(c: char) -> (r: bool)
    ensures
        r == is_whitespace(c),
{
    c == '\t' || c == '\n' || c == '\u{0B}' || c == '\u{0C}' || c == '\r' || c == ' '
        || c == '\u{85}' || c == '\u{A0}' || c == '\u{1680}' || ('\u{2000}' <= c && c <= '\u{200A}')
        || c == '\u{2028}' || c == '\u{2029}' || c == '\u{202F}' || c == '\u{205F}'
        || c == '\u{3000}'
}

/// The position of the first `d` in `chars[lo..hi]`, counted from the start
/// of `chars`.
pub fn find_first(chars: &Vec<char>, lo: usize, hi: usize, d: char) -> (r: Option<usize>)
    requires
        lo <= hi <= chars.len(),
    ensures
        match r {
            Some(j) => lo <= j < hi && chars@.subrange(lo as int, hi as int).index_of_first(d)
                == Some(j - lo),
            None => chars@.subrange(lo as int, hi as int).index_of_first(d) is None,
        },
{
    let ghost piece = chars@.subrange(lo as int, hi as int);
    proof {
        piece.index_of_first_ensures(d);
    }
    let mut j = lo;
    while j < hi
        invariant
            lo <= j <= hi <= chars.len(),
            piece == chars@.subrange(lo as int, hi as int),
            forall|k: int| lo <= k < j ==> chars@[k] != d,
        decreases hi - j,
    {
        if chars[j] == d {
            proof {
                piece.index_of_first_ensures(d);
                assert(piece[j - lo] == d);
                assert(piece.contains(d));
                match piece.index_of_first(d) {
                    Some(i) => {
                        if i < j - lo {
                            assert(piece[i] == chars@[lo + i]);
                        }
                    },
                    None => {},
                }
            }
            return Some(j);
        }
        j = j + 1;
    }
    proof {
        if piece.contains(d) {
            let i = choose|i: int| 0 <= i < piece.len() && piece[i] == d;
            assert(piece[i] == chars@[lo + i]);
        }
    }
    None
}

/// Splitting at a delimiter placed between two texts splits each text on
/// its own.
pub proof fn lemma_split_concat(a: Seq<char>, b: Seq<char>, d: char)
    ensures
        split_on(a + seq![d] + b, d) == split_on(a, d) + split_on(b, d),
    decreases b.len(),
{
    lemma_split_on_nonempty(a, d);
    if b.len() == 0 {
        assert((a + seq![d] + b).drop_last() =~= a);
        assert(a + seq![d] + b =~= a.push(d));
        assert(split_on(a, d).push(Seq::<char>::empty()) =~= split_on(a, d) + split_on(b, d));
    } else {
        let b0 = b.drop_last();
        lemma_split_concat(a, b0, d);
        lemma_split_on_nonempty(b0, d);
        let s = a + seq![d] + b;
        assert(s.drop_last() =~= a + seq![d] + b0);
        assert(s.last() == b.last());
        let left = split_on(a, d);
        let r0 = split_on(b0, d);
        if b.last() == d {
            assert((left + r0).push(Seq::<char>::empty()) =~= left + r0.push(Seq::<char>::empty()));
        } else {
            let whole = left + r0;
            assert(whole.update(whole.len() - 1, whole.last().push(b.last())) =~= left + r0.update(
                r0.len() - 1,
                r0.last().push(b.last()),
            ));
        }
    }
}

/// A text without the delimiter is one piece.
pub proof fn lemma_split_single(y: Seq<char>, d: char)
    requires
        forall|k: int| 0 <= k < y.len() ==> #[trigger] y[k] != d,
    ensures
        split_on(y, d) == seq![y],
    decreases y.len(),
{
    if y.len() > 0 {
        let y0 = y.drop_last();
        assert forall|k: int| 0 <= k < y0.len() implies #[trigger] y0[k] != d by {
            assert(y0[k] == y[k]);
        }
        lemma_split_single(y0, d);
        assert(y0.push(y.last()) =~= y);
        assert(seq![y0].update(0, y0.push(y.last())) =~= seq![y]);
    } else {
        assert(y =~= Seq::<char>::empty());
    }
}

/// `lead + name + "=" + value`, with only whitespace in `lead`, a name that
/// neither starts with whitespace nor holds `=`, and a value that does not
/// end in whitespace, trims to `name=value` and splits back into the name
/// and the value.
pub proof fn lemma_entry_reads_back(lead: Seq<char>, name: Seq<char>, value: Seq<char>)
    requires
        forall|k: int| 0 <= k < lead.len() ==> is_whitespace(#[trigger] lead[k]),
        name.len() > 0,
        !is_whitespace(name[0]),
        forall|k: int| 0 <= k < name.len() ==> #[trigger] name[k] != '=',
        value.len() > 0 ==> !is_whitespace(value.last()),
    ensures
        split_once(trim(lead + name + seq!['='] + value), '=') == Some((name, value)),
{
    let e = name + seq!['='] + value;
    let s = lead + e;
    assert forall|k: int| 0 <= k < lead.len() implies is_whitespace(#[trigger] s[k]) by {
        assert(s[k] == lead[k]);
    }
    assert(s[lead.len() as int] == name[0]);
    lemma_trim_start_skip(s, lead.len() as int);
    assert(s.skip(lead.len() as int) =~= e);
    if value.len() > 0 {
        assert(e[e.len() - 1] == value.last());
    } else {
        assert(e[e.len() - 1] == '=');
    }
    lemma_trim_end_take(e, e.len() as int);
    assert(e.take(e.len() as int) =~= e);
    let i = name.len() as int;
    assert(e[i] == '=');
    assert(e.contains('='));
    e.index_of_first_ensures('=');
    let f = e.index_of_first('=')->0;
    if f < i {
        assert(e[f] == name[f]);
    }
    if f > i {
        assert(e[i] != '=');
    }
    assert(f == i);
    assert(s =~= lead + name + seq!['='] + value);
    assert(e.take(i) =~= name);
    assert(e.skip(i + 1) =~= value);
}

/// Collects the characters of a string slice.
pub fn str_chars(s: &str) -> (r: Vec<char>)
    ensures
        r@ == s@,
{
    let mut out: Vec<char> = Vec::new();
    for c in it: s.chars()
        invariant
            out@ == it.seq().take(it.index()),
            it.seq() == s@,
    {
        out.push(c);
    }
    out
}

} // verus!
