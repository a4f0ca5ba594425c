//! Character-level helpers shared by the formatting code: Unicode
//! whitespace, decimal rendering, zero padding, whitespace collapsing,
//! trimming and truncation.
use vstd::prelude::*;

verus! {

pub assume_specification[ String::push ](s: &mut String, ch: char)
    ensures
        final(s)@ == old(s)@.push(ch),
;

pub assume_specification[ String::push_str ](s: &mut String, string: &str)
    ensures
        final(s)@ == old(s)@ + string@,
;

/// Unicode `White_Space`, the property behind `char::is_whitespace`,
/// `str::trim` and `str::split_whitespace`.
pub open spec fn is_ws(c: char) -> bool {
    let v = c as u32;
    ||| 0x09 <= v <= 0x0D
    ||| v == 0x20
    ||| v == 0x85
    ||| v == 0xA0
    ||| v == 0x1680
    ||| 0x2000 <= v <= 0x200A
    ||| v == 0x2028
    ||| v == 0x2029
    ||| v == 0x202F
    ||| v == 0x205F
    ||| v == 0x3000
}

/// Every character of `s` is whitespace (in particular, the empty text).
pub open spec fn blank(s: Seq<char>) -> bool {
    forall|i: int| 0 <= i < s.len() ==> is_ws(#[trigger] s[i])
}

/// What `format!("{:?}", s)` gives for the text `s`: the text quoted,
/// with `str`'s escapes.
pub uninterp spec fn debug_quoted(s: Seq<char>) -> Seq<char>;

/// `format!("{:?}", s)`: std's `Debug` rendering of a string slice. Its
/// result is named by `debug_quoted`; nothing more is stated.
#[verifier::external_body]
pub(crate) fn debug_str(s: &str) -> (r: String)
    ensures
        r@ == debug_quoted(s@),
{
    format!("{s:?}")
}

/// The text of an optional string slice.
pub open spec fn opt_view(o: Option<&str>) -> Option<Seq<char>> {
    match o {
        Some(s) => Some(s@),
        None => None,
    }
}

/// The ASCII digit for `d < 10`.
pub open spec fn digit(d: nat) -> char {
    if d == 0 {
        '0'
    } else if d == 1 {
        '1'
    } else if d == 2 {
        '2'
    } else if d == 3 {
        '3'
    } else if d == 4 {
        '4'
    } else if d == 5 {
        '5'
    } else if d == 6 {
        '6'
    } else if d == 7 {
        '7'
    } else if d == 8 {
        '8'
    } else {
        '9'
    }
}

/// Decimal rendering of `n`, most significant digit first, no padding.
pub open spec fn dec(n: nat) -> Seq<char>
    decreases n,
{
    if n < 10 {
        seq![digit(n)]
    } else {
        dec(n / 10).push(digit(n % 10))
    }
}

/// Decimal rendering zero-padded to at least two digits.
pub open spec fn pad2(n: nat) -> Seq<char> {
    if n < 10 {
        seq!['0'] + dec(n)
    } else {
        dec(n)
    }
}

/// Decimal rendering zero-padded to at least four digits.
pub open spec fn pad4(n: nat) -> Seq<char> {
    if n < 10 {
        seq!['0', '0', '0'] + dec(n)
    } else if n < 100 {
        seq!['0', '0'] + dec(n)
    } else if n < 1000 {
        seq!['0'] + dec(n)
    } else {
        dec(n)
    }
}

/// The words of `s` (maximal runs of non-whitespace) joined by single
/// spaces: what `s.split_whitespace().collect::<Vec<_>>().join(" ")` gives.
/// Read left to right: whitespace is dropped, and a character that follows
/// whitespace is preceded by one space unless nothing has been kept yet.
pub open spec fn collapse(s: Seq<char>) -> Seq<char>
    decreases s.len(),
{
    if s.len() == 0 {
        Seq::empty()
    } else {
        let prev = collapse(s.drop_last());
        let c = s.last();
        if is_ws(c) {
            prev
        } else if s.len() >= 2 && is_ws(s[s.len() - 2]) && prev.len() > 0 {
            prev.push(' ').push(c)
        } else {
            prev.push(c)
        }
    }
}

/// `s` without its leading whitespace.
pub open spec fn trim_start(s: Seq<char>) -> Seq<char>
    decreases s.len(),
{
    if s.len() > 0 && is_ws(s[0]) {
        trim_start(s.drop_first())
    } else {
        s
    }
}

/// `s` without its trailing whitespace.
pub open spec fn trim_end(s: Seq<char>) -> Seq<char>
    decreases s.len(),
{
    if s.len() > 0 && is_ws(s.last()) {
        trim_end(s.drop_last())
    } else {
        s
    }
}

/// `s` without leading and trailing whitespace, as `str::trim` gives it.
pub open spec fn trimmed(s: Seq<char>) -> Seq<char> {
    trim_end(trim_start(s))
}

/// The first `max` characters of `s`, followed by an ellipsis when
/// anything was cut off.
pub open spec fn truncated(s: Seq<char>, max: nat) -> Seq<char> {
    if s.len() > max {
        s.take(max as int).push('\u{2026}')
    } else {
        s
    }
}

/// `char::is_whitespace`.
pub fn is_whitespace(c: char) -> (b: bool)
    ensures
        b == is_ws(c),
{
    let v = c as u32;
    (0x09 <= v && v <= 0x0D) || v == 0x20 || v == 0x85 || v == 0xA0 || v == 0x1680 || (0x2000
        <= v && v <= 0x200A) || v == 0x2028 || v == 0x2029 || v == 0x202F || v == 0x205F || v
        == 0x3000
}

/// The characters of `s`, in order.
pub fn chars_of(s: &str) -> (out: Vec<char>)
    ensures
        out@ == s@,
{
    let mut out: Vec<char> = Vec::new();
    for c in it: s.chars()
        invariant
            out@ == it.seq().take(it.index() as int),
    {
        out.push(c);
    }
    out
}

/// The ASCII digit character for `d < 10`.
pub fn digit_char(d: u64) -> (c: char)
    requires
        d < 10,
    ensures
        c == digit(d as nat),
{
    if d == 0 {
        '0'
    } else if d == 1 {
        '1'
    } else if d == 2 {
        '2'
    } else if d == 3 {
        '3'
    } else if d == 4 {
        '4'
    } else if d == 5 {
        '5'
    } else if d == 6 {
        '6'
    } else if d == 7 {
        '7'
    } else if d == 8 {
        '8'
    } else {
        '9'
    }
}

/// Appends the decimal rendering of `n` to `out`.
pub fn push_decimal(out: &mut String, n: u64)
    ensures
        final(out)@ == old(out)@ + dec(n as nat),
    decreases n,
{
    if n >= 10 {
        push_decimal(out, n / 10);
    }
    out.push(digit_char(n % 10));
    proof {
        assert(dec(n as nat) == if n < 10 {
            seq![digit(n as nat)]
        } else {
            dec((n / 10) as nat).push(digit((n % 10) as nat))
        });
    }
}

/// The decimal rendering of `n`.
pub fn decimal(n: u64) -> (s: String)
    ensures
        s@ == dec(n as nat),
{
    let mut s = String::new();
    push_decimal(&mut s, n);
    assert(s@ =~= dec(n as nat));
    s
}

/// Appends `n` zero-padded to two digits.
pub fn push_pad2(out: &mut String, n: u64)
    ensures
        final(out)@ == old(out)@ + pad2(n as nat),
{
    if n < 10 {
        out.push('0');
    }
    push_decimal(out, n);
    assert(final(out)@ =~= old(out)@ + pad2(n as nat));
}

/// Appends `n` zero-padded to four digits.
pub fn push_pad4(out: &mut String, n: u64)
    ensures
        final(out)@ == old(out)@ + pad4(n as nat),
{
    if n < 10 {
        out.push_str("000");
    } else if n < 100 {
        out.push_str("00");
    } else if n < 1000 {
        out.push_str("0");
    }
    proof {
        reveal_strlit("000");
        reveal_strlit("00");
        reveal_strlit("0");
    }
    push_decimal(out, n);
    assert(final(out)@ =~= old(out)@ + pad4(n as nat));
}

/// `s.split_whitespace().collect::<Vec<_>>().join(" ")`.
pub fn collapse_whitespace(s: &str) -> (out: String)
    ensures
        out@ == collapse(s@),
{
    let cs = chars_of(s);
    let mut out = String::new();
    let mut kept = false;
    let mut i: usize = 0;
    while i < cs.len()
        invariant
            0 <= i <= cs.len(),
            out@ == collapse(cs@.take(i as int)),
            kept == (out@.len() > 0),
        decreases cs.len() - i,
    {
        let c = cs[i];
        proof {
            assert(cs@.take(i + 1).drop_last() =~= cs@.take(i as int));
        }
        if is_whitespace(c) {
        } else if i >= 1 && is_whitespace(cs[i - 1]) && kept {
            out.push(' ');
            out.push(c);
        } else {
            out.push(c);
            kept = true;
        }
        i = i + 1;
    }
    assert(cs@.take(cs.len() as int) =~= cs@);
    out
}

/// Whether every character of `s` is whitespace.
pub fn is_blank(s: &str) -> (b: bool)
    ensures
        b == blank(s@),
{
    let cs = chars_of(s);
    let mut i: usize = 0;
    while i < cs.len()
        invariant
            0 <= i <= cs.len(),
            cs@ == s@,
            forall|j: int| 0 <= j < i ==> is_ws(#[trigger] cs@[j]),
        decreases cs.len() - i,
    {
        if !is_whitespace(cs[i]) {
            return false;
        }
        i = i + 1;
    }
    true
}

proof fn lemma_trim_start_is_suffix(s: Seq<char>)
    ensures
        exists|k: int| 0 <= k <= s.len() && trim_start(s) == s.skip(k) && (forall|j: int|
            0 <= j < k ==> is_ws(#[trigger] s[j])) && (k < s.len() ==> !is_ws(s[k])),
    decreases s.len(),
{
    if s.len() > 0 && is_ws(s[0]) {
        lemma_trim_start_is_suffix(s.drop_first());
        let k = choose|k: int|
            0 <= k <= s.drop_first().len() && trim_start(s.drop_first()) == s.drop_first().skip(k)
                && (forall|j: int| 0 <= j < k ==> is_ws(#[trigger] s.drop_first()[j])) && (k
                < s.drop_first().len() ==> !is_ws(s.drop_first()[k]));
        assert(s.drop_first().skip(k) =~= s.skip(k + 1));
        assert forall|j: int| 0 <= j < k + 1 implies is_ws(#[trigger] s[j]) by {
            if j > 0 {
                assert(s[j] == s.drop_first()[j - 1]);
            }
        }
        assert(k + 1 < s.len() ==> s[k + 1] == s.drop_first()[k]);
    } else {
        assert(s.skip(0) =~= s);
    }
}

proof fn lemma_trim_end_is_prefix(s: Seq<char>)
    ensures
        exists|k: int| 0 <= k <= s.len() && trim_end(s) == s.take(k) && (forall|j: int|
            k <= j < s.len() ==> is_ws(#[trigger] s[j])) && (k > 0 ==> !is_ws(s[k - 1])),
    decreases s.len(),
{
    if s.len() > 0 && is_ws(s.last()) {
        lemma_trim_end_is_prefix(s.drop_last());
        let k = choose|k: int|
            0 <= k <= s.drop_last().len() && trim_end(s.drop_last()) == s.drop_last().take(k)
                && (forall|j: int| k <= j < s.drop_last().len() ==> is_ws(
                #[trigger] s.drop_last()[j],
            )) && (k > 0 ==> !is_ws(s.drop_last()[k - 1]));
        assert(s.drop_last().take(k) =~= s.take(k));
        assert forall|j: int| k <= j < s.len() implies is_ws(#[trigger] s[j]) by {
            if j < s.len() - 1 {
                assert(s[j] == s.drop_last()[j]);
            }
        }
    } else {
        assert(s.take(s.len() as int) =~= s);
    }
}

/// `s.trim()`, as an owned string.
pub fn trim(s: &str) -> (out: String)
    ensures
        out@ == trimmed(s@),
{
    let cs = chars_of(s);
    let mut start: usize = 0;
    while start < cs.len() && is_whitespace(cs[start])
        invariant
            0 <= start <= cs.len(),
            forall|j: int| 0 <= j < start ==> is_ws(#[trigger] cs@[j]),
        decreases cs.len() - start,
    {
        start = start + 1;
    }
    let mut end: usize = cs.len();
    while end > start && is_whitespace(cs[end - 1])
        invariant
            start <= end <= cs.len(),
            forall|j: int| end <= j < cs.len() ==> is_ws(#[trigger] cs@[j]),
        decreases end,
    {
        end = end - 1;
    }
    let mut out = String::new();
    let mut i: usize = start;
    while i < end
        invariant
            start <= i <= end <= cs.len(),
            out@ == cs@.subrange(start as int, i as int),
        decreases end - i,
    {
        out.push(cs[i]);
        assert(cs@.subrange(start as int, i + 1) =~= cs@.subrange(start as int, i as int).push(
            cs@[i as int],
        ));
        i = i + 1;
    }
    proof {
        let s0 = s@;
        lemma_trim_start_is_suffix(s0);
        let k1 = choose|k: int|
            0 <= k <= s0.len() && trim_start(s0) == s0.skip(k) && (forall|j: int|
                0 <= j < k ==> is_ws(#[trigger] s0[j])) && (k < s0.len() ==> !is_ws(s0[k]));
        assert(k1 == start) by {
            if k1 < start {
                assert(is_ws(cs@[k1]));
            } else if k1 > start {
                assert(is_ws(s0[start as int]));
            }
        }
        let t = trim_start(s0);
        lemma_trim_end_is_prefix(t);
        let k2 = choose|k: int|
            0 <= k <= t.len() && trim_end(t) == t.take(k) && (forall|j: int|
                k <= j < t.len() ==> is_ws(#[trigger] t[j])) && (k > 0 ==> !is_ws(t[k - 1]));
        assert(k2 + start == end) by {
            if k2 + start < end {
                assert(t[end - 1 - start] == cs@[end - 1]);
                assert(is_ws(t[end - 1 - start]));
                if end > start {
                    assert(!is_ws(cs@[end - 1]) || end == start);
                }
            } else if k2 + start > end {
                assert(t[k2 - 1] == cs@[k2 - 1 + start]);
                assert(is_ws(cs@[k2 - 1 + start]));
            }
        }
        assert(out@ =~= trimmed(s@));
    }
    out
}

/// The first `max_chars` characters of `text`, with `…` appended when
/// anything was cut off.
pub fn truncate(text: &str, max_chars: usize) -> (out: String)
    ensures
        out@ == truncated(text@, max_chars as nat),
{
    let cs = chars_of(text);
    let mut out = String::new();
    let mut i: usize = 0;
    while i < cs.len() && i < max_chars
        invariant
            0 <= i <= cs.len(),
            i <= max_chars,
            out@ == cs@.take(i as int),
        decreases cs.len() - i,
    {
        out.push(cs[i]);
        assert(cs@.take(i + 1) =~= cs@.take(i as int).push(cs@[i as int]));
        i = i + 1;
    }
    if cs.len() > max_chars {
        out.push('\u{2026}');
    } else {
        assert(cs@.take(i as int) =~= cs@);
    }
    out
}

/// The characters `cs[start..end]` as a string.
pub fn string_of(cs: &Vec<char>, start: usize, end: usize) -> (s: String)
    requires
        start <= end <= cs.len(),
    ensures
        s@ == cs@.subrange(start as int, end as int),
{
    let mut s = String::new();
    let mut i: usize = start;
    while i < end
        invariant
            start <= i <= end <= cs.len(),
            s@ == cs@.subrange(start as int, i as int),
        decreases end - i,
    {
        s.push(cs[i]);
        assert(cs@.subrange(start as int, i + 1) =~= cs@.subrange(start as int, i as int).push(
            cs@[i as int],
        ));
        i = i + 1;
    }
    s
}

/// The characters of `s` that are not whitespace, in order.
pub open spec fn non_ws(s: Seq<char>) -> Seq<char> {
    s.filter(|c: char| !is_ws(c))
}

/// Collapsing whitespace loses no character of any word and adds none:
/// the characters that are not whitespace come out exactly as they went
/// in, in order, whatever the length of the text.
pub proof fn law_collapse_keeps_every_word_character(s: Seq<char>)
    ensures
        non_ws(collapse(s)) == non_ws(s),
    decreases s.len(),
{
    if s.len() > 0 {
        law_collapse_keeps_every_word_character(s.drop_last());
        let p = |c: char| !is_ws(c);
        let prev = collapse(s.drop_last());
        let c = s.last();
        assert(s =~= s.drop_last().push(c));
        s.drop_last().lemma_filter_push(c, p);
        prev.lemma_filter_push(c, p);
        prev.lemma_filter_push(' ', p);
        prev.push(' ').lemma_filter_push(c, p);
    }
}

/// In collapsed text the only whitespace is a single space, and each one
/// stands between two characters that are not whitespace: words are
/// joined by exactly one space, with none before the first or after the
/// last.
pub proof fn law_collapse_joins_words_by_single_spaces(s: Seq<char>)
    ensures
        forall|i: int|
            0 <= i < collapse(s).len() && is_ws(#[trigger] collapse(s)[i]) ==> {
                &&& collapse(s)[i] == ' '
                &&& 0 < i < collapse(s).len() - 1
                &&& !is_ws(collapse(s)[i - 1])
                &&& !is_ws(collapse(s)[i + 1])
            },
    decreases s.len(),
{
    if s.len() > 0 {
        law_collapse_joins_words_by_single_spaces(s.drop_last());
        let prev = collapse(s.drop_last());
        let c = s.last();
        let out = collapse(s);
        if !is_ws(c) {
            if prev.len() > 0 {
                // whitespace in `prev` stands only between two of its characters
                assert(!is_ws(prev[prev.len() - 1]));
            }
            assert forall|i: int| 0 <= i < out.len() && is_ws(#[trigger] out[i]) implies {
                &&& out[i] == ' '
                &&& 0 < i < out.len() - 1
                &&& !is_ws(out[i - 1])
                &&& !is_ws(out[i + 1])
            } by {
                if i < prev.len() {
                    assert(out[i] == prev[i]);
                    assert(out[i - 1] == prev[i - 1]);
                    assert(out[i + 1] == prev[i + 1]);
                }
            }
        }
    }
}

} // verus!
