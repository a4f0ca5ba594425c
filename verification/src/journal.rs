//! Journal entries: one Markdown bullet per transcript,
//! `- YYYY-MM-DD HH:MM — <text>`, with the transcript's whitespace
//! collapsed so that an entry is always exactly one line.
//!
//! Writing the file is the program's part; [`append_text`] decides what
//! is written, given the file's last byte.
use crate::clock::LocalTime;
use crate::text::{
    blank,
    collapse,
    collapse_whitespace,
    dec,
    digit,
    is_blank,
    is_ws,
    pad2,
    pad4,
    push_pad2,
    push_pad4,
};
use vstd::prelude::*;

verus! {

/// The first line of a new journal, followed by a blank line.
pub open spec fn header_text() -> Seq<char> {
    "# Voice Journal\n\n"@
}

#[derive(Debug)]
pub enum JournalError {
    /// The transcript holds nothing but whitespace.
    Empty,
    /// Reading or writing the journal failed.
    Io(String),
}

pub open spec fn journal_error_text(e: JournalError) -> Seq<char> {
    match e {
        JournalError::Empty => "transcript is empty"@,
        JournalError::Io(m) => "journal io error: "@ + m@,
    }
}

impl JournalError {
    /// The human-readable text of the error.
    pub fn describe(&self) -> (s: String)
        ensures
            s@ == journal_error_text(*self),
    {
        let mut s = String::new();
        match self {
            JournalError::Empty => s.push_str("transcript is empty"),
            JournalError::Io(m) => {
                s.push_str("journal io error: ");
                s.push_str(m.as_str());
            },
        }
        s
    }
}

/// `%Y`: four digits, zero-padded, with a sign outside 0..=9999.
pub open spec fn year_text(y: i32) -> Seq<char> {
    if 0 <= y <= 9999 {
        pad4(y as nat)
    } else if y > 9999 {
        seq!['+'] + pad4(y as nat)
    } else {
        seq!['-'] + pad4((-y) as nat)
    }
}

/// `%Y-%m-%d %H:%M` of `t`.
pub open spec fn stamp_text(t: LocalTime) -> Seq<char> {
    year_text(t.year) + seq!['-'] + pad2(t.month as nat) + seq!['-'] + pad2(t.day as nat) + seq![
        ' ',
    ] + pad2(t.hour as nat) + seq![':'] + pad2(t.minute as nat)
}

/// The bullet for `text` written at `now`, with its line break.
pub open spec fn entry_text(text: Seq<char>, now: LocalTime) -> Seq<char> {
    seq!['-', ' '] + stamp_text(now) + seq![' ', '\u{2014}', ' '] + collapse(text) + seq!['\n']
}

/// The minute stamp of an entry.
pub fn push_stamp(out: &mut String, now: LocalTime)
    ensures
        final(out)@ == old(out)@ + stamp_text(now),
{
    let y = now.year;
    if 0 <= y && y <= 9999 {
        push_pad4(out, y as u64);
    } else if y > 9999 {
        out.push('+');
        push_pad4(out, y as u64);
    } else {
        out.push('-');
        let magnitude: u64 = (-(y as i64)) as u64;
        push_pad4(out, magnitude);
    }
    out.push('-');
    push_pad2(out, now.month as u64);
    out.push('-');
    push_pad2(out, now.day as u64);
    out.push(' ');
    push_pad2(out, now.hour as u64);
    out.push(':');
    push_pad2(out, now.minute as u64);
    assert(final(out)@ =~= old(out)@ + stamp_text(now));
}

/// The journal bullet for `text` written at `now`:
/// `- YYYY-MM-DD HH:MM — <text with whitespace collapsed>\n`.
pub fn format_entry(text: &str, now: LocalTime) -> (s: String)
    ensures
        s@ == entry_text(text@, now),
{
    let mut s = String::new();
    s.push('-');
    s.push(' ');
    push_stamp(&mut s, now);
    s.push(' ');
    s.push('\u{2014}');
    s.push(' ');
    let flat = collapse_whitespace(text);
    s.push_str(flat.as_str());
    s.push('\n');
    assert(s@ =~= entry_text(text@, now));
    s
}

/// What appending `text` at `now` writes to a journal whose last byte is
/// `last_byte` (`None` for a journal that does not exist yet or is empty):
/// nothing for a blank transcript; otherwise the header first when the
/// journal is new, a line break first when its last line is unterminated,
/// and then the entry.
pub fn append_text(last_byte: Option<u8>, text: &str, now: LocalTime) -> (r: Result<
    String,
    JournalError,
>)
    ensures
        blank(text@) ==> r matches Err(JournalError::Empty),
        !blank(text@) ==> (r matches Ok(s) && s@ == match last_byte {
            None => header_text() + entry_text(text@, now),
            Some(b) => if b == 10 {
                entry_text(text@, now)
            } else {
                seq!['\n'] + entry_text(text@, now)
            },
        }),
{
    if is_blank(text) {
        return Err(JournalError::Empty);
    }
    let mut s = String::new();
    match last_byte {
        None => {
            s.push_str("# Voice Journal\n\n");
        },
        Some(b) => {
            if b != 10 {
                s.push('\n');
            }
        },
    }
    let entry = format_entry(text, now);
    s.push_str(entry.as_str());
    proof {
        reveal_strlit("# Voice Journal\n\n");
    }
    Ok(s)
}

proof fn lemma_digits_are_not_breaks(n: nat)
    ensures
        forall|i: int| 0 <= i < dec(n).len() ==> #[trigger] dec(n)[i] != '\n',
    decreases n,
{
    if n >= 10 {
        lemma_digits_are_not_breaks(n / 10);
        assert(forall|i: int| 0 <= i < dec(n / 10).len() ==> dec(n)[i] == dec(n / 10)[i]);
    }
}

proof fn lemma_collapse_has_no_breaks(s: Seq<char>)
    ensures
        forall|i: int| 0 <= i < collapse(s).len() ==> !is_ws(#[trigger] collapse(s)[i]) || collapse(
            s,
        )[i] == ' ',
    decreases s.len(),
{
    if s.len() > 0 {
        let prev = collapse(s.drop_last());
        lemma_collapse_has_no_breaks(s.drop_last());
        let c = s.last();
        let out = collapse(s);
        assert forall|i: int| 0 <= i < out.len() implies !is_ws(#[trigger] out[i]) || out[i]
            == ' ' by {
            if i < prev.len() {
                assert(out[i] == prev[i]);
            } else if is_ws(c) {
            } else if s.len() >= 2 && is_ws(s[s.len() - 2]) && prev.len() > 0 {
                assert(out == prev.push(' ').push(c));
            } else {
                assert(out == prev.push(c));
            }
        }
    }
}

/// An entry is exactly one line: it starts with `- `, ends with its only
/// line break, and holds no other whitespace than spaces.
pub proof fn law_entry_is_one_line(text: Seq<char>, now: LocalTime)
    ensures
        entry_text(text, now).len() >= 3,
        entry_text(text, now).take(2) == seq!['-', ' '],
        entry_text(text, now).last() == '\n',
        forall|i: int|
            0 <= i < entry_text(text, now).len() - 1 ==> #[trigger] entry_text(text, now)[i]
                != '\n',
{
    let e = entry_text(text, now);
    let y = now.year;
    let yn: nat = if 0 <= y <= 9999 {
        y as nat
    } else if y > 9999 {
        y as nat
    } else {
        (-y) as nat
    };
    lemma_digits_are_not_breaks(yn);
    lemma_digits_are_not_breaks(now.month as nat);
    lemma_digits_are_not_breaks(now.day as nat);
    lemma_digits_are_not_breaks(now.hour as nat);
    lemma_digits_are_not_breaks(now.minute as nat);
    lemma_collapse_has_no_breaks(text);
    assert(e.take(2) =~= seq!['-', ' ']);
    assert forall|i: int| 0 <= i < e.len() - 1 implies #[trigger] e[i] != '\n' by {
        let p = seq!['-', ' '] + stamp_text(now) + seq![' ', '\u{2014}', ' '];
        assert(e =~= p + collapse(text) + seq!['\n']);
        if i >= p.len() {
            assert(e[i] == collapse(text)[i - p.len()]);
        } else {
            assert(e[i] == p[i]);
            let yt = year_text(y);
            assert(forall|k: int| 0 <= k < pad4(yn).len() ==> #[trigger] pad4(yn)[k] != '\n');
            assert(forall|k: int| 0 <= k < yt.len() ==> #[trigger] yt[k] != '\n');
            assert(forall|m: nat, k: int| 0 <= k < pad2(m).len() && (forall|j: int|
                0 <= j < dec(m).len() ==> #[trigger] dec(m)[j] != '\n') ==> #[trigger] pad2(m)[k]
                != '\n');
        }
    }
}

} // verus!
