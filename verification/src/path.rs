//! Joining Unix paths held as text, as `Path::join` does on Unix.
use vstd::prelude::*;

verus! {

/// `base.join(rest)` on Unix: an absolute `rest` replaces `base`;
/// otherwise `rest` is appended, with a `/` between them unless `base` is
/// empty or already ends with one.
pub open spec fn joined(base: Seq<char>, rest: Seq<char>) -> Seq<char> {
    if rest.len() > 0 && rest[0] == '/' {
        rest
    } else if base.len() > 0 && base.last() != '/' {
        base + seq!['/'] + rest
    } else {
        base + rest
    }
}

/// `base` joined with `rest` (see [`joined`]).
pub fn join_path(base: &str, rest: &str) -> (s: String)
    ensures
        s@ == joined(base@, rest@),
{
    let b = crate::text::chars_of(base);
    let r = crate::text::chars_of(rest);
    let mut s = String::new();
    if r.len() > 0 && r[0] == '/' {
        s.push_str(rest);
    } else {
        s.push_str(base);
        if b.len() > 0 && b[b.len() - 1] != '/' {
            s.push('/');
        }
        s.push_str(rest);
    }
    assert(s@ =~= joined(base@, rest@));
    s
}

} // verus!
