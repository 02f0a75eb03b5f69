//! Identifier sanitizing and syntactic reference resolution.

use vstd::prelude::*;

verus! {

/// A character that may stand in a generated type identifier.
pub open spec fn is_ident_char(c: char) -> bool {
    ('a' <= c && c <= 'z') || ('A' <= c && c <= 'Z') || ('0' <= c && c <= '9') || c == '_'
}

/// What `sanitize` does to one character.
pub open spec fn sanitize_char(c: char) -> char {
    if is_ident_char(c) {
        c
    } else {
        '_'
    }
}

/// The sanitized form of a string: every character outside `[A-Za-z0-9_]`
/// becomes `_`.
pub open spec fn sanitized(s: Seq<char>) -> Seq<char> {
    s.map_values(|c: char| sanitize_char(c))
}

/// Replaces every character outside `[A-Za-z0-9_]` with `_`, so that the
/// result can stand as a type identifier. Total over all strings; the empty
/// string maps to the empty string.
pub fn sanitize(s: &str) -> (r: String)
    ensures
        r@ == sanitized(s@),
{
    let n = s.unicode_len();
    let mut out = String::new();
    let mut i: usize = 0;
    while i < n
        invariant
            n == s@.len(),
            i <= n,
            out@.len() == i as nat,
            forall|k: int| 0 <= k < i ==> out@[k] == sanitize_char(s@[k]),
        decreases n - i,
    {
        let c = s.get_char(i);
        if ('a' <= c && c <= 'z') || ('A' <= c && c <= 'Z') || ('0' <= c && c <= '9') || c == '_' {
            let piece = s.substring_char(i, i + 1);
            out.append(piece);
        } else {
            proof {
                reveal_strlit("_");
            }
            out.append("_");
        }
        i += 1;
    }
    proof {
        assert(out@ =~= sanitized(s@));
    }
    out
}

/// Sanitizing twice is the same as sanitizing once.
pub proof fn lemma_sanitize_idempotent(s: Seq<char>)
    ensures
        sanitized(sanitized(s)) == sanitized(s),
{
    assert(sanitized(sanitized(s)) =~= sanitized(s));
}

/// Index of the last `/` strictly before position `j`, or -1 if there is none.
pub open spec fn find_slash_back(s: Seq<char>, j: int) -> int
    decreases j,
{
    if j <= 0 || j > s.len() {
        -1
    } else if s[j - 1] == '/' {
        j - 1
    } else {
        find_slash_back(s, j - 1)
    }
}

/// The final `/`-delimited segment of a pointer string (the whole string when
/// it has no `/`).
pub open spec fn last_segment(s: Seq<char>) -> Seq<char> {
    s.subrange(find_slash_back(s, s.len() as int) + 1, s.len() as int)
}

/// What `resolve` returns: the sanitized final segment of the pointer.
pub open spec fn resolved(s: Seq<char>) -> Seq<char> {
    sanitized(last_segment(s))
}

/// Takes the final segment of a `/`-delimited pointer string (such as a
/// JSON-pointer-like schema reference) and sanitizes it into a type
/// identifier. Purely syntactic: the pointed-to location is never opened.
pub fn resolve(pointer: &str) -> (r: String)
    ensures
        r@ == resolved(pointer@),
{
    let n = pointer.unicode_len();
    let mut i: usize = 0;
    let mut start: usize = 0;
    while i < n
        invariant
            n == pointer@.len(),
            i <= n,
            start <= i,
            start as int - 1 == find_slash_back(pointer@, i as int),
        decreases n - i,
    {
        let c = pointer.get_char(i);
        if c == '/' {
            start = i + 1;
        }
        i += 1;
    }
    let seg = pointer.substring_char(start, n);
    sanitize(seg)
}

/// Every character of a resolved reference is an identifier character; in
/// particular the result never holds a space.
pub proof fn lemma_resolved_ident_chars(p: Seq<char>)
    ensures
        forall|i: int|
            0 <= i < resolved(p).len() ==> is_ident_char(#[trigger] resolved(p)[i]),
{
    assert forall|i: int| 0 <= i < resolved(p).len() implies is_ident_char(
        #[trigger] resolved(p)[i],
    ) by {
        assert(resolved(p)[i] == sanitize_char(last_segment(p)[i]));
    }
}

/// The text that stands in for `«` in an escaped name.
pub open spec fn generics_left() -> Seq<char> {
    "__GENERICS_LEFT__"@
}

/// The text that stands in for `»` in an escaped name.
pub open spec fn generics_right() -> Seq<char> {
    "__GENERICS_RIGHT__"@
}

/// What `esapce_name` does to one character.
pub open spec fn generics_piece(c: char) -> Seq<char> {
    if c == '\u{00AB}' {
        generics_left()
    } else if c == '\u{00BB}' {
        generics_right()
    } else {
        seq![c]
    }
}

/// The escaped form of a name, character by character.
pub open spec fn escaped_generics(s: Seq<char>) -> Seq<char>
    decreases s.len(),
{
    if s.len() == 0 {
        Seq::empty()
    } else {
        escaped_generics(s.drop_last()) + generics_piece(s.last())
    }
}

/// Replaces the guillemet generics markers (`«`, `»`) that some documents put
/// in definition names with readable ASCII tokens; every other character is
/// kept as it is.
pub fn esapce_name(name: &str) -> (r: String)
    ensures
        r@ == escaped_generics(name@),
{
    let n = name.unicode_len();
    let mut out = String::new();
    let mut i: usize = 0;
    while i < n
        invariant
            n == name@.len(),
            i <= n,
            out@ == escaped_generics(name@.subrange(0, i as int)),
        decreases n - i,
    {
        let c = name.get_char(i);
        if c == '\u{00AB}' {
            out.append("__GENERICS_LEFT__");
        } else if c == '\u{00BB}' {
            out.append("__GENERICS_RIGHT__");
        } else {
            let piece = name.substring_char(i, i + 1);
            out.append(piece);
        }
        proof {
            let pre = name@.subrange(0, i as int);
            let cur = name@.subrange(0, i + 1);
            assert(cur.drop_last() =~= pre);
            assert(cur.last() == name@[i as int]);
            assert(seq![name@[i as int]] =~= name@.subrange(i as int, i + 1));
        }
        i += 1;
    }
    proof {
        assert(name@.subrange(0, n as int) =~= name@);
    }
    out
}

} // verus!
