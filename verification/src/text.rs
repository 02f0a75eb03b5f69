//! Small text utilities shared by the generator: whitespace trimming,
//! joining, padding, and character-wise string comparison.

use vstd::prelude::*;

verus! {

/// A character of ordinary spacing in generated text.
pub open spec fn is_space_char(c: char) -> bool {
    c == ' ' || c == '\n' || c == '\t' || c == '\r'
}

/// Index of the first character at or after `from` that is not spacing
/// (`s.len()` when all of them are).
pub open spec fn skip_spaces(s: Seq<char>, from: int) -> int
    decreases s.len() - from,
{
    if from < 0 || from >= s.len() {
        s.len() as int
    } else if is_space_char(s[from]) {
        skip_spaces(s, from + 1)
    } else {
        from
    }
}

/// One past the last character strictly before `upto` that is not spacing
/// (0 when all of them are).
pub open spec fn rskip_spaces(s: Seq<char>, upto: int) -> int
    decreases upto,
{
    if upto <= 0 || upto > s.len() {
        0
    } else if is_space_char(s[upto - 1]) {
        rskip_spaces(s, upto - 1)
    } else {
        upto
    }
}

/// `s` with leading and trailing spacing removed.
pub open spec fn trimmed(s: Seq<char>) -> Seq<char> {
    let a = skip_spaces(s, 0);
    if a == s.len() {
        Seq::empty()
    } else {
        s.subrange(a, rskip_spaces(s, s.len() as int))
    }
}

proof fn lemma_rskip_spaces_above(s: Seq<char>, upto: int, a: int)
    requires
        0 <= a < upto <= s.len(),
        !is_space_char(s[a]),
    ensures
        a < rskip_spaces(s, upto) <= upto,
    decreases upto,
{
    if is_space_char(s[upto - 1]) {
        lemma_rskip_spaces_above(s, upto - 1, a);
    }
}

fn skip_spaces_exec(s: &str, from: usize, n: usize) -> (r: usize)
    requires
        from <= n,
        n == s@.len(),
    ensures
        r as int == skip_spaces(s@, from as int),
        from <= r <= n,
        r < n ==> !is_space_char(s@[r as int]),
    decreases n - from,
{
    if from >= n {
        n
    } else {
        let c = s.get_char(from);
        if c == ' ' || c == '\n' || c == '\t' || c == '\r' {
            skip_spaces_exec(s, from + 1, n)
        } else {
            from
        }
    }
}

fn rskip_spaces_exec(s: &str, upto: usize, n: usize) -> (r: usize)
    requires
        upto <= n,
        n == s@.len(),
    ensures
        r as int == rskip_spaces(s@, upto as int),
        r <= upto,
    decreases upto,
{
    if upto == 0 {
        0
    } else {
        let c = s.get_char(upto - 1);
        if c == ' ' || c == '\n' || c == '\t' || c == '\r' {
            rskip_spaces_exec(s, upto - 1, n)
        } else {
            upto
        }
    }
}

/// Removes leading and trailing spacing from a string.
pub fn trim(s: &str) -> (r: String)
    ensures
        r@ == trimmed(s@),
{
    let n = s.unicode_len();
    let a = skip_spaces_exec(s, 0, n);
    if a == n {
        return String::new();
    }
    let b = rskip_spaces_exec(s, n, n);
    proof {
        lemma_rskip_spaces_above(s@, n as int, a as int);
    }
    let piece = s.substring_char(a, b);
    let mut out = String::new();
    out.append(piece);
    out
}

/// Character-wise string equality.
pub fn str_eq(a: &str, b: &str) -> (r: bool)
    ensures
        r == (a@ == b@),
{
    let alen = a.unicode_len();
    let blen = b.unicode_len();
    if alen != blen {
        return false;
    }
    let mut i: usize = 0;
    while i < alen
        invariant
            alen == a@.len(),
            blen == b@.len(),
            alen == blen,
            i <= alen,
            forall|k: int| 0 <= k < i ==> a@[k] == b@[k],
        decreases alen - i,
    {
        let ca = a.get_char(i);
        let cb = b.get_char(i);
        if ca != cb {
            return false;
        }
        i += 1;
    }
    proof {
        assert(a@ =~= b@);
    }
    true
}

/// The given parts joined with the separator between neighbours.
pub open spec fn joined(parts: Seq<Seq<char>>, sep: Seq<char>) -> Seq<char>
    decreases parts.len(),
{
    if parts.len() == 0 {
        Seq::empty()
    } else if parts.len() == 1 {
        parts[0]
    } else {
        joined(parts.drop_last(), sep) + sep + parts.last()
    }
}

/// The character sequences of a sequence of strings.
pub open spec fn strs_view(v: Seq<String>) -> Seq<Seq<char>> {
    v.map_values(|p: String| p@)
}

/// Appending a string appends its characters to the view.
pub proof fn lemma_strs_view_push(v: Seq<String>, x: String)
    ensures
        strs_view(v.push(x)) == strs_view(v).push(x@),
{
    assert(strs_view(v.push(x)) =~= strs_view(v).push(x@));
}

/// Joins the parts with the separator between neighbours.
pub fn join_strs(parts: &Vec<String>, sep: &str) -> (r: String)
    ensures
        r@ == joined(strs_view(parts@), sep@),
{
    let mut out = String::new();
    let mut i: usize = 0;
    while i < parts.len()
        invariant
            i <= parts@.len(),
            out@ == joined(strs_view(parts@.subrange(0, i as int)), sep@),
        decreases parts@.len() - i,
    {
        if i > 0 {
            out.append(sep);
        }
        out.append(parts[i].as_str());
        proof {
            let m1 = strs_view(parts@.subrange(0, i + 1));
            let m0 = strs_view(parts@.subrange(0, i as int));
            assert(m1.drop_last() =~= m0);
            assert(m1.last() == parts@[i as int]@);
            assert(m1[0] == parts@[0]@);
        }
        i += 1;
    }
    proof {
        assert(parts@.subrange(0, parts@.len() as int) =~= parts@);
    }
    out
}

/// A run of `n` spaces.
pub open spec fn spaces(n: nat) -> Seq<char> {
    Seq::new(n, |k: int| ' ')
}

/// Prepends `indent` spaces to the given text.
pub fn pad(indent: usize, s: &str) -> (r: String)
    ensures
        r@ == spaces(indent as nat) + s@,
{
    let mut out = String::new();
    let mut i: usize = 0;
    while i < indent
        invariant
            i <= indent,
            out@ == spaces(i as nat),
        decreases indent - i,
    {
        proof {
            reveal_strlit(" ");
        }
        out.append(" ");
        proof {
            assert(out@ =~= spaces((i + 1) as nat));
        }
        i += 1;
    }
    out.append(s);
    out
}

} // verus!
