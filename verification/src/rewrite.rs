//! The composition-to-inheritance rewriter.
//!
//! An `allOf` over named references translates to an intersection such as
//! `export interface Pet Dog & Cat & { ... }`. This pass rewrites such a
//! declaration header into an `extends` clause list,
//! `export interface Pet extends Dog, Cat { ... }`, and leaves every other
//! declaration exactly as it is. The rewrite is purely textual and never
//! touches anything after the first `{`.

use vstd::prelude::*;

use crate::names::is_ident_char;
use crate::text::joined;
use crate::text::join_strs;
use crate::text::lemma_strs_view_push;
use crate::text::str_eq;
use crate::text::strs_view;
use crate::text::trim;
use crate::text::trimmed;

verus! {

/// Index of the first `{` at or after position `i`, or -1 if there is none.
pub open spec fn find_brace_from(s: Seq<char>, i: int) -> int
    decreases s.len() - i,
{
    if i < 0 || i >= s.len() {
        -1
    } else if s[i] == '{' {
        i
    } else {
        find_brace_from(s, i + 1)
    }
}

/// Whether the three characters ` & ` stand at position `i`.
pub open spec fn amp_at(s: Seq<char>, i: int) -> bool {
    0 <= i && i + 3 <= s.len() && s[i] == ' ' && s[i + 1] == '&' && s[i + 2] == ' '
}

/// Index of the first ` & ` at or after position `i`, or -1 if there is none.
pub open spec fn find_amp_from(s: Seq<char>, i: int) -> int
    decreases s.len() - i,
{
    if i < 0 || i + 3 > s.len() {
        -1
    } else if amp_at(s, i) {
        i
    } else {
        find_amp_from(s, i + 1)
    }
}

proof fn lemma_find_amp_from_props(s: Seq<char>, i: int)
    requires
        0 <= i,
    ensures
        find_amp_from(s, i) == -1 || (i <= find_amp_from(s, i) && amp_at(s, find_amp_from(s, i))),
    decreases s.len() - i,
{
    if i + 3 <= s.len() && !amp_at(s, i) {
        lemma_find_amp_from_props(s, i + 1);
    }
}

proof fn lemma_find_brace_from_props(s: Seq<char>, i: int)
    requires
        0 <= i,
    ensures
        find_brace_from(s, i) == -1 || (i <= find_brace_from(s, i) < s.len()),
    decreases s.len() - i,
{
    if i < s.len() && s[i] != '{' {
        lemma_find_brace_from_props(s, i + 1);
    }
}

proof fn lemma_ident_run_end_bounds(s: Seq<char>, i: int)
    requires
        0 <= i <= s.len(),
    ensures
        i <= ident_run_end(s, i) <= s.len(),
    decreases s.len() - i,
{
    if i < s.len() && is_ident_char(s[i]) {
        lemma_ident_run_end_bounds(s, i + 1);
    }
}

proof fn lemma_find_amp_from_none(s: Seq<char>, i: int)
    requires
        0 <= i,
        forall|k: int| !amp_at(s, k),
    ensures
        find_amp_from(s, i) == -1,
    decreases s.len() - i,
{
    if i + 3 <= s.len() {
        lemma_find_amp_from_none(s, i + 1);
    }
}

/// The pieces of `s` from position `i` on, split at each ` & `.
pub open spec fn split_amp_from(s: Seq<char>, i: int) -> Seq<Seq<char>>
    decreases s.len() - i via split_amp_from_decreases
{
    if i < 0 || i > s.len() {
        Seq::empty()
    } else {
        let j = find_amp_from(s, i);
        if j < 0 {
            seq![s.subrange(i, s.len() as int)]
        } else {
            seq![s.subrange(i, j)] + split_amp_from(s, j + 3)
        }
    }
}

#[via_fn]
proof fn split_amp_from_decreases(s: Seq<char>, i: int) {
    if 0 <= i <= s.len() {
        lemma_find_amp_from_props(s, i);
    }
}

/// One past the end of the run of identifier characters starting at `i`.
pub open spec fn ident_run_end(s: Seq<char>, i: int) -> int
    decreases s.len() - i,
{
    if i < 0 || i >= s.len() {
        i
    } else if is_ident_char(s[i]) {
        ident_run_end(s, i + 1)
    } else {
        i
    }
}

/// Whether `s` begins with the prefix `p`.
pub open spec fn starts_with(s: Seq<char>, p: Seq<char>) -> bool {
    p.len() <= s.len() && s.subrange(0, p.len() as int) == p
}

/// The fixed head of a rewritable interface declaration.
pub open spec fn decl_head() -> Seq<char> {
    "export interface "@
}

/// Whether a split segment is a bare identifier once trimmed.
pub open spec fn is_bare_ident(s: Seq<char>) -> bool {
    trimmed(s).len() > 0 && forall|k: int|
        0 <= k < trimmed(s).len() ==> is_ident_char(#[trigger] trimmed(s)[k])
}

/// Whether the split segments admit the rewrite: every segment a bare
/// identifier, except that the last may be empty when an inline object
/// closes the intersection.
pub open spec fn segs_ok(segs: Seq<Seq<char>>) -> bool {
    (forall|k: int| 0 <= k < segs.len() - 1 ==> is_bare_ident(#[trigger] segs[k])) && (is_bare_ident(
        segs.last(),
    ) || trimmed(segs.last()).len() == 0)
}

/// The identifiers of the extends list: the trimmed segments, without a
/// trailing empty one.
pub open spec fn seg_ids(segs: Seq<Seq<char>>) -> Seq<Seq<char>> {
    let kept = if trimmed(segs.last()).len() == 0 {
        segs.drop_last()
    } else {
        segs
    };
    kept.map_values(|x: Seq<char>| trimmed(x))
}

/// The rewritten form of one declaration. The input is returned unchanged
/// unless it is an `export interface <Name>` header whose pre-brace text is
/// an ` & `-intersection of bare identifiers (with an optional trailing
/// inline object); then the header becomes an `extends` clause list and the
/// text from the first `{` on is kept exactly.
pub open spec fn rewritten(s: Seq<char>) -> Seq<char> {
    let b = find_brace_from(s, 0);
    if b < 0 {
        s
    } else {
        let head = s.subrange(0, b);
        let tail = s.subrange(b, s.len() as int);
        if !starts_with(head, decl_head()) {
            s
        } else {
            let after = head.subrange(decl_head().len() as int, head.len() as int);
            let ne = ident_run_end(after, 0);
            if ne == 0 {
                s
            } else {
                let name = after.subrange(0, ne);
                let rest = after.subrange(ne, after.len() as int);
                let segs = split_amp_from(rest, 0);
                if segs.len() < 2 || !segs_ok(segs) {
                    s
                } else {
                    decl_head() + name + " extends "@ + joined(seg_ids(segs), ", "@) + " "@ + tail
                }
            }
        }
    }
}

fn copy_str(s: &str) -> (r: String)
    ensures
        r@ == s@,
{
    let mut out = String::new();
    out.append(s);
    out
}

fn find_brace_exec(s: &str, from: usize, n: usize) -> (r: usize)
    requires
        from <= n,
        n == s@.len(),
    ensures
        from <= r <= n,
        find_brace_from(s@, from as int) < 0 <==> r == n,
        find_brace_from(s@, from as int) >= 0 ==> r as int == find_brace_from(s@, from as int),
    decreases n - from,
{
    if from >= n {
        n
    } else if s.get_char(from) == '{' {
        from
    } else {
        find_brace_exec(s, from + 1, n)
    }
}

fn find_amp_exec(s: &str, from: usize, n: usize) -> (r: usize)
    requires
        from <= n,
        n == s@.len(),
    ensures
        from <= r <= n,
        find_amp_from(s@, from as int) < 0 <==> r == n,
        find_amp_from(s@, from as int) >= 0 ==> r as int == find_amp_from(s@, from as int) && amp_at(
            s@,
            r as int,
        ),
    decreases n - from,
{
    if n - from < 3 {
        n
    } else if s.get_char(from) == ' ' && s.get_char(from + 1) == '&' && s.get_char(from + 2)
        == ' ' {
        from
    } else {
        find_amp_exec(s, from + 1, n)
    }
}

fn ident_run_end_exec(s: &str, from: usize, n: usize) -> (r: usize)
    requires
        from <= n,
        n == s@.len(),
    ensures
        from <= r <= n,
        r as int == ident_run_end(s@, from as int),
    decreases n - from,
{
    if from >= n {
        from
    } else {
        let c = s.get_char(from);
        if ('a' <= c && c <= 'z') || ('A' <= c && c <= 'Z') || ('0' <= c && c <= '9') || c == '_' {
            ident_run_end_exec(s, from + 1, n)
        } else {
            from
        }
    }
}

/// Splits the text at each ` & `.
fn split_amp(s: &str) -> (r: Vec<String>)
    ensures
        strs_view(r@) == split_amp_from(s@, 0),
{
    let n = s.unicode_len();
    let mut out: Vec<String> = Vec::new();
    let mut cur: usize = 0;
    loop
        invariant
            cur <= n,
            n == s@.len(),
            split_amp_from(s@, 0) == strs_view(out@) + split_amp_from(s@, cur as int),
        decreases n - cur,
    {
        let j = find_amp_exec(s, cur, n);
        if j == n {
            let piece = s.substring_char(cur, n);
            let ghost out0 = out@;
            out.push(copy_str(piece));
            proof {
                lemma_strs_view_push(out0, out@.last());
                assert(split_amp_from(s@, cur as int) == seq![s@.subrange(cur as int, n as int)]);
                assert(strs_view(out@) =~= strs_view(out0) + split_amp_from(s@, cur as int));
                assert(strs_view(out@) =~= split_amp_from(s@, 0));
            }
            return out;
        } else {
            let piece = s.substring_char(cur, j);
            let ghost out0 = out@;
            out.push(copy_str(piece));
            proof {
                lemma_strs_view_push(out0, out@.last());
                assert(split_amp_from(s@, cur as int) == seq![s@.subrange(cur as int, j as int)]
                    + split_amp_from(s@, j + 3));
                assert(strs_view(out@) + split_amp_from(s@, j + 3) =~= strs_view(out0)
                    + split_amp_from(s@, cur as int));
            }
            cur = j + 3;
        }
    }
}

/// Whether the text is a bare identifier once trimmed.
fn is_bare_ident_exec(s: &str) -> (r: bool)
    ensures
        r == is_bare_ident(s@),
{
    let t = trim(s);
    let n = t.as_str().unicode_len();
    if n == 0 {
        return false;
    }
    let mut k: usize = 0;
    while k < n
        invariant
            n == trimmed(s@).len(),
            t@ == trimmed(s@),
            k <= n,
            forall|j: int| 0 <= j < k ==> is_ident_char(#[trigger] trimmed(s@)[j]),
        decreases n - k,
    {
        let c = t.as_str().get_char(k);
        if !(('a' <= c && c <= 'z') || ('A' <= c && c <= 'Z') || ('0' <= c && c <= '9') || c
            == '_') {
            return false;
        }
        k += 1;
    }
    true
}

/// Rewrites one interface declaration whose pre-brace text is an
/// intersection of bare identifiers into an `extends` clause list; returns
/// every other input unchanged.
#[verifier::loop_isolation(false)]
pub fn rewrite(line: &str) -> (r: String)
    ensures
        r@ == rewritten(line@),
{
    proof {
        reveal_strlit("export interface ");
    }
    let n = line.unicode_len();
    let b = find_brace_exec(line, 0, n);
    if b == n {
        return copy_str(line);
    }
    let ghost head = line@.subrange(0, b as int);
    if b < 17 {
        proof {
            assert(!starts_with(head, decl_head()));
        }
        return copy_str(line);
    }
    let prefix = line.substring_char(0, 17);
    if !str_eq(prefix, "export interface ") {
        proof {
            assert(head.subrange(0, 17) =~= line@.subrange(0, 17));
            assert(!starts_with(head, decl_head()));
        }
        return copy_str(line);
    }
    proof {
        assert(head.subrange(0, 17) =~= line@.subrange(0, 17));
        assert(starts_with(head, decl_head()));
    }
    let after = line.substring_char(17, b);
    proof {
        assert(after@ =~= head.subrange(decl_head().len() as int, head.len() as int));
    }
    let alen = b - 17;
    let ne = ident_run_end_exec(after, 0, alen);
    if ne == 0 {
        return copy_str(line);
    }
    let name = after.substring_char(0, ne);
    let rest = after.substring_char(ne, alen);
    let segs = split_amp(rest);
    if segs.len() < 2 {
        return copy_str(line);
    }
    let ghost gsegs = split_amp_from(rest@, 0);
    let mut k: usize = 0;
    let last = segs.len() - 1;
    while k < last
        invariant
            last == segs@.len() - 1,
            strs_view(segs@) == gsegs,
            k <= last,
            forall|j: int| 0 <= j < k ==> is_bare_ident(#[trigger] gsegs[j]),
        decreases last - k,
    {
        if !is_bare_ident_exec(segs[k].as_str()) {
            proof {
                assert(gsegs[k as int] == segs@[k as int]@);
                assert(!segs_ok(gsegs));
            }
            return copy_str(line);
        }
        k += 1;
    }
    let last_trim = trim(segs[last].as_str());
    let last_empty = last_trim.as_str().unicode_len() == 0;
    if !last_empty && !is_bare_ident_exec(segs[last].as_str()) {
        proof {
            assert(gsegs.last() == segs@[last as int]@);
            assert(!segs_ok(gsegs));
        }
        return copy_str(line);
    }
    proof {
        assert(gsegs.last() == segs@[last as int]@);
        assert(segs_ok(gsegs));
    }
    let kept_len = if last_empty {
        last
    } else {
        segs.len()
    };
    let mut ids: Vec<String> = Vec::new();
    let mut k2: usize = 0;
    while k2 < kept_len
        invariant
            kept_len <= segs@.len(),
            strs_view(segs@) == gsegs,
            k2 <= kept_len,
            ids@.len() == k2,
            forall|j: int| 0 <= j < k2 ==> ids@[j]@ == trimmed(#[trigger] gsegs[j]),
        decreases kept_len - k2,
    {
        let t = trim(segs[k2].as_str());
        ids.push(t);
        k2 += 1;
    }
    proof {
        let ghost kept = if trimmed(gsegs.last()).len() == 0 {
            gsegs.drop_last()
        } else {
            gsegs
        };
        assert(strs_view(ids@) =~= seg_ids(gsegs));
    }
    let mut out = String::from_str("export interface ");
    out.append(name);
    out.append(" extends ");
    let idtext = join_strs(&ids, ", ");
    out.append(idtext.as_str());
    out.append(" ");
    let tail = line.substring_char(b, n);
    out.append(tail);
    proof {
        assert(out@ =~= rewritten(line@));
    }
    out
}

/// A declaration whose pre-brace text holds no ` & ` is returned unchanged:
/// the rewrite is a no-op on every input without an intersection.
pub proof fn lemma_rewrite_no_op(s: Seq<char>)
    requires
        forall|i: int| !amp_at(s, i),
    ensures
        rewritten(s) == s,
{
    let b = find_brace_from(s, 0);
    lemma_find_brace_from_props(s, 0);
    if b >= 0 {
        let head = s.subrange(0, b);
        if starts_with(head, decl_head()) {
            let after = head.subrange(decl_head().len() as int, head.len() as int);
            let ne = ident_run_end(after, 0);
            lemma_ident_run_end_bounds(after, 0);
            if ne != 0 {
                let rest = after.subrange(ne, after.len() as int);
                let off = decl_head().len() + ne;
                assert forall|k: int| !amp_at(rest, k) by {
                    if amp_at(rest, k) {
                        assert(rest[k] == s[off + k]);
                        assert(rest[k + 1] == s[off + k + 1]);
                        assert(rest[k + 2] == s[off + k + 2]);
                        assert(amp_at(s, off + k));
                    }
                }
                lemma_find_amp_from_none(rest, 0);
                assert(split_amp_from(rest, 0) == seq![rest.subrange(0, rest.len() as int)]);
                assert(split_amp_from(rest, 0).len() == 1);
            }
        }
    }
}

} // verus!
