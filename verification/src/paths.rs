//! Path text helpers: the file-name part of a path and the check for a
//! `.pdf` extension.
//!
//! Paths are plain strings here. The file-name part is everything after
//! the last `/` or `\`, with trailing separators ignored first — so
//! `dir/name/` names `name`, the way the standard library reads a
//! path's file name. A file has a `.pdf` extension when its name has a
//! last dot that is not its first character and the three characters
//! after that dot spell `pdf` in any case.

use vstd::prelude::*;
use vstd::string::*;

verus! {

/// A path separator character.
pub open spec fn is_sep(c: char) -> bool {
    c == '/' || c == '\\'
}

/// `p` without its trailing separators.
pub open spec fn spec_strip_trailing_seps(p: Seq<char>) -> Seq<char>
    decreases p.len(),
{
    if p.len() > 0 && is_sep(p.last()) {
        spec_strip_trailing_seps(p.drop_last())
    } else {
        p
    }
}

/// The characters after the last separator of `p`. Empty when `p` is
/// empty or ends in a separator.
pub open spec fn spec_suffix_after_sep(p: Seq<char>) -> Seq<char>
    decreases p.len(),
{
    if p.len() == 0 {
        Seq::empty()
    } else if is_sep(p.last()) {
        Seq::empty()
    } else {
        spec_suffix_after_sep(p.drop_last()).push(p.last())
    }
}

/// The file-name part of a path: the characters after the last
/// separator, trailing separators dropped first. Empty when nothing but
/// separators remains.
pub open spec fn spec_file_name_part(p: Seq<char>) -> Seq<char> {
    spec_suffix_after_sep(spec_strip_trailing_seps(p))
}

/// When everything from `e` on is a separator and `e` is the start or
/// follows a non-separator, stripping trailing separators keeps exactly
/// the prefix up to `e`.
proof fn lemma_strip_trailing_seps_at(p: Seq<char>, e: int)
    requires
        0 <= e <= p.len(),
        forall|k: int| e <= k < p.len() ==> is_sep(#[trigger] p[k]),
        e == 0 || !is_sep(p[e - 1]),
    ensures
        spec_strip_trailing_seps(p) == p.subrange(0, e),
    decreases p.len(),
{
    if e == p.len() {
        if p.len() > 0 && is_sep(p.last()) {
            assert(false);
        }
        assert(spec_strip_trailing_seps(p) =~= p.subrange(0, e));
    } else {
        let q = p.drop_last();
        assert(forall|k: int| e <= k < q.len() ==> is_sep(#[trigger] q[k]));
        lemma_strip_trailing_seps_at(q, e);
        assert(q.subrange(0, e) =~= p.subrange(0, e));
    }
}

/// When no separator occurs at or after position `j` and `j` is either
/// the start or just past a separator, the suffix after the last
/// separator is exactly the suffix of `p` from `j`.
proof fn lemma_suffix_after_sep_at(p: Seq<char>, j: int)
    requires
        0 <= j <= p.len(),
        forall|k: int| j <= k < p.len() ==> !is_sep(#[trigger] p[k]),
        j == 0 || is_sep(p[j - 1]),
    ensures
        spec_suffix_after_sep(p) == p.subrange(j, p.len() as int),
    decreases p.len(),
{
    if p.len() == 0 {
        assert(spec_suffix_after_sep(p) =~= p.subrange(j, p.len() as int));
    } else if j == p.len() {
        assert(is_sep(p.last()));
        assert(spec_suffix_after_sep(p) =~= p.subrange(j, p.len() as int));
    } else {
        assert(!is_sep(p.last()));
        let q = p.drop_last();
        assert(forall|k: int| j <= k < q.len() ==> !is_sep(#[trigger] q[k]));
        lemma_suffix_after_sep_at(q, j);
        assert(spec_suffix_after_sep(p) =~= p.subrange(j, p.len() as int));
    }
}

/// The name shown for a path without a file-name part.
pub open spec fn spec_untitled() -> Seq<char> {
    "Untitled"@
}

/// The display name of a path: its file-name part, or `Untitled` when
/// that part is empty.
pub open spec fn spec_display_name(p: Seq<char>) -> Seq<char> {
    if spec_file_name_part(p).len() == 0 {
        spec_untitled()
    } else {
        spec_file_name_part(p)
    }
}

/// The file-name part of `p` spells a name with a `.pdf` extension:
/// a last dot after at least one leading character, then `pdf` in any
/// letter case.
pub open spec fn spec_is_pdf_path(p: Seq<char>) -> bool {
    let f = spec_file_name_part(p);
    let n = f.len() as int;
    &&& n >= 5
    &&& f[n - 4] == '.'
    &&& (f[n - 3] == 'p' || f[n - 3] == 'P')
    &&& (f[n - 2] == 'd' || f[n - 2] == 'D')
    &&& (f[n - 1] == 'f' || f[n - 1] == 'F')
}

/// Index past the last non-separator of `p`: where the file-name part
/// ends once trailing separators are ignored.
fn name_end_index(p: &str) -> (e: usize)
    ensures
        e <= p@.len(),
        forall|k: int| e <= k < p@.len() ==> is_sep(#[trigger] p@[k]),
        e == 0 || !is_sep(p@[e - 1]),
{
    let len = p.unicode_len();
    let mut e = len;
    while e > 0
        invariant
            e <= len,
            len == p@.len(),
            forall|k: int| e <= k < p@.len() ==> is_sep(#[trigger] p@[k]),
        decreases e,
    {
        let c = p.get_char(e - 1);
        if !(c == '/' || c == '\\') {
            return e;
        }
        e = e - 1;
    }
    0
}

/// Index just past the last separator before `e`: where the file-name
/// part starts.
fn name_start_index(p: &str, e: usize) -> (j: usize)
    requires
        e <= p@.len(),
    ensures
        j <= e,
        forall|k: int| j <= k < e ==> !is_sep(#[trigger] p@[k]),
        j == 0 || is_sep(p@[j - 1]),
{
    let mut j = e;
    while j > 0
        invariant
            j <= e,
            e <= p@.len(),
            forall|k: int| j <= k < e ==> !is_sep(#[trigger] p@[k]),
        decreases j,
    {
        let c = p.get_char(j - 1);
        if c == '/' || c == '\\' {
            return j;
        }
        j = j - 1;
    }
    0
}

/// Start and end of the file-name part within `p`.
fn file_name_bounds(p: &str) -> (r: (usize, usize))
    ensures
        ({
            let (j, e) = r;
            &&& j <= e <= p@.len()
            &&& spec_file_name_part(p@) == p@.subrange(j as int, e as int)
        }),
{
    let e = name_end_index(p);
    let j = name_start_index(p, e);
    proof {
        lemma_strip_trailing_seps_at(p@, e as int);
        let head = p@.subrange(0, e as int);
        assert(forall|k: int| j <= k < head.len() ==> !is_sep(#[trigger] head[k]));
        if j > 0 {
            assert(head[j - 1] == p@[j - 1]);
        }
        lemma_suffix_after_sep_at(head, j as int);
        assert(head.subrange(j as int, head.len() as int) =~= p@.subrange(j as int, e as int));
    }
    (j, e)
}

/// Whether the path names a PDF file: its file name carries a `.pdf`
/// extension in any letter case.
pub fn is_pdf_file(path: &str) -> (r: bool)
    ensures
        r == spec_is_pdf_path(path@),
{
    let (j, e) = file_name_bounds(path);
    if e - j < 5 {
        return false;
    }
    let dot = path.get_char(e - 4);
    let c1 = path.get_char(e - 3);
    let c2 = path.get_char(e - 2);
    let c3 = path.get_char(e - 1);
    dot == '.' && (c1 == 'p' || c1 == 'P') && (c2 == 'd' || c2 == 'D') && (c3 == 'f' || c3 == 'F')
}

/// The display name of a path: the part after the last separator, or
/// `Untitled` when there is none.
pub fn display_name(path: &str) -> (r: String)
    ensures
        r@ == spec_display_name(path@),
{
    let (j, e) = file_name_bounds(path);
    if j == e {
        String::from_str("Untitled")
    } else {
        let part = path.substring_char(j, e);
        String::from_str(part)
    }
}

} // verus!
