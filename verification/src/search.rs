//! Case-insensitive text search over extracted page texts, with a
//! short preview around the first hit.
//!
//! The engine extracts each page's text outside this crate; matching
//! pages against a query, and cutting the preview windows, is pure text
//! work and is done and proved here. Case folding itself comes from the
//! standard library and is only named, not restated: a page hits when
//! its folded text contains the folded query.

use vstd::prelude::*;
use vstd::string::StrSliceExecFns;
use vstd::string::StringExecFns;

verus! {

/// How many characters of context the preview keeps on each side of a
/// hit.
pub const PREVIEW_CONTEXT: usize = 30;

/// How many characters the preview keeps when the hit cannot be placed.
pub const PREVIEW_FALLBACK: usize = 60;

/// One page that matched a search, with a short preview of the hit.
pub struct SearchResult {
    /// Page index within the searched document.
    pub page: usize,
    /// Text around the first hit on that page.
    pub preview: String,
}

/// What lowercasing a string yields. The mapping is the standard
/// library's and depends on the characters alone; nothing more is
/// assumed of it.
pub uninterp spec fn lower_of(s: Seq<char>) -> Seq<char>;

/// Relies on str::to_lowercase: the lowercase form of a string, a pure
/// function of its characters.
#[verifier::external_body]
fn lowercase(s: &str) -> (r: String)
    ensures
        r@ == lower_of(s@),
{
    s.to_lowercase()
}

/// The query occurs in the text starting at position `i`.
pub open spec fn spec_matches_at(text: Seq<char>, q: Seq<char>, i: int) -> bool {
    &&& 0 <= i
    &&& i + q.len() <= text.len()
    &&& text.subrange(i, i + q.len()) == q
}

/// Position of the first occurrence of `q` at or after `i`, when one
/// exists.
pub open spec fn spec_find_first_from(text: Seq<char>, q: Seq<char>, i: int) -> Option<int>
    decreases text.len() - i + 1,
{
    if i < 0 || i + q.len() > text.len() {
        None
    } else if spec_matches_at(text, q, i) {
        Some(i)
    } else {
        spec_find_first_from(text, q, i + 1)
    }
}

/// Position of the first occurrence of `q` in the text, when one
/// exists.
pub open spec fn spec_find_first(text: Seq<char>, q: Seq<char>) -> Option<int> {
    spec_find_first_from(text, q, 0)
}

/// What the first-occurrence position means: a found position is a
/// match and nothing before it is; no position means no match anywhere.
pub proof fn lemma_find_first_characterizes(text: Seq<char>, q: Seq<char>, i: int)
    requires
        0 <= i,
    ensures
        spec_find_first_from(text, q, i) matches Some(p) ==> i <= p && spec_matches_at(
            text,
            q,
            p,
        ) && forall|j: int| i <= j < p ==> !spec_matches_at(text, q, j),
        spec_find_first_from(text, q, i) is None ==> forall|j: int|
            j >= i ==> !spec_matches_at(text, q, j),
    decreases text.len() - i + 1,
{
    if i < 0 || i + q.len() > text.len() {
    } else if spec_matches_at(text, q, i) {
    } else {
        lemma_find_first_characterizes(text, q, i + 1);
    }
}

/// Whether the query occurs in the text starting at position `i`.
fn matches_at(text: &str, q: &str, i: usize) -> (r: bool)
    ensures
        r == spec_matches_at(text@, q@, i as int),
{
    let tlen = text.unicode_len();
    let qlen = q.unicode_len();
    if i > tlen || qlen > tlen - i {
        return false;
    }
    let mut j: usize = 0;
    while j < qlen
        invariant
            0 <= j <= qlen,
            tlen == text@.len(),
            qlen == q@.len(),
            i + qlen <= tlen,
            forall|k: int| 0 <= k < j ==> text@[i + k] == q@[k],
        decreases qlen - j,
    {
        if text.get_char(i + j) != q.get_char(j) {
            proof {
                let sub = text@.subrange(i as int, i + qlen);
                assert(sub[j as int] != q@[j as int]);
            }
            return false;
        }
        j = j + 1;
    }
    proof {
        assert(text@.subrange(i as int, i + qlen) =~= q@);
    }
    true
}

/// Position of the first occurrence of `q` in the text, when one
/// exists.
fn find_first(text: &str, q: &str) -> (r: Option<usize>)
    ensures
        r matches Some(i) ==> spec_find_first(text@, q@) == Some(i as int),
        r is None ==> spec_find_first(text@, q@) is None,
{
    let tlen = text.unicode_len();
    let qlen = q.unicode_len();
    if qlen > tlen {
        return None;
    }
    let bound = tlen - qlen;
    let mut i: usize = 0;
    loop
        invariant
            0 <= i <= bound,
            bound == tlen - qlen,
            qlen <= tlen,
            tlen == text@.len(),
            qlen == q@.len(),
            spec_find_first(text@, q@) == spec_find_first_from(text@, q@, i as int),
        decreases bound - i,
    {
        if matches_at(text, q, i) {
            return Some(i);
        }
        if i == bound {
            proof {
                assert(spec_find_first_from(text@, q@, i + 1) is None);
            }
            return None;
        }
        i = i + 1;
    }
}

/// The preview cut for a hit: up to thirty characters of context on
/// each side of the hit at `pos`, prefixed with an ellipsis when the
/// cut does not start the text; without a placeable hit, the first
/// sixty characters. Positions past the end are drawn back to it.
pub open spec fn spec_preview(text: Seq<char>, qlen: int, pos: Option<int>) -> Seq<char>
    recommends
        qlen >= 0,
{
    match pos {
        Some(p0) => {
            let p = if p0 > text.len() {
                text.len() as int
            } else {
                p0
            };
            let start = if p >= PREVIEW_CONTEXT {
                p - PREVIEW_CONTEXT
            } else {
                0
            };
            let end = if p + qlen + PREVIEW_CONTEXT > text.len() {
                text.len() as int
            } else {
                p + qlen + PREVIEW_CONTEXT
            };
            if start > 0 {
                "..."@ + text.subrange(start, end)
            } else {
                text.subrange(start, end)
            }
        },
        None => {
            if text.len() <= PREVIEW_FALLBACK {
                text
            } else {
                text.subrange(0, PREVIEW_FALLBACK as int)
            }
        },
    }
}

/// Cuts the preview around a hit of `qlen` characters at `pos`.
fn extract_preview(text: &str, qlen: usize, pos: Option<usize>) -> (r: String)
    ensures
        r@ == spec_preview(text@, qlen as int, match pos {
            Some(p) => Some(p as int),
            None => None,
        }),
{
    let tlen = text.unicode_len();
    match pos {
        Some(p0) => {
            let p = if p0 > tlen {
                tlen
            } else {
                p0
            };
            let start = if p >= PREVIEW_CONTEXT {
                p - PREVIEW_CONTEXT
            } else {
                0
            };
            let end = if (p as u128) + (qlen as u128) + (PREVIEW_CONTEXT as u128) > (
            tlen as u128) {
                tlen
            } else {
                p + qlen + PREVIEW_CONTEXT
            };
            let window = text.substring_char(start, end);
            if start > 0 {
                let mut out = String::from_str("...");
                out.append(window);
                out
            } else {
                String::from_str(window)
            }
        },
        None => {
            let end = if tlen <= PREVIEW_FALLBACK {
                tlen
            } else {
                PREVIEW_FALLBACK
            };
            let window = text.substring_char(0, end);
            proof {
                if text@.len() <= PREVIEW_FALLBACK {
                    assert(text@.subrange(0, end as int) =~= text@);
                }
            }
            String::from_str(window)
        },
    }
}

/// The preview shown for a page: its text cut around the first
/// case-insensitive hit of the query.
pub open spec fn spec_page_preview(text: Seq<char>, query: Seq<char>) -> Seq<char> {
    spec_preview(text, lower_of(query).len() as int, spec_find_first(lower_of(text), lower_of(query)))
}

/// The page's folded text contains the folded query.
pub open spec fn spec_page_hit(text: Seq<char>, query: Seq<char>) -> bool {
    spec_find_first(lower_of(text), lower_of(query)) is Some
}

/// Searches the pages' texts for a query, case-insensitively: exactly
/// the hit pages come back, in page order, each with its preview.
pub fn search_texts(texts: &Vec<String>, query: &str) -> (r: Vec<SearchResult>)
    ensures
        forall|k: int|
            0 <= k < r@.len() ==> {
                let sr = #[trigger] r@[k];
                &&& sr.page < texts@.len()
                &&& spec_page_hit(texts@[sr.page as int]@, query@)
                &&& sr.preview@ == spec_page_preview(texts@[sr.page as int]@, query@)
            },
        forall|p: int|
            0 <= p < texts@.len() && spec_page_hit(#[trigger] texts@[p]@, query@)
                ==> exists|k: int| 0 <= k < r@.len() && (#[trigger] r@[k]).page == p,
        forall|k1: int, k2: int| 0 <= k1 < k2 < r@.len() ==> r@[k1].page < r@[k2].page,
{
    let query_lower = lowercase(query);
    let n = texts.len();
    let mut results: Vec<SearchResult> = Vec::new();
    let mut page: usize = 0;
    while page < n
        invariant
            0 <= page <= n,
            n == texts@.len(),
            query_lower@ == lower_of(query@),
            forall|k: int|
                0 <= k < results@.len() ==> {
                    let sr = #[trigger] results@[k];
                    &&& sr.page < page
                    &&& spec_page_hit(texts@[sr.page as int]@, query@)
                    &&& sr.preview@ == spec_page_preview(texts@[sr.page as int]@, query@)
                },
            forall|p: int|
                0 <= p < page && spec_page_hit(#[trigger] texts@[p]@, query@)
                    ==> exists|k: int|
                    0 <= k < results@.len() && (#[trigger] results@[k]).page == p,
            forall|k1: int, k2: int|
                0 <= k1 < k2 < results@.len() ==> results@[k1].page < results@[k2].page,
        decreases n - page,
    {
        let ghost old_results = results@;
        let text_lower = lowercase(texts[page].as_str());
        let found = find_first(text_lower.as_str(), query_lower.as_str());
        match found {
            Some(pos) => {
                let preview = extract_preview(
                    texts[page].as_str(),
                    query_lower.unicode_len(),
                    Some(pos),
                );
                results.push(SearchResult { page, preview });
                proof {
                    assert(spec_page_hit(texts@[page as int]@, query@));
                    assert(results@.last().preview@ == spec_page_preview(
                        texts@[page as int]@,
                        query@,
                    ));
                    assert forall|p: int|
                        0 <= p < page + 1 && spec_page_hit(
                            #[trigger] texts@[p]@,
                            query@,
                        ) implies exists|k: int|
                        0 <= k < results@.len() && (#[trigger] results@[k]).page == p by {
                        if p < page {
                            let k = choose|k: int|
                                0 <= k < old_results.len() && (#[trigger] old_results[k]).page
                                    == p;
                            assert(results@[k].page == p);
                        } else {
                            assert(results@[results@.len() - 1].page == p);
                        }
                    }
                }
            },
            None => {
                proof {
                    assert(!spec_page_hit(texts@[page as int]@, query@));
                }
            },
        }
        page = page + 1;
    }
    results
}

} // verus!
