//! Durable user preferences: the recent-files list, the default zoom,
//! the theme and the language.
//!
//! The recent-files list is most-recent-first, holds no duplicates and
//! never exceeds ten entries; re-inserting a path that is already
//! listed moves it to the front instead of duplicating it. Reading and
//! writing the persisted form of this record is the caller's business:
//! the type itself is plain data.

use vstd::prelude::*;
use vstd::string::StringExecFns;
use crate::i18n::Language;
use crate::theme::Theme;
use crate::zoom_valid;
use crate::ZOOM_DEFAULT;

verus! {

/// Most entries the recent-files list may hold.
pub const RECENT_FILES_CAP: usize = 10;

/// The character sequences of a list of strings, in order.
pub open spec fn views_of(v: Seq<String>) -> Seq<Seq<char>> {
    v.map_values(|s: String| s@)
}

/// Viewing distributes over appending one string.
pub proof fn lemma_views_push(v: Seq<String>, s: String)
    ensures
        views_of(v.push(s)) == views_of(v).push(s@),
{
    assert(views_of(v.push(s)) =~= views_of(v).push(s@));
}

/// No two entries of the sequence hold the same characters.
pub open spec fn spec_distinct(s: Seq<Seq<char>>) -> bool {
    forall|i: int, j: int| 0 <= i < j < s.len() ==> s[i] != s[j]
}

/// The entries of `l` that differ from `p`, in order.
pub open spec fn spec_retained(l: Seq<Seq<char>>, p: Seq<char>) -> Seq<Seq<char>>
    decreases l.len(),
{
    if l.len() == 0 {
        Seq::empty()
    } else {
        let r = spec_retained(l.drop_last(), p);
        if l.last() != p {
            r.push(l.last())
        } else {
            r
        }
    }
}

/// What retaining keeps: no entry equal to `p`, only entries of `l`,
/// never more of them, and distinctness is preserved.
pub proof fn lemma_retained(l: Seq<Seq<char>>, p: Seq<char>)
    ensures
        spec_retained(l, p).len() <= l.len(),
        forall|i: int|
            0 <= i < spec_retained(l, p).len() ==> (#[trigger] spec_retained(l, p)[i]) != p
                && l.contains(spec_retained(l, p)[i]),
        spec_distinct(l) ==> spec_distinct(spec_retained(l, p)),
    decreases l.len(),
{
    if l.len() > 0 {
        let q = l.drop_last();
        lemma_retained(q, p);
        assert(forall|i: int| 0 <= i < q.len() ==> q[i] == l[i]);
        assert forall|i: int|
            0 <= i < spec_retained(q, p).len() implies l.contains(
            #[trigger] spec_retained(q, p)[i],
        ) by {
            let j = choose|j: int| 0 <= j < q.len() && q[j] == spec_retained(q, p)[i];
            assert(l[j] == spec_retained(q, p)[i]);
        }
        if spec_distinct(l) {
            assert(spec_distinct(q));
            if l.last() != p {
                let r = spec_retained(q, p);
                assert forall|i: int, j: int|
                    0 <= i < j < r.push(l.last()).len() implies r.push(l.last())[i] != r.push(
                    l.last(),
                )[j] by {
                    if j == r.len() {
                        let k = choose|k: int| 0 <= k < q.len() && q[k] == r[i];
                        assert(l[k] == r[i]);
                        assert(l[k] != l[l.len() - 1]);
                    }
                }
            }
        }
    }
}

/// The recent-files list after opening `p` when it was `l`: `p` first,
/// then every other entry in its old order, cut to the cap.
pub open spec fn spec_add_recent(l: Seq<Seq<char>>, p: Seq<char>) -> Seq<Seq<char>> {
    let m = seq![p] + spec_retained(l, p);
    if m.len() <= RECENT_FILES_CAP {
        m
    } else {
        m.subrange(0, RECENT_FILES_CAP as int)
    }
}

/// Re-inserting a path into a duplicate-free list puts it first, keeps
/// the list duplicate-free, and never grows it beyond the cap.
pub proof fn lemma_recent_insert(l: Seq<Seq<char>>, p: Seq<char>)
    requires
        spec_distinct(l),
    ensures
        spec_add_recent(l, p).len() <= RECENT_FILES_CAP,
        spec_add_recent(l, p).len() >= 1 && spec_add_recent(l, p)[0] == p,
        spec_distinct(spec_add_recent(l, p)),
{
    lemma_retained(l, p);
    let m = seq![p] + spec_retained(l, p);
    assert(m[0] == p);
    assert forall|i: int, j: int| 0 <= i < j < m.len() implies m[i] != m[j] by {
        if i == 0 {
            assert(m[j] == spec_retained(l, p)[j - 1]);
        } else {
            assert(m[i] == spec_retained(l, p)[i - 1]);
            assert(m[j] == spec_retained(l, p)[j - 1]);
        }
    }
}

/// The process-durable preferences.
pub struct AppConfig {
    /// Recently opened paths, most recent first; no duplicates, at most
    /// ten entries.
    pub recent_files: Vec<String>,
    /// Zoom given to newly opened documents, in hundredths.
    pub default_zoom: u32,
    /// Selected theme.
    pub theme: Theme,
    /// Selected language.
    pub language: Language,
}

impl AppConfig {
    /// The recent-files list as plain character sequences.
    pub open spec fn spec_recent(self) -> Seq<Seq<char>> {
        views_of(self.recent_files@)
    }

    /// The configuration invariant: a bounded, duplicate-free recent
    /// list and a zoom within policy.
    pub open spec fn wf(self) -> bool {
        &&& zoom_valid(self.default_zoom)
        &&& self.spec_recent().len() <= RECENT_FILES_CAP
        &&& spec_distinct(self.spec_recent())
    }

    /// Moves `path` to the front of the recent-files list, dropping any
    /// old entry for it and anything beyond the cap.
    pub fn add_recent(&mut self, path: String)
        requires
            old(self).wf(),
        ensures
            final(self).wf(),
            final(self).spec_recent() == spec_add_recent(old(self).spec_recent(), path@),
            final(self).default_zoom == old(self).default_zoom,
            final(self).theme == old(self).theme,
            final(self).language == old(self).language,
    {
        let ghost l = old(self).spec_recent();
        let n = self.recent_files.len();
        let mut out: Vec<String> = Vec::new();
        out.push(path.clone());
        proof {
            assert(views_of(out@) =~= seq![path@] + spec_retained(l.subrange(0, 0), path@));
        }
        let mut i: usize = 0;
        while i < n
            invariant
                i <= n,
                n == self.recent_files@.len(),
                l == self.spec_recent(),
                views_of(out@) == seq![path@] + spec_retained(l.subrange(0, i as int), path@),
            decreases n - i,
        {
            let ghost prefix = l.subrange(0, i as int);
            let ghost prefix2 = l.subrange(0, i + 1);
            let ghost out0 = out@;
            proof {
                assert(prefix2.drop_last() =~= prefix);
                assert(prefix2.last() == l[i as int]);
                assert(l[i as int] == self.recent_files@[i as int]@);
            }
            let same = self.recent_files[i].eq(&path);
            if !same {
                let entry = self.recent_files[i].clone();
                proof {
                    lemma_views_push(out0, entry);
                }
                out.push(entry);
                proof {
                    assert(spec_retained(prefix2, path@) == spec_retained(prefix, path@).push(
                        l[i as int],
                    ));
                    assert(views_of(out@) =~= seq![path@] + spec_retained(prefix2, path@));
                }
            } else {
                proof {
                    assert(spec_retained(prefix2, path@) == spec_retained(prefix, path@));
                }
            }
            i = i + 1;
        }
        proof {
            assert(l.subrange(0, n as int) =~= l);
        }
        self.recent_files = out;
        self.recent_files.truncate(RECENT_FILES_CAP);
        proof {
            lemma_recent_insert(l, path@);
            let m = seq![path@] + spec_retained(l, path@);
            if m.len() <= RECENT_FILES_CAP {
                assert(self.spec_recent() =~= m);
            } else {
                assert(self.spec_recent() =~= m.subrange(0, RECENT_FILES_CAP as int));
            }
        }
    }

    /// Drops every entry for `path` from the recent-files list.
    pub fn remove_from_recent(&mut self, path: &str)
        requires
            old(self).wf(),
        ensures
            final(self).wf(),
            final(self).spec_recent() == spec_retained(old(self).spec_recent(), path@),
            final(self).default_zoom == old(self).default_zoom,
            final(self).theme == old(self).theme,
            final(self).language == old(self).language,
    {
        let ghost l = old(self).spec_recent();
        let n = self.recent_files.len();
        let key = String::from_str(path);
        let mut out: Vec<String> = Vec::new();
        proof {
            assert(views_of(out@) =~= spec_retained(l.subrange(0, 0), path@));
        }
        let mut i: usize = 0;
        while i < n
            invariant
                i <= n,
                n == self.recent_files@.len(),
                l == self.spec_recent(),
                key@ == path@,
                views_of(out@) == spec_retained(l.subrange(0, i as int), path@),
            decreases n - i,
        {
            let ghost prefix = l.subrange(0, i as int);
            let ghost prefix2 = l.subrange(0, i + 1);
            let ghost out0 = out@;
            proof {
                assert(prefix2.drop_last() =~= prefix);
                assert(prefix2.last() == l[i as int]);
                assert(l[i as int] == self.recent_files@[i as int]@);
            }
            let same = self.recent_files[i].eq(&key);
            if !same {
                let entry = self.recent_files[i].clone();
                proof {
                    lemma_views_push(out0, entry);
                }
                out.push(entry);
                proof {
                    assert(spec_retained(prefix2, path@) == spec_retained(prefix, path@).push(
                        l[i as int],
                    ));
                    assert(views_of(out@) =~= spec_retained(prefix2, path@));
                }
            } else {
                proof {
                    assert(spec_retained(prefix2, path@) == spec_retained(prefix, path@));
                }
            }
            i = i + 1;
        }
        proof {
            assert(l.subrange(0, n as int) =~= l);
            lemma_retained(l, path@);
        }
        self.recent_files = out;
    }
}

impl Default for AppConfig {
    /// The built-in defaults used when nothing was persisted: no recent
    /// files, unscaled zoom, dark theme, English.
    fn default() -> (r: AppConfig)
        ensures
            r.wf(),
            r.spec_recent() == Seq::<Seq<char>>::empty(),
            r.default_zoom == ZOOM_DEFAULT,
            r.theme == Theme::Dark,
            r.language == Language::English,
    {
        let recent_files: Vec<String> = Vec::new();
        proof {
            assert(views_of(recent_files@) =~= Seq::<Seq<char>>::empty());
        }
        AppConfig { recent_files, default_zoom: ZOOM_DEFAULT, theme: Theme::Dark, language: Language::English }
    }
}

} // verus!
