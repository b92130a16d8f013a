//! The document outline: a tree of titled entries, each pointing at a
//! page. The tree is owned and acyclic; depth is unbounded.

use vstd::prelude::*;

verus! {

/// One outline entry: a title, the page it targets, and its children
/// in document order.
pub struct OutlineItem {
    /// Title shown for the entry.
    pub title: String,
    /// Page index the entry navigates to.
    pub page: usize,
    /// Child entries, in document order.
    pub children: Vec<OutlineItem>,
}

impl OutlineItem {
    /// A leaf entry with no children.
    pub fn new(title: String, page: usize) -> (r: OutlineItem)
        ensures
            r.title == title,
            r.page == page,
            r.children@ =~= Seq::<OutlineItem>::empty(),
    {
        OutlineItem { title, page, children: Vec::new() }
    }
}

} // verus!
