//! The tab registry: the ordered collection of open documents, each
//! with its own viewing state, and the single active-tab cell.
//!
//! Tabs are kept in creation order and addressed by an id that is never
//! reused. Closing a tab never reorders the survivors; closing the
//! active tab promotes a deterministic neighbour: the tab now at the
//! same position, else the new last tab, else none.

use vstd::prelude::*;
use crate::outline::OutlineItem;
use crate::paths;
use crate::raster::PageImage;
use crate::rotation_valid;
use crate::zoom_valid;
use crate::ZOOM_DEFAULT;

verus! {

/// One open document's viewing session.
pub struct Tab {
    /// Registry-assigned id, unique for the process lifetime.
    pub id: usize,
    /// Path the document was opened from.
    pub path: String,
    /// Engine handle slot of the opened document; absent until the open
    /// completes.
    pub doc: Option<u64>,
    /// Total number of pages; zero until the document is opened.
    pub page_count: usize,
    /// Page currently shown.
    pub current_page: usize,
    /// Zoom factor in hundredths, within the policy bounds.
    pub zoom: u32,
    /// Rotation in degrees: one of 0, 90, 180 or 270.
    pub rotation: usize,
    /// Outline of the document, when one could be read.
    pub outline_items: Option<Vec<OutlineItem>>,
    /// Cached render of the current page, set together with its
    /// dimensions.
    pub page_image: Option<PageImage>,
    /// Pixel dimensions of the cached render, after rotation.
    pub page_dimensions: Option<(u32, u32)>,
}

impl Tab {
    /// The state every tab holds at all times: zoom and rotation within
    /// policy, the current page inside the document, and the cached
    /// image and its dimensions present together and consistent.
    pub open spec fn wf(self) -> bool {
        &&& zoom_valid(self.zoom)
        &&& rotation_valid(self.rotation)
        &&& (self.page_count == 0 ==> self.current_page == 0)
        &&& (self.page_count > 0 ==> self.current_page < self.page_count)
        &&& (self.page_image is Some <==> self.page_dimensions is Some)
        &&& (self.page_image matches Some(img) ==> img.wf() && self.page_dimensions == Some(
            (img.width, img.height),
        ))
    }

    /// A freshly created, unrendered tab for `path`.
    pub open spec fn spec_new(id: usize, path: String) -> Tab {
        Tab {
            id,
            path,
            doc: None,
            page_count: 0,
            current_page: 0,
            zoom: ZOOM_DEFAULT,
            rotation: 0,
            outline_items: None,
            page_image: None,
            page_dimensions: None,
        }
    }

    /// Creates a tab in the unrendered state: no document, no pages,
    /// default zoom, no rotation, nothing cached.
    pub fn new(id: usize, path: String) -> (r: Tab)
        ensures
            r == Tab::spec_new(id, path),
            r.wf(),
    {
        Tab {
            id,
            path,
            doc: None,
            page_count: 0,
            current_page: 0,
            zoom: ZOOM_DEFAULT,
            rotation: 0,
            outline_items: None,
            page_image: None,
            page_dimensions: None,
        }
    }

    /// The name shown on the tab: the file-name part of the path, or
    /// `Untitled` when the path has none.
    pub fn file_name(&self) -> (r: String)
        ensures
            r@ == paths::spec_display_name(self.path@),
    {
        paths::display_name(self.path.as_str())
    }
}

/// The registry of open tabs and the active-tab cell.
pub struct TabManager {
    tabs: Vec<Tab>,
    active_tab_id: Option<usize>,
    next_tab_id: usize,
}

impl TabManager {
    /// The tabs, in creation order.
    pub closed spec fn spec_tabs(self) -> Seq<Tab> {
        self.tabs@
    }

    /// The id of the active tab, when one is active.
    pub closed spec fn spec_active_id(self) -> Option<usize> {
        self.active_tab_id
    }

    /// The id the next created tab will get.
    pub closed spec fn spec_next_id(self) -> usize {
        self.next_tab_id
    }

    /// Some tab carries this id.
    pub open spec fn spec_has_tab(self, tab_id: usize) -> bool {
        exists|i: int|
            0 <= i < self.spec_tabs().len() && #[trigger] self.spec_tabs()[i].id == tab_id
    }

    /// The registry invariant: every tab well formed, ids unique and
    /// below the allocator cell, and the active id present when set.
    pub open spec fn wf(self) -> bool {
        &&& forall|i: int|
            0 <= i < self.spec_tabs().len() ==> (#[trigger] self.spec_tabs()[i]).wf()
        &&& forall|i: int|
            0 <= i < self.spec_tabs().len() ==> (#[trigger] self.spec_tabs()[i]).id
                < self.spec_next_id()
        &&& forall|i: int, j: int|
            0 <= i < j < self.spec_tabs().len() ==> (#[trigger] self.spec_tabs()[i]).id != (
            #[trigger] self.spec_tabs()[j]).id
        &&& (self.spec_active_id() matches Some(a) ==> self.spec_has_tab(a))
    }

    /// An empty registry: no tabs, no active tab, ids starting at zero.
    pub fn new() -> (r: TabManager)
        ensures
            r.wf(),
            r.spec_tabs() == Seq::<Tab>::empty(),
            r.spec_active_id() is None,
            r.spec_next_id() == 0,
    {
        let tabs: Vec<Tab> = Vec::new();
        proof {
            assert(tabs@ =~= Seq::<Tab>::empty());
        }
        TabManager { tabs, active_tab_id: None, next_tab_id: 0 }
    }

    /// Index of the tab with the given id, when present.
    fn position_of(&self, tab_id: usize) -> (r: Option<usize>)
        ensures
            match r {
                Some(i) => i < self.spec_tabs().len() && self.spec_tabs()[i as int].id == tab_id,
                None => !self.spec_has_tab(tab_id),
            },
    {
        let n = self.tabs.len();
        let mut i: usize = 0;
        while i < n
            invariant
                i <= n,
                n == self.spec_tabs().len(),
                forall|j: int| 0 <= j < i ==> #[trigger] self.spec_tabs()[j].id != tab_id,
            decreases n - i,
        {
            if self.tabs[i].id == tab_id {
                return Some(i);
            }
            i = i + 1;
        }
        None
    }

    /// Allocates the next id, appends a fresh tab for `path`, and makes
    /// it active. Never fails.
    pub fn create_tab(&mut self, path: String) -> (id: usize)
        requires
            old(self).wf(),
            old(self).spec_next_id() < usize::MAX,
        ensures
            final(self).wf(),
            id == old(self).spec_next_id(),
            final(self).spec_next_id() == id + 1,
            final(self).spec_tabs() == old(self).spec_tabs().push(Tab::spec_new(id, path)),
            final(self).spec_active_id() == Some(id),
    {
        let id = self.next_tab_id;
        self.next_tab_id = id + 1;
        let tab = Tab::new(id, path);
        self.tabs.push(tab);
        self.active_tab_id = Some(id);
        proof {
            let ghost n = old(self).spec_tabs().len() as int;
            assert(self.spec_tabs()[n].id == id);
            assert(self.spec_has_tab(id));
        }
        id
    }

    /// The active id after the tab at position `i` (carrying `tab_id`)
    /// leaves `tabs`: unchanged while some other tab was active; else
    /// the tab now at the same position, else the new last tab, else
    /// none.
    pub open spec fn spec_promoted_active(
        tabs: Seq<Tab>,
        active: Option<usize>,
        i: int,
        tab_id: usize,
    ) -> Option<usize>
        recommends
            0 <= i < tabs.len(),
    {
        let rest = tabs.remove(i);
        if active != Some(tab_id) {
            active
        } else if rest.len() == 0 {
            None
        } else if i < rest.len() {
            Some(rest[i].id)
        } else {
            Some(rest.last().id)
        }
    }

    /// Removes the tab with the given id, if present, keeping the
    /// survivors in order; when the removed tab was active, promotes
    /// the deterministic neighbour. Unknown ids are ignored.
    pub fn close_tab(&mut self, tab_id: usize)
        requires
            old(self).wf(),
        ensures
            final(self).wf(),
            final(self).spec_next_id() == old(self).spec_next_id(),
            !old(self).spec_has_tab(tab_id) ==> *final(self) == *old(self),
            forall|i: int|
                0 <= i < old(self).spec_tabs().len() && (#[trigger] old(self).spec_tabs()[i]).id
                    == tab_id ==> {
                    &&& final(self).spec_tabs() == old(self).spec_tabs().remove(i)
                    &&& final(self).spec_active_id() == TabManager::spec_promoted_active(
                        old(self).spec_tabs(),
                        old(self).spec_active_id(),
                        i,
                        tab_id,
                    )
                },
    {
        let pos = self.position_of(tab_id);
        match pos {
            None => {},
            Some(i) => {
                let ghost otabs = old(self).spec_tabs();
                let ghost oact = old(self).spec_active_id();
                self.tabs.remove(i);
                proof {
                    let ghost rest = otabs.remove(i as int);
                    assert(self.spec_tabs() == rest);
                    assert(forall|k: int|
                        0 <= k < rest.len() ==> #[trigger] rest[k] == if k < i {
                            otabs[k]
                        } else {
                            otabs[k + 1]
                        });
                }
                let was_active = match self.active_tab_id {
                    Some(a) => a == tab_id,
                    None => false,
                };
                if was_active {
                    if self.tabs.len() == 0 {
                        self.active_tab_id = None;
                    } else {
                        let ni = if i < self.tabs.len() {
                            i
                        } else {
                            self.tabs.len() - 1
                        };
                        self.active_tab_id = Some(self.tabs[ni].id);
                        proof {
                            assert(self.spec_has_tab(self.spec_tabs()[ni as int].id));
                        }
                    }
                } else {
                    proof {
                        match oact {
                            Some(a) => {
                                assert(a != tab_id);
                                let j = choose|j: int|
                                    0 <= j < otabs.len() && #[trigger] otabs[j].id == a;
                                if j < i {
                                    assert(self.spec_tabs()[j].id == a);
                                } else {
                                    assert(j != i);
                                    assert(self.spec_tabs()[j - 1].id == a);
                                }
                                assert(self.spec_has_tab(a));
                            },
                            None => {},
                        }
                    }
                }
                proof {
                    assert forall|k: int|
                        0 <= k < otabs.len() && (#[trigger] otabs[k]).id == tab_id implies k
                        == i by {
                        if k != i {
                            assert(otabs[k].id != otabs[i as int].id);
                        }
                    }
                }
            },
        }
    }

    /// Makes the given tab active; ignored when the id is unknown.
    pub fn set_active_tab(&mut self, tab_id: usize)
        requires
            old(self).wf(),
        ensures
            final(self).wf(),
            final(self).spec_tabs() == old(self).spec_tabs(),
            final(self).spec_next_id() == old(self).spec_next_id(),
            final(self).spec_active_id() == if old(self).spec_has_tab(tab_id) {
                Some(tab_id)
            } else {
                old(self).spec_active_id()
            },
    {
        let pos = self.position_of(tab_id);
        if pos.is_some() {
            self.active_tab_id = Some(tab_id);
        }
    }

    /// The id of the active tab, when one is active.
    pub fn get_active_tab(&self) -> (r: Option<usize>)
        ensures
            r == self.spec_active_id(),
    {
        self.active_tab_id
    }

    /// The tab with the given id, when present.
    pub fn get_tab(&self, tab_id: usize) -> (r: Option<&Tab>)
        requires
            self.wf(),
        ensures
            r is Some <==> self.spec_has_tab(tab_id),
            forall|i: int|
                0 <= i < self.spec_tabs().len() && (#[trigger] self.spec_tabs()[i]).id == tab_id
                    ==> (r matches Some(t) && *t == self.spec_tabs()[i]),
    {
        let pos = self.position_of(tab_id);
        match pos {
            None => None,
            Some(i) => {
                proof {
                    assert forall|k: int|
                        0 <= k < self.spec_tabs().len() && (#[trigger] self.spec_tabs()[k]).id
                            == tab_id implies k == i by {
                        if k != i {
                            assert(self.spec_tabs()[k].id != self.spec_tabs()[i as int].id);
                        }
                    }
                }
                Some(&self.tabs[i])
            },
        }
    }

    /// Applies `f` to the tab with the given id, replacing the tab with
    /// the result; the single choke point through which tab state
    /// changes flow. Unknown ids are ignored. `f` must keep the id and
    /// the tab invariant.
    pub fn update_tab<F: FnOnce(Tab) -> Tab>(&mut self, tab_id: usize, f: F)
        requires
            old(self).wf(),
            forall|t: Tab| t.wf() && t.id == tab_id ==> call_requires(f, (t,)),
            forall|t: Tab, t2: Tab|
                t.wf() && t.id == tab_id && call_ensures(f, (t,), t2) ==> t2.wf() && t2.id
                    == tab_id,
        ensures
            final(self).wf(),
            final(self).spec_next_id() == old(self).spec_next_id(),
            final(self).spec_active_id() == old(self).spec_active_id(),
            !old(self).spec_has_tab(tab_id) ==> *final(self) == *old(self),
            forall|i: int|
                0 <= i < old(self).spec_tabs().len() && (#[trigger] old(self).spec_tabs()[i]).id
                    == tab_id ==> exists|t2: Tab|
                    call_ensures(f, (old(self).spec_tabs()[i],), t2) && final(self).spec_tabs()
                        == old(self).spec_tabs().update(i, t2),
    {
        let pos = self.position_of(tab_id);
        match pos {
            None => {},
            Some(i) => {
                let t = self.tabs.remove(i);
                let t2 = f(t);
                self.tabs.insert(i, t2);
                proof {
                    let ghost otabs = old(self).spec_tabs();
                    assert(self.spec_tabs() =~= otabs.update(i as int, t2));
                    assert forall|k: int|
                        0 <= k < otabs.len() && (#[trigger] otabs[k]).id == tab_id implies k
                        == i by {
                        if k != i {
                            assert(otabs[k].id != otabs[i as int].id);
                        }
                    }
                    match old(self).spec_active_id() {
                        Some(a) => {
                            let j = choose|j: int|
                                0 <= j < otabs.len() && #[trigger] otabs[j].id == a;
                            assert(self.spec_tabs()[j].id == a);
                            assert(self.spec_has_tab(a));
                        },
                        None => {},
                    }
                }
            },
        }
    }

    /// All tabs, in creation order.
    pub fn get_all_tabs(&self) -> (r: &Vec<Tab>)
        ensures
            r@ == self.spec_tabs(),
    {
        &self.tabs
    }
}

} // verus!
