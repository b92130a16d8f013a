//! The session facade: the single entry point a user interface calls.
//!
//! It owns the configuration store and the tab registry, translates
//! user intents — opening files, turning pages, zooming, rotating,
//! switching tabs — into registry updates, and hands out the render
//! requests and publications that keep every state change followed by a
//! re-render. Operations aimed at the active tab do nothing, including
//! no render, while no tab is active.

use vstd::prelude::*;
use crate::clamp_zoom;
use crate::config::spec_add_recent;
use crate::config::spec_retained;
use crate::config::AppConfig;
use crate::fit::spec_fit_height;
use crate::fit::spec_fit_width;
use crate::fit::PageRenderer;
use crate::i18n::I18n;
use crate::i18n::Language;
use crate::outline::OutlineItem;
use crate::raster::PageImage;
use crate::render::spec_rotated_height;
use crate::render::spec_rotated_pixels;
use crate::render::spec_rotated_width;
use crate::render::apply_rotation;
use crate::render::RenderRequest;
use crate::spec_clamp_zoom;
use crate::tabs::Tab;
use crate::tabs::TabManager;
use crate::theme::Theme;
use crate::ZOOM_DEFAULT;
use crate::ZOOM_STEP;

verus! {

/// How pages are presented: one page at a time, or a continuous scroll.
#[derive(Debug, Clone, Copy, PartialEq, Eq, Structural)]
pub enum ScrollMode {
    Page,
    Smooth,
}

/// The session: configuration store, tab registry and scroll mode.
pub struct AppState {
    /// Durable preferences.
    pub config: AppConfig,
    /// The open tabs and the active-tab cell.
    pub tabs: TabManager,
    /// Current presentation mode.
    pub scroll_mode: ScrollMode,
}

/// A tab after navigating to `page`: the target clamped into the
/// document; an empty document stays at the placeholder page zero.
pub open spec fn spec_navigated_tab(t: Tab, page: usize) -> Tab {
    if t.page_count == 0 {
        t
    } else if page < t.page_count {
        Tab { current_page: page, ..t }
    } else {
        Tab { current_page: (t.page_count - 1) as usize, ..t }
    }
}

/// A tab after one page forward: stops at the last page.
pub open spec fn spec_next_page_tab(t: Tab) -> Tab {
    if t.page_count > 0 && t.current_page < t.page_count - 1 {
        Tab { current_page: (t.current_page + 1) as usize, ..t }
    } else {
        t
    }
}

/// A tab after one page back: stops at page zero.
pub open spec fn spec_prev_page_tab(t: Tab) -> Tab {
    if t.current_page > 0 {
        Tab { current_page: (t.current_page - 1) as usize, ..t }
    } else {
        t
    }
}

/// A tab with its zoom set to `zoom`, clamped into the policy bounds.
pub open spec fn spec_set_zoom_tab(t: Tab, zoom: u32) -> Tab {
    Tab { zoom: spec_clamp_zoom(zoom as int), ..t }
}

/// A tab one zoom step in: capped at the largest zoom.
pub open spec fn spec_zoom_in_tab(t: Tab) -> Tab {
    Tab { zoom: spec_clamp_zoom(t.zoom + ZOOM_STEP), ..t }
}

/// A tab one zoom step out: capped at the smallest zoom.
pub open spec fn spec_zoom_out_tab(t: Tab) -> Tab {
    Tab { zoom: spec_clamp_zoom(t.zoom - ZOOM_STEP), ..t }
}

/// A tab back at the unscaled zoom.
pub open spec fn spec_reset_zoom_tab(t: Tab) -> Tab {
    Tab { zoom: ZOOM_DEFAULT, ..t }
}

/// A tab turned a quarter clockwise: ninety degrees more, wrapped.
pub open spec fn spec_rotate_cw_tab(t: Tab) -> Tab {
    Tab { rotation: ((t.rotation + 90) % 360) as usize, ..t }
}

/// A tab turned a quarter counter-clockwise: ninety degrees less, with
/// wraparound.
pub open spec fn spec_rotate_ccw_tab(t: Tab) -> Tab {
    Tab { rotation: ((t.rotation + 270) % 360) as usize, ..t }
}

/// A tab with its zoom fitted so the page is as wide as the viewport,
/// clamped into the policy bounds.
pub open spec fn spec_fit_width_tab(t: Tab, page_width: u32, viewport_width: u32) -> Tab {
    Tab { zoom: spec_clamp_zoom(spec_fit_width(page_width as int, viewport_width as int)), ..t }
}

/// A tab with its zoom fitted so the whole page fits the viewport,
/// clamped into the policy bounds.
pub open spec fn spec_fit_page_tab(
    t: Tab,
    page_width: u32,
    page_height: u32,
    viewport_width: u32,
    viewport_height: u32,
) -> Tab {
    Tab {
        zoom: spec_clamp_zoom(
            vstd::math::min(
                spec_fit_width(page_width as int, viewport_width as int),
                spec_fit_height(page_height as int, viewport_height as int),
            ),
        ),
        ..t
    }
}

/// The tab booked for a successfully opened document: the engine handle
/// and page count set, everything else fresh.
pub open spec fn spec_opened_tab(id: usize, path: String, doc: u64, page_count: usize) -> Tab {
    Tab { doc: Some(doc), page_count, current_page: 0, ..Tab::spec_new(id, path) }
}

/// What a render of this tab works from: its page, zoom and rotation;
/// nothing while the tab has no opened document.
pub open spec fn spec_render_request(t: Tab) -> Option<RenderRequest> {
    if t.doc is Some {
        Some(RenderRequest { page: t.current_page, zoom: t.zoom, rotation: t.rotation })
    } else {
        None
    }
}

/// Publication of a finished render: in `post`, the tab at `i` carries
/// the rotation of `image` as its cached render, image and dimensions
/// set together and consistent, with every other field and every other
/// tab untouched.
pub open spec fn spec_published(
    pre: Seq<Tab>,
    post: Seq<Tab>,
    i: int,
    image: PageImage,
    rotation: usize,
) -> bool
    recommends
        0 <= i < pre.len(),
{
    let t0 = pre[i];
    let t1 = post[i];
    &&& post == pre.update(i, t1)
    &&& t1 == Tab { page_image: t1.page_image, page_dimensions: t1.page_dimensions, ..t0 }
    &&& (t1.page_image matches Some(img) ==> {
        &&& img.wf()
        &&& img.width == spec_rotated_width(image, rotation)
        &&& img.height == spec_rotated_height(image, rotation)
        &&& img.pixels@ == spec_rotated_pixels(image, rotation)
    })
    &&& t1.page_image is Some
    &&& t1.page_dimensions == Some(
        (spec_rotated_width(image, rotation), spec_rotated_height(image, rotation)),
    )
}

impl AppState {
    /// The session invariant: configuration and registry well formed.
    pub open spec fn wf(self) -> bool {
        &&& self.config.wf()
        &&& self.tabs.wf()
    }

    /// The active tab, when one is active, was replaced by `f` of its
    /// old state; everything else is as it was.
    pub open spec fn spec_active_updated(pre: AppState, post: AppState, f: spec_fn(Tab) -> Tab) -> bool {
        &&& post.config == pre.config
        &&& post.scroll_mode == pre.scroll_mode
        &&& post.tabs.spec_active_id() == pre.tabs.spec_active_id()
        &&& post.tabs.spec_next_id() == pre.tabs.spec_next_id()
        &&& (pre.tabs.spec_active_id() is None ==> post == pre)
        &&& (pre.tabs.spec_active_id() matches Some(id) ==> forall|i: int|
            0 <= i < pre.tabs.spec_tabs().len() && (#[trigger] pre.tabs.spec_tabs()[i]).id == id
                ==> post.tabs.spec_tabs() == pre.tabs.spec_tabs().update(
                i,
                f(pre.tabs.spec_tabs()[i]),
            ))
    }

    /// A session with the built-in default preferences and no tabs.
    pub fn new() -> (r: AppState)
        ensures
            r.wf(),
            r.config.spec_recent() == Seq::<Seq<char>>::empty(),
            r.config.default_zoom == ZOOM_DEFAULT,
            r.config.theme == Theme::Dark,
            r.config.language == Language::English,
            r.tabs.spec_tabs() == Seq::<Tab>::empty(),
            r.tabs.spec_active_id() is None,
            r.tabs.spec_next_id() == 0,
            r.scroll_mode == ScrollMode::Page,
    {
        AppState { config: AppConfig::default(), tabs: TabManager::new(), scroll_mode: ScrollMode::Page }
    }

    /// A session resuming persisted preferences, with no tabs yet.
    pub fn with_config(config: AppConfig) -> (r: AppState)
        requires
            config.wf(),
        ensures
            r.wf(),
            r.config == config,
            r.tabs.spec_tabs() == Seq::<Tab>::empty(),
            r.tabs.spec_active_id() is None,
            r.tabs.spec_next_id() == 0,
            r.scroll_mode == ScrollMode::Page,
    {
        AppState { config, tabs: TabManager::new(), scroll_mode: ScrollMode::Page }
    }

    /// Applies `f` to the active tab through the registry's update
    /// choke point; does nothing while no tab is active. The ghost `g`
    /// names what `f` computes.
    fn update_active<F: FnOnce(Tab) -> Tab>(&mut self, f: F, Ghost(g): Ghost<spec_fn(Tab) -> Tab>)
        requires
            old(self).wf(),
            forall|t: Tab| t.wf() ==> call_requires(f, (t,)),
            forall|t: Tab, t2: Tab| t.wf() && call_ensures(f, (t,), t2) ==> t2 == g(t),
            forall|t: Tab| t.wf() ==> (#[trigger] g(t)).wf() && g(t).id == t.id,
        ensures
            final(self).wf(),
            AppState::spec_active_updated(*old(self), *final(self), g),
    {
        let active = self.tabs.get_active_tab();
        match active {
            None => {},
            Some(id) => {
                self.tabs.update_tab(id, f);
                proof {
                    let pre = *old(self);
                    assert forall|i: int|
                        0 <= i < pre.tabs.spec_tabs().len() && (#[trigger] pre.tabs.spec_tabs()[i]).id
                            == id implies self.tabs.spec_tabs() == pre.tabs.spec_tabs().update(
                        i,
                        g(pre.tabs.spec_tabs()[i]),
                    ) by {
                        let t0 = pre.tabs.spec_tabs()[i];
                        let t2 = choose|t2: Tab|
                            call_ensures(f, (t0,), t2) && self.tabs.spec_tabs()
                                == pre.tabs.spec_tabs().update(i, t2);
                        assert(t0.wf());
                        assert(t2 == g(t0));
                    }
                }
            },
        }
    }

    /// Jumps the active tab to `page`, clamped into the document; does
    /// nothing while no tab is active.
    pub fn navigate_to_page(&mut self, page: usize)
        requires
            old(self).wf(),
        ensures
            final(self).wf(),
            AppState::spec_active_updated(
                *old(self),
                *final(self),
                |t: Tab| spec_navigated_tab(t, page),
            ),
    {
        let f = |t: Tab| -> (r: Tab)
            ensures
                r == spec_navigated_tab(t, page),
            {
                if t.page_count == 0 {
                    t
                } else if page < t.page_count {
                    Tab { current_page: page, ..t }
                } else {
                    Tab { current_page: t.page_count - 1, ..t }
                }
            };
        self.update_active(f, Ghost(|t: Tab| spec_navigated_tab(t, page)));
    }

    /// Turns the active tab one page forward; at the last page the
    /// position is unchanged.
    pub fn next_page(&mut self)
        requires
            old(self).wf(),
        ensures
            final(self).wf(),
            AppState::spec_active_updated(*old(self), *final(self), |t: Tab| spec_next_page_tab(t)),
    {
        let f = |t: Tab| -> (r: Tab)
            ensures
                r == spec_next_page_tab(t),
            {
                if t.page_count > 0 && t.current_page < t.page_count - 1 {
                    Tab { current_page: t.current_page + 1, ..t }
                } else {
                    t
                }
            };
        self.update_active(f, Ghost(|t: Tab| spec_next_page_tab(t)));
    }

    /// Turns the active tab one page back; at page zero the position is
    /// unchanged.
    pub fn prev_page(&mut self)
        requires
            old(self).wf(),
        ensures
            final(self).wf(),
            AppState::spec_active_updated(*old(self), *final(self), |t: Tab| spec_prev_page_tab(t)),
    {
        let f = |t: Tab| -> (r: Tab)
            ensures
                r == spec_prev_page_tab(t),
            {
                if t.current_page > 0 {
                    Tab { current_page: t.current_page - 1, ..t }
                } else {
                    t
                }
            };
        self.update_active(f, Ghost(|t: Tab| spec_prev_page_tab(t)));
    }

    /// Sets the active tab's zoom, clamped into the policy bounds.
    pub fn set_zoom(&mut self, zoom: u32)
        requires
            old(self).wf(),
        ensures
            final(self).wf(),
            AppState::spec_active_updated(
                *old(self),
                *final(self),
                |t: Tab| spec_set_zoom_tab(t, zoom),
            ),
    {
        let f = |t: Tab| -> (r: Tab)
            ensures
                r == spec_set_zoom_tab(t, zoom),
            {
                Tab { zoom: clamp_zoom(zoom as u64), ..t }
            };
        self.update_active(f, Ghost(|t: Tab| spec_set_zoom_tab(t, zoom)));
    }

    /// Zooms the active tab one step in, never past the largest zoom.
    pub fn zoom_in(&mut self)
        requires
            old(self).wf(),
        ensures
            final(self).wf(),
            AppState::spec_active_updated(*old(self), *final(self), |t: Tab| spec_zoom_in_tab(t)),
    {
        let f = |t: Tab| -> (r: Tab)
            ensures
                r == spec_zoom_in_tab(t),
            {
                Tab { zoom: clamp_zoom(t.zoom as u64 + ZOOM_STEP as u64), ..t }
            };
        self.update_active(f, Ghost(|t: Tab| spec_zoom_in_tab(t)));
    }

    /// Zooms the active tab one step out, never below the smallest
    /// zoom.
    pub fn zoom_out(&mut self)
        requires
            old(self).wf(),
        ensures
            final(self).wf(),
            AppState::spec_active_updated(*old(self), *final(self), |t: Tab| spec_zoom_out_tab(t)),
    {
        let f = |t: Tab| -> (r: Tab)
            ensures
                r == spec_zoom_out_tab(t),
            {
                let lowered: u64 = if t.zoom as u64 >= ZOOM_STEP as u64 {
                    t.zoom as u64 - ZOOM_STEP as u64
                } else {
                    0
                };
                proof {
                    assert(spec_clamp_zoom(lowered as int) == spec_clamp_zoom(
                        t.zoom - ZOOM_STEP,
                    ));
                }
                Tab { zoom: clamp_zoom(lowered), ..t }
            };
        self.update_active(f, Ghost(|t: Tab| spec_zoom_out_tab(t)));
    }

    /// Puts the active tab back at the unscaled zoom.
    pub fn reset_zoom(&mut self)
        requires
            old(self).wf(),
        ensures
            final(self).wf(),
            AppState::spec_active_updated(
                *old(self),
                *final(self),
                |t: Tab| spec_reset_zoom_tab(t),
            ),
    {
        let f = |t: Tab| -> (r: Tab)
            ensures
                r == spec_reset_zoom_tab(t),
            {
                Tab { zoom: ZOOM_DEFAULT, ..t }
            };
        self.update_active(f, Ghost(|t: Tab| spec_reset_zoom_tab(t)));
    }

    /// Fits the active tab's zoom to a page width against a viewport
    /// width, clamped into the policy bounds.
    pub fn fit_width(&mut self, page_width: u32, viewport_width: u32)
        requires
            old(self).wf(),
            page_width > 0,
        ensures
            final(self).wf(),
            AppState::spec_active_updated(
                *old(self),
                *final(self),
                |t: Tab| spec_fit_width_tab(t, page_width, viewport_width),
            ),
    {
        let zoom = PageRenderer::calculate_zoom_to_fit_width(page_width, viewport_width);
        let clamped = clamp_zoom(zoom);
        let f = |t: Tab| -> (r: Tab)
            ensures
                r == spec_fit_width_tab(t, page_width, viewport_width),
            {
                Tab { zoom: clamped, ..t }
            };
        self.update_active(f, Ghost(|t: Tab| spec_fit_width_tab(t, page_width, viewport_width)));
    }

    /// Fits the active tab's zoom so the whole page fits the viewport,
    /// clamped into the policy bounds.
    pub fn fit_page(
        &mut self,
        page_width: u32,
        page_height: u32,
        viewport_width: u32,
        viewport_height: u32,
    )
        requires
            old(self).wf(),
            page_width > 0,
            page_height > 0,
        ensures
            final(self).wf(),
            AppState::spec_active_updated(
                *old(self),
                *final(self),
                |t: Tab|
                    spec_fit_page_tab(
                        t,
                        page_width,
                        page_height,
                        viewport_width,
                        viewport_height,
                    ),
            ),
    {
        let zoom = PageRenderer::calculate_zoom_to_fit_page(
            page_width,
            page_height,
            viewport_width,
            viewport_height,
        );
        let clamped = clamp_zoom(zoom);
        let f = |t: Tab| -> (r: Tab)
            ensures
                r == spec_fit_page_tab(t, page_width, page_height, viewport_width, viewport_height),
            {
                Tab { zoom: clamped, ..t }
            };
        self.update_active(f, Ghost(|t: Tab| spec_fit_page_tab(t, page_width, page_height, viewport_width, viewport_height)));
    }

    /// Rotates the active tab a quarter turn clockwise.
    pub fn rotate_clockwise(&mut self)
        requires
            old(self).wf(),
        ensures
            final(self).wf(),
            AppState::spec_active_updated(*old(self), *final(self), |t: Tab| spec_rotate_cw_tab(t)),
    {
        let f = |t: Tab| -> (r: Tab)
            requires
                t.rotation <= 270,
            ensures
                r == spec_rotate_cw_tab(t),
            {
                Tab { rotation: (t.rotation + 90) % 360, ..t }
            };
        self.update_active(f, Ghost(|t: Tab| spec_rotate_cw_tab(t)));
    }

    /// Rotates the active tab a quarter turn counter-clockwise, with
    /// wraparound below zero.
    pub fn rotate_counter_clockwise(&mut self)
        requires
            old(self).wf(),
        ensures
            final(self).wf(),
            AppState::spec_active_updated(
                *old(self),
                *final(self),
                |t: Tab| spec_rotate_ccw_tab(t),
            ),
    {
        let f = |t: Tab| -> (r: Tab)
            requires
                t.rotation <= 270,
            ensures
                r == spec_rotate_ccw_tab(t),
            {
                Tab { rotation: (t.rotation + 270) % 360, ..t }
            };
        self.update_active(f, Ghost(|t: Tab| spec_rotate_ccw_tab(t)));
    }

    /// Books a successfully opened document into the session: a new
    /// active tab holding the engine handle and page count, and the
    /// path moved to the front of the recent files.
    pub fn open_file(&mut self, path: String, doc: u64, page_count: usize) -> (id: usize)
        requires
            old(self).wf(),
            old(self).tabs.spec_next_id() < usize::MAX,
        ensures
            final(self).wf(),
            id == old(self).tabs.spec_next_id(),
            final(self).tabs.spec_tabs() == old(self).tabs.spec_tabs().push(
                spec_opened_tab(id, path, doc, page_count),
            ),
            final(self).tabs.spec_active_id() == Some(id),
            final(self).tabs.spec_next_id() == id + 1,
            final(self).config.spec_recent() == spec_add_recent(
                old(self).config.spec_recent(),
                path@,
            ),
            final(self).config.default_zoom == old(self).config.default_zoom,
            final(self).config.theme == old(self).config.theme,
            final(self).config.language == old(self).config.language,
            final(self).scroll_mode == old(self).scroll_mode,
    {
        let ghost otabs = old(self).tabs.spec_tabs();
        let registered = path.clone();
        let id = self.tabs.create_tab(registered);
        let ghost tabs1 = self.tabs.spec_tabs();
        let f = |t: Tab| -> (r: Tab)
            requires
                t.wf(),
            ensures
                (r == Tab { doc: Some(doc), page_count, current_page: 0, ..t }),
            {
                Tab { doc: Some(doc), page_count, current_page: 0, ..t }
            };
        self.tabs.update_tab(id, f);
        proof {
            let n = otabs.len() as int;
            assert(tabs1[n].id == id);
            assert forall|k: int| 0 <= k < tabs1.len() && (#[trigger] tabs1[k]).id == id implies k
                == n by {
                if k < n {
                    assert(otabs[k].id < id);
                }
            }
            let t2 = choose|t2: Tab|
                call_ensures(f, (tabs1[n],), t2) && self.tabs.spec_tabs() == tabs1.update(n, t2);
            assert(t2 == spec_opened_tab(id, path, doc, page_count));
            assert(self.tabs.spec_tabs() =~= otabs.push(spec_opened_tab(id, path, doc, page_count)));
        }
        self.config.add_recent(path);
        id
    }

    /// Removes a tab, promoting the deterministic neighbour when it was
    /// active; unknown ids are ignored.
    pub fn close_tab(&mut self, tab_id: usize)
        requires
            old(self).wf(),
        ensures
            final(self).wf(),
            final(self).config == old(self).config,
            final(self).scroll_mode == old(self).scroll_mode,
            final(self).tabs.spec_next_id() == old(self).tabs.spec_next_id(),
            !old(self).tabs.spec_has_tab(tab_id) ==> *final(self) == *old(self),
            forall|i: int|
                0 <= i < old(self).tabs.spec_tabs().len() && (#[trigger] old(
                    self,
                ).tabs.spec_tabs()[i]).id == tab_id ==> {
                    &&& final(self).tabs.spec_tabs() == old(self).tabs.spec_tabs().remove(i)
                    &&& final(self).tabs.spec_active_id() == TabManager::spec_promoted_active(
                        old(self).tabs.spec_tabs(),
                        old(self).tabs.spec_active_id(),
                        i,
                        tab_id,
                    )
                },
    {
        self.tabs.close_tab(tab_id);
    }

    /// Closes the active tab; does nothing while no tab is active.
    pub fn close_file(&mut self)
        requires
            old(self).wf(),
        ensures
            final(self).wf(),
            final(self).config == old(self).config,
            final(self).scroll_mode == old(self).scroll_mode,
            final(self).tabs.spec_next_id() == old(self).tabs.spec_next_id(),
            old(self).tabs.spec_active_id() is None ==> *final(self) == *old(self),
            forall|i: int|
                0 <= i < old(self).tabs.spec_tabs().len() && old(self).tabs.spec_active_id()
                    == Some((#[trigger] old(self).tabs.spec_tabs()[i]).id) ==> {
                    &&& final(self).tabs.spec_tabs() == old(self).tabs.spec_tabs().remove(i)
                    &&& final(self).tabs.spec_active_id() == TabManager::spec_promoted_active(
                        old(self).tabs.spec_tabs(),
                        old(self).tabs.spec_active_id(),
                        i,
                        old(self).tabs.spec_tabs()[i].id,
                    )
                },
    {
        let active = self.tabs.get_active_tab();
        match active {
            None => {},
            Some(id) => {
                self.tabs.close_tab(id);
            },
        }
    }

    /// Makes the given tab active; ignored when the id is unknown.
    pub fn set_active_tab(&mut self, tab_id: usize)
        requires
            old(self).wf(),
        ensures
            final(self).wf(),
            final(self).config == old(self).config,
            final(self).scroll_mode == old(self).scroll_mode,
            final(self).tabs.spec_tabs() == old(self).tabs.spec_tabs(),
            final(self).tabs.spec_next_id() == old(self).tabs.spec_next_id(),
            final(self).tabs.spec_active_id() == if old(self).tabs.spec_has_tab(tab_id) {
                Some(tab_id)
            } else {
                old(self).tabs.spec_active_id()
            },
    {
        self.tabs.set_active_tab(tab_id);
    }

    /// The id of the active tab, when one is active.
    pub fn get_active_tab_id(&self) -> (r: Option<usize>)
        ensures
            r == self.tabs.spec_active_id(),
    {
        self.tabs.get_active_tab()
    }

    /// The tab with the given id, when present.
    pub fn get_tab(&self, tab_id: usize) -> (r: Option<&Tab>)
        requires
            self.wf(),
        ensures
            r is Some <==> self.tabs.spec_has_tab(tab_id),
            forall|i: int|
                0 <= i < self.tabs.spec_tabs().len() && (#[trigger] self.tabs.spec_tabs()[i]).id
                    == tab_id ==> (r matches Some(t) && *t == self.tabs.spec_tabs()[i]),
    {
        self.tabs.get_tab(tab_id)
    }

    /// All tabs, in creation order.
    pub fn get_all_tabs(&self) -> (r: &Vec<Tab>)
        ensures
            r@ == self.tabs.spec_tabs(),
    {
        self.tabs.get_all_tabs()
    }

    /// Selects a theme. The caller persists the configuration.
    pub fn set_theme(&mut self, theme: Theme)
        requires
            old(self).wf(),
        ensures
            final(self).wf(),
            final(self).config == (AppConfig { theme, ..old(self).config }),
            final(self).tabs == old(self).tabs,
            final(self).scroll_mode == old(self).scroll_mode,
    {
        self.config.theme = theme;
    }

    /// The selected theme.
    pub fn get_theme(&self) -> (r: Theme)
        ensures
            r == self.config.theme,
    {
        self.config.theme
    }

    /// Switches between the light and the dark theme. The caller
    /// persists the configuration.
    pub fn toggle_theme(&mut self)
        requires
            old(self).wf(),
        ensures
            final(self).wf(),
            final(self).config == (AppConfig {
                theme: old(self).config.theme.spec_toggled(),
                ..old(self).config
            }),
            final(self).tabs == old(self).tabs,
            final(self).scroll_mode == old(self).scroll_mode,
    {
        self.config.theme = self.config.theme.toggled();
    }

    /// Selects a language. The caller persists the configuration.
    pub fn set_language(&mut self, language: Language)
        requires
            old(self).wf(),
        ensures
            final(self).wf(),
            final(self).config == (AppConfig { language, ..old(self).config }),
            final(self).tabs == old(self).tabs,
            final(self).scroll_mode == old(self).scroll_mode,
    {
        self.config.language = language;
    }

    /// The selected language.
    pub fn get_language(&self) -> (r: Language)
        ensures
            r == self.config.language,
    {
        self.config.language
    }

    /// A translator for the selected language.
    pub fn get_i18n(&self) -> (r: I18n)
        ensures
            r.spec_language() == self.config.language,
    {
        I18n::new(self.config.language)
    }

    /// The recently opened paths, most recent first.
    pub fn get_recent_files(&self) -> (r: &Vec<String>)
        ensures
            r@ == self.config.recent_files@,
    {
        &self.config.recent_files
    }

    /// Drops every recent-files entry for `path`. The caller persists
    /// the configuration.
    pub fn remove_from_recent(&mut self, path: &str)
        requires
            old(self).wf(),
        ensures
            final(self).wf(),
            final(self).config.spec_recent() == spec_retained(
                old(self).config.spec_recent(),
                path@,
            ),
            final(self).config.default_zoom == old(self).config.default_zoom,
            final(self).config.theme == old(self).config.theme,
            final(self).config.language == old(self).config.language,
            final(self).tabs == old(self).tabs,
            final(self).scroll_mode == old(self).scroll_mode,
    {
        self.config.remove_from_recent(path);
    }

    /// The current presentation mode.
    pub fn get_scroll_mode(&self) -> (r: ScrollMode)
        ensures
            r == self.scroll_mode,
    {
        self.scroll_mode
    }

    /// Selects a presentation mode.
    pub fn set_scroll_mode(&mut self, mode: ScrollMode)
        requires
            old(self).wf(),
        ensures
            final(self).wf(),
            final(self).scroll_mode == mode,
            final(self).config == old(self).config,
            final(self).tabs == old(self).tabs,
    {
        self.scroll_mode = mode;
    }

    /// Stores the outline read for a tab; ignored when the id is
    /// unknown. A failed outline fetch is simply never stored.
    pub fn set_outline(&mut self, tab_id: usize, outline: Vec<OutlineItem>)
        requires
            old(self).wf(),
        ensures
            final(self).wf(),
            final(self).config == old(self).config,
            final(self).scroll_mode == old(self).scroll_mode,
            final(self).tabs.spec_active_id() == old(self).tabs.spec_active_id(),
            final(self).tabs.spec_next_id() == old(self).tabs.spec_next_id(),
            !old(self).tabs.spec_has_tab(tab_id) ==> *final(self) == *old(self),
            forall|i: int|
                0 <= i < old(self).tabs.spec_tabs().len() && (#[trigger] old(
                    self,
                ).tabs.spec_tabs()[i]).id == tab_id ==> final(self).tabs.spec_tabs() == old(
                    self,
                ).tabs.spec_tabs().update(
                    i,
                    Tab { outline_items: Some(outline), ..old(self).tabs.spec_tabs()[i] },
                ),
    {
        let ghost otabs = old(self).tabs.spec_tabs();
        let f = |t: Tab| -> (r: Tab)
            ensures
                (r == Tab { outline_items: Some(outline), ..t }),
            {
                Tab { outline_items: Some(outline), ..t }
            };
        self.tabs.update_tab(tab_id, f);
        proof {
            assert forall|i: int|
                0 <= i < otabs.len() && (#[trigger] otabs[i]).id == tab_id implies self
                .tabs.spec_tabs() == otabs.update(
                i,
                Tab { outline_items: Some(outline), ..otabs[i] },
            ) by {
                let t2 = choose|t2: Tab|
                    call_ensures(f, (otabs[i],), t2) && self.tabs.spec_tabs() == otabs.update(
                        i,
                        t2,
                    );
            }
        }
    }

    /// Captures what a render of the given tab must work from: its
    /// page, zoom and rotation as of now. Nothing to render — no such
    /// tab, or no opened document in it — is `None`.
    pub fn render_request(&self, tab_id: usize) -> (r: Option<RenderRequest>)
        requires
            self.wf(),
        ensures
            !self.tabs.spec_has_tab(tab_id) ==> r is None,
            forall|i: int|
                0 <= i < self.tabs.spec_tabs().len() && (#[trigger] self.tabs.spec_tabs()[i]).id
                    == tab_id ==> r == spec_render_request(self.tabs.spec_tabs()[i]),
    {
        let tab = self.tabs.get_tab(tab_id);
        match tab {
            None => None,
            Some(t) => match t.doc {
                Some(_) => Some(
                    RenderRequest { page: t.current_page, zoom: t.zoom, rotation: t.rotation },
                ),
                None => None,
            },
        }
    }

    /// Publishes a finished render into its tab: the engine output is
    /// rotated as the request recorded and written, image and
    /// dimensions together, in one update. A tab closed in the meantime
    /// means the publication is silently dropped; a failed render is
    /// simply never published, leaving any earlier image in place.
    pub fn complete_render(&mut self, tab_id: usize, request: RenderRequest, image: PageImage)
        requires
            old(self).wf(),
            image.wf(),
        ensures
            final(self).wf(),
            final(self).config == old(self).config,
            final(self).scroll_mode == old(self).scroll_mode,
            final(self).tabs.spec_active_id() == old(self).tabs.spec_active_id(),
            final(self).tabs.spec_next_id() == old(self).tabs.spec_next_id(),
            !old(self).tabs.spec_has_tab(tab_id) ==> *final(self) == *old(self),
            forall|i: int|
                0 <= i < old(self).tabs.spec_tabs().len() && (#[trigger] old(
                    self,
                ).tabs.spec_tabs()[i]).id == tab_id ==> spec_published(
                    old(self).tabs.spec_tabs(),
                    final(self).tabs.spec_tabs(),
                    i,
                    image,
                    request.rotation,
                ),
    {
        let rotated = apply_rotation(image, request.rotation);
        let w = rotated.width;
        let h = rotated.height;
        let ghost otabs = old(self).tabs.spec_tabs();
        let f = |t: Tab| -> (r: Tab)
            ensures
                (r == Tab {
                    page_image: Some(rotated),
                    page_dimensions: Some((w, h)),
                    ..t
                }),
            {
                Tab { page_image: Some(rotated), page_dimensions: Some((w, h)), ..t }
            };
        self.tabs.update_tab(tab_id, f);
        proof {
            assert forall|i: int|
                0 <= i < otabs.len() && (#[trigger] otabs[i]).id == tab_id implies spec_published(
                otabs,
                self.tabs.spec_tabs(),
                i,
                image,
                request.rotation,
            ) by {
                let t2 = choose|t2: Tab|
                    call_ensures(f, (otabs[i],), t2) && self.tabs.spec_tabs() == otabs.update(
                        i,
                        t2,
                    );
            }
        }
    }
}

/// Every zoom adjustment lands within the policy bounds, whatever the
/// starting value and whichever way it moves.
pub proof fn lemma_zoom_adjustments_bounded(
    t: Tab,
    zoom: u32,
    page_width: u32,
    page_height: u32,
    viewport_width: u32,
    viewport_height: u32,
)
    ensures
        crate::zoom_valid(spec_set_zoom_tab(t, zoom).zoom),
        crate::zoom_valid(spec_zoom_in_tab(t).zoom),
        crate::zoom_valid(spec_zoom_out_tab(t).zoom),
        crate::zoom_valid(spec_reset_zoom_tab(t).zoom),
        crate::zoom_valid(spec_fit_width_tab(t, page_width, viewport_width).zoom),
        crate::zoom_valid(
            spec_fit_page_tab(t, page_width, page_height, viewport_width, viewport_height).zoom,
        ),
{
}

/// Every rotation adjustment lands on a whole quarter turn, and four
/// consecutive clockwise turns come back to where they started; so do
/// four counter-clockwise ones.
pub proof fn lemma_rotation_adjustments(t: Tab)
    requires
        crate::rotation_valid(t.rotation),
    ensures
        crate::rotation_valid(spec_rotate_cw_tab(t).rotation),
        crate::rotation_valid(spec_rotate_ccw_tab(t).rotation),
        spec_rotate_cw_tab(spec_rotate_cw_tab(spec_rotate_cw_tab(spec_rotate_cw_tab(t)))) == t,
        spec_rotate_ccw_tab(spec_rotate_ccw_tab(spec_rotate_ccw_tab(spec_rotate_ccw_tab(t)))) == t,
        spec_rotate_ccw_tab(spec_rotate_cw_tab(t)) == t,
{
}

/// Navigating past the last page changes nothing: the current page
/// stays the last one.
pub proof fn lemma_next_page_at_end(t: Tab)
    requires
        t.wf(),
        t.page_count > 0,
        t.current_page == t.page_count - 1,
    ensures
        spec_next_page_tab(t) == t,
        spec_next_page_tab(t).current_page == t.page_count - 1,
{
}

/// Publishing a render is idempotent: from the same tabs, the same
/// engine output published under the same rotation caches bitwise
/// identical pixels, whichever run produced them.
pub proof fn lemma_publication_idempotent(
    pre: Seq<Tab>,
    post1: Seq<Tab>,
    post2: Seq<Tab>,
    i: int,
    image1: PageImage,
    image2: PageImage,
    rotation: usize,
)
    requires
        0 <= i < pre.len(),
        image1.wf(),
        image2.wf(),
        image1.width == image2.width,
        image1.height == image2.height,
        image1.pixels@ == image2.pixels@,
        spec_published(pre, post1, i, image1, rotation),
        spec_published(pre, post2, i, image2, rotation),
    ensures
        post1[i].page_dimensions == post2[i].page_dimensions,
        post1[i].page_image matches Some(a) ==> (post2[i].page_image matches Some(b) && a.width
            == b.width && a.height == b.height && a.pixels@ == b.pixels@),
{
    crate::render::lemma_render_deterministic(image1, image2, rotation);
}

/// Navigating before page zero changes nothing: the current page stays
/// zero.
pub proof fn lemma_prev_page_at_start(t: Tab)
    requires
        t.current_page == 0,
    ensures
        spec_prev_page_tab(t) == t,
        spec_prev_page_tab(t).current_page == 0,
{
}

} // verus!
