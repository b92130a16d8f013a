//! Fit calculators: pure zoom computations from page and viewport sizes.
//!
//! Sizes are whole document points; zoom factors are hundredths, so a
//! result of `100` scales a page to exactly its viewport. The calculators
//! never clamp: policy bounds are applied by the caller.

use vstd::prelude::*;

verus! {

/// Stateless renderer-side calculators.
pub struct PageRenderer;

/// Zoom (in hundredths) that scales `page_width` to `viewport_width`,
/// rounded down.
pub open spec fn spec_fit_width(page_width: int, viewport_width: int) -> int
    recommends
        page_width > 0,
{
    (viewport_width * 100) / page_width
}

/// Zoom (in hundredths) that scales `page_height` to `viewport_height`,
/// rounded down.
pub open spec fn spec_fit_height(page_height: int, viewport_height: int) -> int
    recommends
        page_height > 0,
{
    (viewport_height * 100) / page_height
}

impl PageRenderer {
    /// Zoom that makes the page exactly as wide as the viewport.
    pub fn calculate_zoom_to_fit_width(page_width: u32, viewport_width: u32) -> (r: u64)
        requires
            page_width > 0,
        ensures
            r == spec_fit_width(page_width as int, viewport_width as int),
    {
        (viewport_width as u64 * 100) / (page_width as u64)
    }

    /// Zoom that makes the page exactly as tall as the viewport.
    pub fn calculate_zoom_to_fit_height(page_height: u32, viewport_height: u32) -> (r: u64)
        requires
            page_height > 0,
        ensures
            r == spec_fit_height(page_height as int, viewport_height as int),
    {
        (viewport_height as u64 * 100) / (page_height as u64)
    }

    /// Zoom that fits the whole page inside the viewport: the smaller of
    /// the width fit and the height fit.
    pub fn calculate_zoom_to_fit_page(
        page_width: u32,
        page_height: u32,
        viewport_width: u32,
        viewport_height: u32,
    ) -> (r: u64)
        requires
            page_width > 0,
            page_height > 0,
        ensures
            r == vstd::math::min(
                spec_fit_width(page_width as int, viewport_width as int),
                spec_fit_height(page_height as int, viewport_height as int),
            ),
    {
        let zoom_x = Self::calculate_zoom_to_fit_width(page_width, viewport_width);
        let zoom_y = Self::calculate_zoom_to_fit_height(page_height, viewport_height);
        if zoom_x < zoom_y {
            zoom_x
        } else {
            zoom_y
        }
    }
}

} // verus!
