//! The page-render pipeline's pure half.
//!
//! A render runs through four stages: a request captures the tab's
//! page, zoom and rotation; the document engine rasterizes the page at
//! that zoom; the stored rotation is applied as a pure transform of the
//! pixel buffer; the result is published into the tab together with its
//! dimensions. Only the middle rasterizing step leaves this crate; the
//! request, the transform and what the published image must look like
//! are stated and proved here.

use vstd::prelude::*;
use crate::raster::PageImage;
use crate::raster::spec_rotate180_pixels;
use crate::raster::spec_rotate270_pixels;
use crate::raster::spec_rotate90_pixels;

verus! {

/// What a render works from: the tab's page, zoom and rotation as of
/// the moment the render was requested.
#[derive(Debug, Clone, Copy, PartialEq, Eq, Structural)]
pub struct RenderRequest {
    /// Page to rasterize.
    pub page: usize,
    /// Zoom the page is rasterized at, in hundredths.
    pub zoom: u32,
    /// Rotation applied to the rasterized buffer, in degrees.
    pub rotation: usize,
}

/// Width of the buffer after rotating `img`: quarter turns swap the
/// dimensions, anything else keeps them.
pub open spec fn spec_rotated_width(img: PageImage, rotation: usize) -> u32 {
    if rotation == 90 || rotation == 270 {
        img.height
    } else {
        img.width
    }
}

/// Height of the buffer after rotating `img`.
pub open spec fn spec_rotated_height(img: PageImage, rotation: usize) -> u32 {
    if rotation == 90 || rotation == 270 {
        img.width
    } else {
        img.height
    }
}

/// The buffer after rotating `img`: the quarter- and half-turn
/// permutations for 90, 180 and 270 degrees, the buffer itself for any
/// other angle.
pub open spec fn spec_rotated_pixels(img: PageImage, rotation: usize) -> Seq<u32> {
    if rotation == 90 {
        spec_rotate90_pixels(img)
    } else if rotation == 180 {
        spec_rotate180_pixels(img)
    } else if rotation == 270 {
        spec_rotate270_pixels(img)
    } else {
        img.pixels@
    }
}

/// Applies a stored rotation to a rasterized page: a pure geometric
/// transform of the buffer, no re-rasterization.
pub fn apply_rotation(img: PageImage, rotation: usize) -> (r: PageImage)
    requires
        img.wf(),
    ensures
        r.wf(),
        r.width == spec_rotated_width(img, rotation),
        r.height == spec_rotated_height(img, rotation),
        r.pixels@ == spec_rotated_pixels(img, rotation),
{
    if rotation == 90 {
        img.rotate90()
    } else if rotation == 180 {
        img.rotate180()
    } else if rotation == 270 {
        img.rotate270()
    } else {
        img
    }
}

/// Rendering is idempotent: two engine outputs that agree in dimensions
/// and bytes are published identically under the same rotation, so
/// re-running an unchanged render reproduces the cached image bit for
/// bit.
pub proof fn lemma_render_deterministic(a: PageImage, b: PageImage, rotation: usize)
    requires
        a.wf(),
        b.wf(),
        a.width == b.width,
        a.height == b.height,
        a.pixels@ == b.pixels@,
    ensures
        spec_rotated_width(a, rotation) == spec_rotated_width(b, rotation),
        spec_rotated_height(a, rotation) == spec_rotated_height(b, rotation),
        spec_rotated_pixels(a, rotation) == spec_rotated_pixels(b, rotation),
{
    assert(spec_rotate90_pixels(a) =~= spec_rotate90_pixels(b));
    assert(spec_rotate270_pixels(a) =~= spec_rotate270_pixels(b));
}

} // verus!
