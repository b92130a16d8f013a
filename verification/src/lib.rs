//! Session core of a tabbed document viewer.
//!
//! The crate owns the per-tab viewing state of a multi-document reader:
//! which pages are shown at which zoom and rotation, which tab is active,
//! the durable preferences (recent files, theme, language), and the pure
//! part of the page-render pipeline (rotation of pixel buffers, fit
//! calculations). Everything that talks to a document engine, to the
//! window system or to the file system lives outside this crate and
//! exchanges plain values with it.

use vstd::prelude::*;

pub mod config;
pub mod fit;
pub mod i18n;
pub mod loader;
pub mod outline;
pub mod paths;
pub mod platform;
pub mod print;
pub mod raster;
pub mod render;
pub mod search;
pub mod session;
pub mod shortcut;
pub mod tabs;
pub mod theme;

verus! {

/// Smallest zoom factor, in hundredths (0.50x).
pub const ZOOM_MIN: u32 = 50;

/// Largest zoom factor, in hundredths (3.00x).
pub const ZOOM_MAX: u32 = 300;

/// Zoom factor of an unscaled page, in hundredths (1.00x).
pub const ZOOM_DEFAULT: u32 = 100;

/// Zoom change of one zoom-in or zoom-out step, in hundredths (0.10x).
pub const ZOOM_STEP: u32 = 10;

/// A zoom factor the session may hold: within the policy bounds.
pub open spec fn zoom_valid(z: u32) -> bool {
    ZOOM_MIN <= z <= ZOOM_MAX
}

/// A rotation the session may hold: a whole quarter turn in degrees.
pub open spec fn rotation_valid(r: usize) -> bool {
    r == 0 || r == 90 || r == 180 || r == 270
}

/// Clamps a raw zoom factor (in hundredths) into the policy bounds.
pub fn clamp_zoom(z: u64) -> (r: u32)
    ensures
        r == spec_clamp_zoom(z as int),
{
    if z < ZOOM_MIN as u64 {
        ZOOM_MIN
    } else if z > ZOOM_MAX as u64 {
        ZOOM_MAX
    } else {
        z as u32
    }
}

/// What clamping returns: the nearest value within the bounds.
pub open spec fn spec_clamp_zoom(z: int) -> u32 {
    if z < ZOOM_MIN {
        ZOOM_MIN
    } else if z > ZOOM_MAX {
        ZOOM_MAX
    } else {
        z as u32
    }
}

/// A clamped zoom always lies within the policy bounds.
pub proof fn lemma_clamp_zoom_valid(z: int)
    ensures
        zoom_valid(spec_clamp_zoom(z)),
{
}

} // verus!
