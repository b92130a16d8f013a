//! Themes and the colour palettes resolved from them for painting.
//!
//! Colours are packed `0xRRGGBB` values; turning them into whatever the
//! window system wants is the caller's business.

use vstd::prelude::*;

verus! {

/// The two selectable themes.
#[derive(Debug, Clone, Copy, PartialEq, Eq, Structural)]
pub enum Theme {
    Light,
    Dark,
}

impl Default for Theme {
    /// The theme used until the user picks one.
    fn default() -> (r: Theme)
        ensures
            r == Theme::Dark,
    {
        Theme::Dark
    }
}

impl Theme {
    /// The other theme: light for dark, dark for light.
    pub open spec fn spec_toggled(self) -> Theme {
        match self {
            Theme::Light => Theme::Dark,
            Theme::Dark => Theme::Light,
        }
    }

    /// Switches between the two themes.
    pub fn toggled(self) -> (r: Theme)
        ensures
            r == self.spec_toggled(),
    {
        match self {
            Theme::Light => Theme::Dark,
            Theme::Dark => Theme::Light,
        }
    }
}

/// The palette painted for a theme, each colour a packed `0xRRGGBB`.
#[derive(Debug, Clone, Copy, PartialEq, Eq, Structural)]
pub struct ThemeColors {
    pub background: u32,
    pub background_secondary: u32,
    pub background_tertiary: u32,
    pub text: u32,
    pub text_secondary: u32,
    pub border: u32,
    pub toolbar: u32,
    pub status_bar: u32,
    pub pdf_view: u32,
    pub moon_color: u32,
    pub sun_color: u32,
}

impl ThemeColors {
    /// The light palette.
    pub open spec fn spec_light() -> ThemeColors {
        ThemeColors {
            background: 0xffffff,
            background_secondary: 0xf5f5f5,
            background_tertiary: 0xe8e8e8,
            text: 0x1a1a1a,
            text_secondary: 0x666666,
            border: 0xd0d0d0,
            toolbar: 0xe0e0e0,
            status_bar: 0xe0e0e0,
            pdf_view: 0xf0f0f0,
            moon_color: 0x1a1a1a,
            sun_color: 0xffcc00,
        }
    }

    /// The dark palette.
    pub open spec fn spec_dark() -> ThemeColors {
        ThemeColors {
            background: 0x333333,
            background_secondary: 0x2b2b2b,
            background_tertiary: 0x404040,
            text: 0xcccccc,
            text_secondary: 0x888888,
            border: 0x1a1a1a,
            toolbar: 0x2b2b2b,
            status_bar: 0x2b2b2b,
            pdf_view: 0x404040,
            moon_color: 0xcccccc,
            sun_color: 0xffdd44,
        }
    }

    /// The palette for a theme: light colours for the light theme, dark
    /// colours for the dark one.
    pub fn for_theme(theme: Theme) -> (r: ThemeColors)
        ensures
            theme == Theme::Light ==> r == ThemeColors::spec_light(),
            theme == Theme::Dark ==> r == ThemeColors::spec_dark(),
    {
        match theme {
            Theme::Light => Self::light(),
            Theme::Dark => Self::dark(),
        }
    }

    /// The light palette.
    fn light() -> (r: ThemeColors)
        ensures
            r == ThemeColors::spec_light(),
    {
        ThemeColors {
            background: 0xffffff,
            background_secondary: 0xf5f5f5,
            background_tertiary: 0xe8e8e8,
            text: 0x1a1a1a,
            text_secondary: 0x666666,
            border: 0xd0d0d0,
            toolbar: 0xe0e0e0,
            status_bar: 0xe0e0e0,
            pdf_view: 0xf0f0f0,
            moon_color: 0x1a1a1a,
            sun_color: 0xffcc00,
        }
    }

    /// The dark palette.
    fn dark() -> (r: ThemeColors)
        ensures
            r == ThemeColors::spec_dark(),
    {
        ThemeColors {
            background: 0x333333,
            background_secondary: 0x2b2b2b,
            background_tertiary: 0x404040,
            text: 0xcccccc,
            text_secondary: 0x888888,
            border: 0x1a1a1a,
            toolbar: 0x2b2b2b,
            status_bar: 0x2b2b2b,
            pdf_view: 0x404040,
            moon_color: 0xcccccc,
            sun_color: 0xffdd44,
        }
    }
}

} // verus!
