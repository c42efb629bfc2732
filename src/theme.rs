//! Highlighting themes, and the light or dark look of the window that goes with each.

use vstd::prelude::*;

verus! {

/// The syntax-highlighting themes on offer.
#[derive(Clone, Copy, Debug, PartialEq, Eq)]
pub enum HighlightTheme {
    SolarizedDark,
    Base16Mocha,
    Base16Ocean,
    Base16Eighties,
    InspiredGitHub,
}

/// The window's overall look.
#[derive(Clone, Copy, Debug, PartialEq, Eq)]
pub enum Appearance {
    Dark,
    Light,
}

/// The themes whose background is dark.
pub open spec fn spec_is_dark(t: HighlightTheme) -> bool {
    !(t is InspiredGitHub)
}

impl HighlightTheme {
    /// Whether the theme's background is dark.
    pub fn is_dark(self) -> (r: bool)
        ensures
            r == spec_is_dark(self),
    {
        match self {
            HighlightTheme::InspiredGitHub => false,
            _ => true,
        }
    }

    /// The window look that matches the theme.
    pub fn appearance(self) -> (r: Appearance)
        ensures
            r == (if spec_is_dark(self) {
                Appearance::Dark
            } else {
                Appearance::Light
            }),
    {
        if self.is_dark() {
            Appearance::Dark
        } else {
            Appearance::Light
        }
    }
}

} // verus!
