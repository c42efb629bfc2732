//! The icon fonts that the interface loads.

use vstd::prelude::*;

verus! {

/// A font of icons, known to the renderer by its name.
#[derive(Clone, Copy, Debug, PartialEq, Eq)]
pub enum UIFonts {
    ContextIcons,
}

impl UIFonts {
    /// The family name under which the font was registered.
    pub fn name(&self) -> (r: &'static str)
        ensures
            r@ == "context-icons"@,
    {
        match self {
            UIFonts::ContextIcons => "context-icons",
        }
    }
}

} // verus!
