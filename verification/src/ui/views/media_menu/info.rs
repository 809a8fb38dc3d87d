//! What the media says about itself.

use vstd::prelude::*;

verus! {

/// Shows title, artist, date and description of the media.
#[derive(Clone, Copy, Debug, Default, PartialEq, Eq, Structural)]
pub struct InfoMenu;

impl InfoMenu {
    /// The name of the menu.
    pub fn label(&self) -> (text: &'static str)
        ensures
            text@ == "Info"@,
    {
        "Info"
    }
}

} // verus!
