//! The chapters of the media.

use vstd::prelude::*;

use crate::app::App;

verus! {

/// Lists the chapters and jumps to the one that is picked.
#[derive(Clone, Copy, Debug, Default, PartialEq, Eq, Structural)]
pub struct ChaptersMenu;

impl ChaptersMenu {
    /// The name of the menu.
    pub fn label(&self) -> (text: &'static str)
        ensures
            text@ == "Chapters"@,
    {
        "Chapters"
    }

    /// The menu can be opened where the media has chapters.
    pub fn enabled(&self, app: &App) -> (enabled: bool)
        ensures
            enabled == (app.mpv.media().chapters.len() > 0),
    {
        app.mpv.chapters().len() > 0
    }
}

} // verus!
