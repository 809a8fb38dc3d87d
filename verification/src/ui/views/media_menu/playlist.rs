//! The entries of the playlist.

use vstd::prelude::*;

use crate::app::App;

verus! {

/// Lists the playlist and jumps to the entry that is picked.
#[derive(Clone, Copy, Debug, Default, PartialEq, Eq, Structural)]
pub struct PlaylistMenu;

impl PlaylistMenu {
    /// The name of the menu.
    pub fn label(&self) -> (text: &'static str)
        ensures
            text@ == "Playlist"@,
    {
        "Playlist"
    }

    /// The menu can be opened where there is more than one entry to
    /// choose from.
    pub fn enabled(&self, app: &App) -> (enabled: bool)
        ensures
            enabled == (app.mpv.media().playlist.len() > 1),
    {
        app.mpv.playlist().len() > 1
    }
}

} // verus!
