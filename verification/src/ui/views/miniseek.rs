//! A thin progress bar at the bottom of the screen.

use vstd::prelude::*;

use crate::command::{Actions, Command};
use crate::ui::views::hidden::HiddenView;

verus! {

/// How long the bar stays without input, in milliseconds.
pub const MINI_SEEK_MILLIS: u64 = 2_000;

/// Only the position is shown; the buttons act as if nothing were.
#[derive(Clone, Copy, Debug, Default, PartialEq, Eq, Structural)]
pub struct MiniSeekView;

impl MiniSeekView {
    /// What each button does: the same as with nothing shown, but that
    /// the button which brought the bar up now takes it away.
    pub open spec fn actions() -> Actions {
        Actions { select: Command::HideUi, ..HiddenView::actions() }
    }

    /// What each button does while the bar is shown.
    pub fn button_actions(&self) -> (actions: Actions)
        ensures
            actions == Self::actions(),
    {
        Actions { select: Command::HideUi, ..HiddenView.button_actions() }
    }

    /// No hints about the buttons are shown.
    pub fn show_prompts(&self) -> (shown: bool)
        ensures
            !shown,
    {
        false
    }

    /// The bar goes away after two seconds without input.
    pub fn hide_on_inactive(&self) -> (limit: Option<u64>)
        ensures
            limit == Some(MINI_SEEK_MILLIS),
    {
        Some(MINI_SEEK_MILLIS)
    }
}

} // verus!
