//! Title, times and progress at the bottom of the screen.

use vstd::prelude::*;

use crate::command::{Actions, Command};

verus! {

/// How long the bar stays without input, in milliseconds.
pub const SEEK_BAR_MILLIS: u64 = 5_000;

/// The playback bar.
#[derive(Clone, Copy, Debug, Default, PartialEq, Eq, Structural)]
pub struct SeekBarView;

impl SeekBarView {
    /// What each button does while the bar is shown.
    pub open spec fn actions() -> Actions {
        Actions {
            a: Command::StartSeeking,
            b: Command::HideUi,
            x: Command::TogglePause,
            left: Command::SeekBackwardStateless,
            right: Command::SeekForwardStateless,
            start: Command::ShowMediaMenu,
            ..Actions::unbound()
        }
    }

    /// What each button does while the bar is shown.
    pub fn button_actions(&self) -> (actions: Actions)
        ensures
            actions == Self::actions(),
    {
        Actions {
            a: Command::StartSeeking,
            b: Command::HideUi,
            x: Command::TogglePause,
            left: Command::SeekBackwardStateless,
            right: Command::SeekForwardStateless,
            start: Command::ShowMediaMenu,
            ..Actions::default()
        }
    }

    /// Hints about the buttons are shown.
    pub fn show_prompts(&self) -> (shown: bool)
        ensures
            shown,
    {
        true
    }

    /// The bar goes away after five seconds without input.
    pub fn hide_on_inactive(&self) -> (limit: Option<u64>)
        ensures
            limit == Some(SEEK_BAR_MILLIS),
    {
        Some(SEEK_BAR_MILLIS)
    }
}

} // verus!
