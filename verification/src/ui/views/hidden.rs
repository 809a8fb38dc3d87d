//! Nothing on the screen.

use vstd::prelude::*;

use crate::command::{Actions, Command};

verus! {

/// The overlay shows nothing; the buttons act on playback directly.
#[derive(Clone, Copy, Debug, Default, PartialEq, Eq, Structural)]
pub struct HiddenView;

impl HiddenView {
    /// What each button does while nothing is shown.
    pub open spec fn actions() -> Actions {
        Actions {
            a: Command::StartSeeking,
            b: Command::ShowUi,
            x: Command::TogglePause,
            y: Command::ShowUi,
            left: Command::SeekBackwardStateless,
            right: Command::SeekForwardStateless,
            up: Command::VolumeUp,
            down: Command::VolumeDown,
            select: Command::ShowMiniSeek,
            start: Command::ShowMediaMenu,
            ..Actions::unbound()
        }
    }

    /// What each button does while nothing is shown.
    pub fn button_actions(&self) -> (actions: Actions)
        ensures
            actions == Self::actions(),
    {
        Actions {
            a: Command::StartSeeking,
            b: Command::ShowUi,
            x: Command::TogglePause,
            y: Command::ShowUi,
            left: Command::SeekBackwardStateless,
            right: Command::SeekForwardStateless,
            up: Command::VolumeUp,
            down: Command::VolumeDown,
            select: Command::ShowMiniSeek,
            start: Command::ShowMediaMenu,
            ..Actions::default()
        }
    }

    /// No hints about the buttons are shown.
    pub fn show_prompts(&self) -> (shown: bool)
        ensures
            !shown,
    {
        false
    }

    /// The view stays until it is left.
    pub fn hide_on_inactive(&self) -> (limit: Option<u64>)
        ensures
            limit is None,
    {
        None
    }
}

} // verus!
