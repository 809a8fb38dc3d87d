//! The playback bar during an interactive seek.

use vstd::prelude::*;

use crate::command::{Actions, Command};

verus! {

/// The playback bar with the speed of the seek session above it.
#[derive(Clone, Copy, Debug, Default, PartialEq, Eq, Structural)]
pub struct SeekingView;

impl SeekingView {
    /// What each button does during a seek.
    pub open spec fn actions() -> Actions {
        Actions {
            a: Command::DoneSeeking,
            b: Command::CancelSeeking,
            y: Command::SeekExact,
            up: Command::SeekFaster,
            down: Command::SeekSlower,
            left: Command::SeekBackward,
            right: Command::SeekForward,
            ..Actions::unbound()
        }
    }

    /// What each button does during a seek.
    pub fn button_actions(&self) -> (actions: Actions)
        ensures
            actions == Self::actions(),
    {
        Actions {
            a: Command::DoneSeeking,
            b: Command::CancelSeeking,
            y: Command::SeekExact,
            up: Command::SeekFaster,
            down: Command::SeekSlower,
            left: Command::SeekBackward,
            right: Command::SeekForward,
            ..Actions::default()
        }
    }

    /// Hints about the buttons are shown.
    pub fn show_prompts(&self) -> (shown: bool)
        ensures
            shown,
    {
        true
    }

    /// The view stays until the seek is done or cancelled.
    pub fn hide_on_inactive(&self) -> (limit: Option<u64>)
        ensures
            limit is None,
    {
        None
    }
}

} // verus!
