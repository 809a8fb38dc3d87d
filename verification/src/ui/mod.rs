//! The views of the overlay and what belongs to all of them.

pub mod prompts;
pub mod toast;
pub mod views;

use vstd::prelude::*;

use crate::command::Actions;
use crate::ui::views::hidden::HiddenView;
use crate::ui::views::home_menu::HomeMenuView;
use crate::ui::views::media_menu::MediaMenuView;
use crate::ui::views::miniseek::{MiniSeekView, MINI_SEEK_MILLIS};
use crate::ui::views::seekbar::{SeekBarView, SEEK_BAR_MILLIS};
use crate::ui::views::seeking::SeekingView;

verus! {

/// What is on the screen. There is always exactly one view, and a change
/// of view replaces it as a whole.
#[derive(Clone, Copy, Debug, PartialEq, Eq, Structural)]
pub enum View {
    Hidden(HiddenView),
    MiniSeek(MiniSeekView),
    SeekBar(SeekBarView),
    Seeking(SeekingView),
    MediaMenu(MediaMenuView),
    HomeMenu(HomeMenuView),
}

impl Default for View {
    fn default() -> (view: View)
        ensures
            view == View::Hidden(HiddenView),
    {
        View::Hidden(HiddenView)
    }
}

impl View {
    /// The command that each button stands for in this view.
    pub open spec fn actions(self) -> Actions {
        match self {
            View::Hidden(_) => HiddenView::actions(),
            View::MiniSeek(_) => MiniSeekView::actions(),
            View::SeekBar(_) => SeekBarView::actions(),
            View::Seeking(_) => SeekingView::actions(),
            View::MediaMenu(view) => view.actions(),
            View::HomeMenu(view) => view.actions(),
        }
    }

    /// Whether hints about the buttons are shown with this view.
    pub open spec fn prompts(self) -> bool {
        match self {
            View::Hidden(_) => false,
            View::MiniSeek(_) => false,
            _ => true,
        }
    }

    /// After how many milliseconds without input the view goes away by
    /// itself, if it does.
    pub open spec fn timeout(self) -> Option<u64> {
        match self {
            View::MiniSeek(_) => Some(MINI_SEEK_MILLIS),
            View::SeekBar(_) => Some(SEEK_BAR_MILLIS),
            _ => None,
        }
    }

    /// The command that each button stands for in this view.
    pub fn button_actions(&self) -> (actions: Actions)
        ensures
            actions == self.actions(),
    {
        match self {
            View::Hidden(view) => view.button_actions(),
            View::MiniSeek(view) => view.button_actions(),
            View::SeekBar(view) => view.button_actions(),
            View::Seeking(view) => view.button_actions(),
            View::MediaMenu(view) => view.button_actions(),
            View::HomeMenu(view) => view.button_actions(),
        }
    }

    /// Tells whether hints about the buttons are shown with this view.
    pub fn show_prompts(&self) -> (shown: bool)
        ensures
            shown == self.prompts(),
    {
        match self {
            View::Hidden(view) => view.show_prompts(),
            View::MiniSeek(view) => view.show_prompts(),
            View::SeekBar(view) => view.show_prompts(),
            View::Seeking(view) => view.show_prompts(),
            View::MediaMenu(view) => view.show_prompts(),
            View::HomeMenu(view) => view.show_prompts(),
        }
    }

    /// After how many milliseconds without input the view goes away by
    /// itself, if it does.
    pub fn hide_on_inactive(&self) -> (limit: Option<u64>)
        ensures
            limit == self.timeout(),
    {
        match self {
            View::Hidden(view) => view.hide_on_inactive(),
            View::MiniSeek(view) => view.hide_on_inactive(),
            View::SeekBar(view) => view.hide_on_inactive(),
            View::Seeking(view) => view.hide_on_inactive(),
            View::MediaMenu(view) => view.hide_on_inactive(),
            View::HomeMenu(view) => view.hide_on_inactive(),
        }
    }

    /// Tells whether nothing is shown.
    pub fn is_hidden(&self) -> (hidden: bool)
        ensures
            hidden == (*self is Hidden),
    {
        match self {
            View::Hidden(_) => true,
            _ => false,
        }
    }
}

} // verus!
