//! The menu that leads away from the media being played.

pub mod library;

use vstd::prelude::*;

use crate::command::{Actions, Command, FocusDirection};
use crate::ui::views::home_menu::library::LibraryMenu;

verus! {

/// One of the menus below the home menu.
#[derive(Clone, Copy, Debug, PartialEq, Eq, Structural)]
pub enum HomeMenu {
    Library(LibraryMenu),
}

impl HomeMenu {
    /// Whether left and right have a use of their own in the menu.
    pub open spec fn catches_left_right(self) -> bool {
        false
    }

    /// The name of the menu.
    pub fn label(&self) -> (text: &'static str)
        ensures
            text@ == "Library"@,
    {
        match self {
            HomeMenu::Library(menu) => menu.label(),
        }
    }

    /// Tells whether the menu can be opened.
    pub fn enabled(&self) -> (enabled: bool)
        ensures
            enabled,
    {
        match self {
            HomeMenu::Library(menu) => menu.enabled(),
        }
    }

    /// Tells whether left and right have a use of their own in the menu.
    pub fn catch_left_right(&self) -> (caught: bool)
        ensures
            caught == self.catches_left_right(),
    {
        match self {
            HomeMenu::Library(menu) => menu.catch_left_right(),
        }
    }
}

/// The menus that the home menu lists, in order.
pub fn entries() -> (menus: [HomeMenu; 1])
    ensures
        menus@ == seq![HomeMenu::Library(LibraryMenu)],
{
    let menus = [HomeMenu::Library(LibraryMenu)];
    assert(menus@ =~= seq![HomeMenu::Library(LibraryMenu)]);
    menus
}

/// The home menu, or one of the menus below it.
#[derive(Clone, Copy, Debug, PartialEq, Eq, Structural)]
pub struct HomeMenuView {
    pub submenu: Option<HomeMenu>,
}

impl Default for HomeMenuView {
    fn default() -> (view: HomeMenuView)
        ensures
            view.submenu is None,
    {
        HomeMenuView { submenu: None }
    }
}

impl HomeMenuView {
    /// The home menu itself.
    pub fn main() -> (view: HomeMenuView)
        ensures
            view.submenu is None,
    {
        HomeMenuView { submenu: None }
    }

    /// One of the menus below it.
    pub fn sub(menu: HomeMenu) -> (view: HomeMenuView)
        ensures
            view.submenu == Some(menu),
    {
        HomeMenuView { submenu: Some(menu) }
    }

    /// Whether left and right are left to the menu that is open.
    pub open spec fn leaves_left_right(self) -> bool {
        self.submenu matches Some(menu) && menu.catches_left_right()
    }

    /// What each button does in the menu. Left and right seek, unless
    /// the menu that is open has a use for them. Going back leads from a
    /// menu below to the home menu, and from the home menu out.
    pub open spec fn actions(self) -> Actions {
        Actions {
            a: Command::Activate,
            b: if self.submenu is Some {
                Command::ShowHomeMenu
            } else {
                Command::HideUi
            },
            x: Command::TogglePause,
            up: Command::MoveFocus(FocusDirection::Up),
            down: Command::MoveFocus(FocusDirection::Down),
            left: if self.leaves_left_right() {
                Command::Nothing
            } else {
                Command::SeekBackwardStateless
            },
            right: if self.leaves_left_right() {
                Command::Nothing
            } else {
                Command::SeekForwardStateless
            },
            home: Command::HideUi,
            ..Actions::unbound()
        }
    }

    /// What each button does in the menu.
    pub fn button_actions(&self) -> (actions: Actions)
        ensures
            actions == self.actions(),
    {
        let caught = match &self.submenu {
            Some(menu) => menu.catch_left_right(),
            None => false,
        };
        let left_right = if caught {
            Actions::default()
        } else {
            Actions {
                left: Command::SeekBackwardStateless,
                right: Command::SeekForwardStateless,
                ..Actions::default()
            }
        };
        Actions {
            a: Command::Activate,
            b: if self.submenu.is_some() {
                Command::ShowHomeMenu
            } else {
                Command::HideUi
            },
            x: Command::TogglePause,
            up: Command::MoveFocus(FocusDirection::Up),
            down: Command::MoveFocus(FocusDirection::Down),
            home: Command::HideUi,
            ..left_right
        }
    }

    /// Hints about the buttons are shown.
    pub fn show_prompts(&self) -> (shown: bool)
        ensures
            shown,
    {
        true
    }

    /// The menu stays until it is left.
    pub fn hide_on_inactive(&self) -> (limit: Option<u64>)
        ensures
            limit is None,
    {
        None
    }
}

} // verus!
