//! The menu about the media being played.

pub mod chapters;
pub mod info;
pub mod playlist;
pub mod tracks;
pub mod volume;

use vstd::prelude::*;

use crate::app::App;
use crate::command::{Actions, Command, FocusDirection};
use crate::mpv::media::TrackType;
use crate::ui::views::media_menu::chapters::ChaptersMenu;
use crate::ui::views::media_menu::playlist::PlaylistMenu;
use crate::ui::views::media_menu::tracks::TrackMenu;

verus! {

/// One of the menus below the media menu.
#[derive(Clone, Copy, Debug, PartialEq, Eq, Structural)]
pub enum MediaMenu {
    Playlist(PlaylistMenu),
    Chapters(ChaptersMenu),
    Tracks(TrackMenu),
}

impl MediaMenu {
    /// The name of the menu.
    pub open spec fn label_text(self) -> Seq<char> {
        match self {
            MediaMenu::Playlist(_) => "Playlist"@,
            MediaMenu::Chapters(_) => "Chapters"@,
            MediaMenu::Tracks(menu) => menu.label_text(),
        }
    }

    /// Whether the menu can be opened, given what is known of the media.
    pub open spec fn offered(self, app: &App) -> bool {
        match self {
            MediaMenu::Playlist(_) => app.mpv.media().playlist.len() > 1,
            MediaMenu::Chapters(_) => app.mpv.media().chapters.len() > 0,
            MediaMenu::Tracks(menu) => menu.offers(app.mpv.media().tracks_of(menu.0).len()),
        }
    }

    /// The name of the menu.
    pub fn label(&self) -> (text: &'static str)
        ensures
            text@ == self.label_text(),
    {
        match self {
            MediaMenu::Playlist(menu) => menu.label(),
            MediaMenu::Chapters(menu) => menu.label(),
            MediaMenu::Tracks(menu) => menu.label(),
        }
    }

    /// Tells whether the menu can be opened.
    pub fn enabled(&self, app: &App) -> (enabled: bool)
        ensures
            enabled == self.offered(app),
    {
        match self {
            MediaMenu::Playlist(menu) => menu.enabled(app),
            MediaMenu::Chapters(menu) => menu.enabled(app),
            MediaMenu::Tracks(menu) => menu.enabled(app),
        }
    }
}

/// The menus that the media menu lists, in order.
pub open spec fn listed() -> Seq<MediaMenu> {
    seq![
        MediaMenu::Playlist(PlaylistMenu),
        MediaMenu::Chapters(ChaptersMenu),
        MediaMenu::Tracks(TrackMenu(TrackType::Video)),
        MediaMenu::Tracks(TrackMenu(TrackType::Audio)),
        MediaMenu::Tracks(TrackMenu(TrackType::Sub)),
    ]
}

/// The menus that the media menu lists, in order.
pub fn entries() -> (menus: [MediaMenu; 5])
    ensures
        menus@ == listed(),
{
    let menus = [
        MediaMenu::Playlist(PlaylistMenu),
        MediaMenu::Chapters(ChaptersMenu),
        MediaMenu::Tracks(TrackMenu(TrackType::Video)),
        MediaMenu::Tracks(TrackMenu(TrackType::Audio)),
        MediaMenu::Tracks(TrackMenu(TrackType::Sub)),
    ];
    assert(menus@ =~= listed());
    menus
}

/// The media menu, or one of the menus below it.
#[derive(Clone, Copy, Debug, PartialEq, Eq, Structural)]
pub struct MediaMenuView {
    pub submenu: Option<MediaMenu>,
}

impl Default for MediaMenuView {
    fn default() -> (view: MediaMenuView)
        ensures
            view.submenu is None,
    {
        MediaMenuView { submenu: None }
    }
}

impl MediaMenuView {
    /// The media menu itself.
    pub fn main() -> (view: MediaMenuView)
        ensures
            view.submenu is None,
    {
        MediaMenuView { submenu: None }
    }

    /// One of the menus below it.
    pub fn sub(menu: MediaMenu) -> (view: MediaMenuView)
        ensures
            view.submenu == Some(menu),
    {
        MediaMenuView { submenu: Some(menu) }
    }

    /// What each button does in the menu. Going back leads from a menu
    /// below to the media menu, and from the media menu out.
    pub open spec fn actions(self) -> Actions {
        Actions {
            a: Command::Activate,
            b: if self.submenu is Some {
                Command::ShowMediaMenu
            } else {
                Command::HideUi
            },
            x: Command::TogglePause,
            up: Command::MoveFocus(FocusDirection::Up),
            down: Command::MoveFocus(FocusDirection::Down),
            left: Command::SeekBackwardStateless,
            right: Command::SeekForwardStateless,
            start: Command::HideUi,
            ..Actions::unbound()
        }
    }

    /// What each button does in the menu.
    pub fn button_actions(&self) -> (actions: Actions)
        ensures
            actions == self.actions(),
    {
        Actions {
            a: Command::Activate,
            b: if self.submenu.is_some() {
                Command::ShowMediaMenu
            } else {
                Command::HideUi
            },
            x: Command::TogglePause,
            up: Command::MoveFocus(FocusDirection::Up),
            down: Command::MoveFocus(FocusDirection::Down),
            left: Command::SeekBackwardStateless,
            right: Command::SeekForwardStateless,
            start: Command::HideUi,
            ..Actions::default()
        }
    }

    /// Hints about the buttons are shown.
    pub fn show_prompts(&self) -> (shown: bool)
        ensures
            shown,
    {
        true
    }

    /// The menu stays until it is left.
    pub fn hide_on_inactive(&self) -> (limit: Option<u64>)
        ensures
            limit is None,
    {
        None
    }
}

} // verus!
