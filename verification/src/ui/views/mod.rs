//! One module for each view.

pub mod hidden;
pub mod home_menu;
pub mod media_menu;
pub mod miniseek;
pub mod seekbar;
pub mod seeking;
