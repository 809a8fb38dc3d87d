//! The volume of the player and of the devices on the network.

use vstd::prelude::*;

verus! {

/// Shows one volume control for each device.
#[derive(Clone, Copy, Debug, Default, PartialEq, Eq, Structural)]
pub struct VolumeMenu;

impl VolumeMenu {
    /// The name of the menu.
    pub fn label(&self) -> (text: &'static str)
        ensures
            text@ == "Volume"@,
    {
        "Volume"
    }

    /// The menu can always be opened.
    pub fn enabled(&self) -> (enabled: bool)
        ensures
            enabled,
    {
        true
    }

    /// Left and right change the volume in this menu, so they do not
    /// seek while it is open.
    pub fn catch_left_right(&self) -> (caught: bool)
        ensures
            caught,
    {
        true
    }
}

} // verus!
