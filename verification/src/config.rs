//! The slice of the user configuration the indicator reads.

use vstd::prelude::*;

verus! {

/// Color theme of the tray icons.
#[derive(Clone, Copy, Debug, PartialEq, Eq, Structural)]
pub enum IconColor {
    Black,
    White,
}

impl Default for IconColor {
    /// The theme used when the configuration names none.
    fn default() -> (color: IconColor)
        ensures
            color == IconColor::Black,
    {
        IconColor::Black
    }
}

/// What the indicator takes from the user configuration: the icon color
/// theme, supplied once at startup.
#[derive(Clone, Copy, Debug, PartialEq, Eq, Structural)]
pub struct Config {
    pub icon_color: IconColor,
}

impl Default for Config {
    /// The configuration used when no config file is found or it fails to
    /// parse.
    fn default() -> (config: Config)
        ensures
            config.icon_color == IconColor::Black,
    {
        Config { icon_color: IconColor::Black }
    }
}

} // verus!
