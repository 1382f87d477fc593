//! The GUI's own settings.

use vstd::prelude::*;

verus! {

pub const UI_CONFIG_FILE: &'static str = "ui.config.json";

/// The colour scheme of the GUI.
#[derive(Clone, Copy, Debug, PartialEq, Eq, Structural)]
pub enum ColorScheme {
    /// Follow the desktop's preference.
    Auto,
    Light,
    Dark,
}

impl Default for ColorScheme {
    fn default() -> (r: Self)
        ensures
            r == ColorScheme::Auto,
    {
        ColorScheme::Auto
    }
}

/// The GUI's settings; a setting that cannot be read falls back to its default.
#[derive(Clone, Copy, Debug, PartialEq, Eq, Structural)]
pub struct UiConfig {
    pub color_scheme: ColorScheme,
}

impl Default for UiConfig {
    fn default() -> (r: Self)
        ensures
            r.color_scheme == ColorScheme::Auto,
    {
        UiConfig { color_scheme: ColorScheme::Auto }
    }
}

} // verus!
