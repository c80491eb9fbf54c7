//! How the window is set up. It is set once, before the first paint.

use vstd::prelude::*;
use vstd::string::*;

verus! {

/// The settings of the window. Lengths are in logical units, which the host
/// scales to the display.
pub struct WindowConfig {
    /// The window's title.
    pub title: String,
    /// Whether the user may resize the window.
    pub resizable: bool,
    /// Whether the window has a title bar and a border.
    pub decorations: bool,
    /// Whether the window's background lets through what lies behind it.
    pub transparent: bool,
    /// Whether the window stays above all other windows.
    pub always_on_top: bool,
    /// Where the window's top left corner first stands: across, down.
    pub position: (u32, u32),
    /// The first size of the window's content: width, height.
    pub inner_size: (u32, u32),
}

/// The settings the monitor opens its window with: a bare, see-through,
/// resizable window of 200 by 100 in the top left corner of the screen, above
/// all other windows.
pub fn window_config() -> (config: WindowConfig)
    ensures
        config.title@ == "OsStat"@,
        config.resizable,
        !config.decorations,
        config.transparent,
        config.always_on_top,
        config.position == (0u32, 0u32),
        config.inner_size == (200u32, 100u32),
{
    WindowConfig {
        title: String::from_str("OsStat"),
        resizable: true,
        decorations: false,
        transparent: true,
        always_on_top: true,
        position: (0, 0),
        inner_size: (200, 100),
    }
}

} // verus!
