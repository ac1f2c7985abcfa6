use vstd::prelude::*;

verus! {

/// Initial window width in pixels.
pub const WINDOW_WIDTH: u32 = 800;

/// Initial window height in pixels.
pub const WINDOW_HEIGHT: u32 = 600;

/// Display mode of the window.
#[derive(Clone, Copy, Debug, PartialEq, Eq, Structural)]
pub enum FullscreenMode {
    Windowed,
    FullscreenDesktop,
}

impl FullscreenMode {
    pub open spec fn flipped(self) -> FullscreenMode {
        match self {
            FullscreenMode::Windowed => FullscreenMode::FullscreenDesktop,
            FullscreenMode::FullscreenDesktop => FullscreenMode::Windowed,
        }
    }

    /// The mode that a toggle requests from the platform: leaving windowed
    /// mode enters desktop fullscreen, anything else goes back to a window.
    pub fn toggled(self) -> (r: FullscreenMode)
        ensures
            r == self.flipped(),
    {
        match self {
            FullscreenMode::Windowed => FullscreenMode::FullscreenDesktop,
            FullscreenMode::FullscreenDesktop => FullscreenMode::Windowed,
        }
    }
}

/// An RGBA draw color.
#[derive(Clone, Copy, Debug, PartialEq, Eq, Structural)]
pub struct Color {
    pub r: u8,
    pub g: u8,
    pub b: u8,
    pub a: u8,
}

pub open spec fn background() -> Color {
    Color { r: 255, g: 255, b: 255, a: 255 }
}

impl Color {
    /// Opaque white, the background of every frame.
    pub fn white() -> (c: Color)
        ensures
            c == background(),
    {
        Color { r: 255, g: 255, b: 255, a: 255 }
    }
}

/// A fire-and-forget request to the window and its surface.
#[derive(Clone, Copy, Debug, PartialEq, Eq, Structural)]
pub enum Command {
    /// Ask the platform to put the window in this mode; a failure is only
    /// reported, never fatal.
    SetFullscreen(FullscreenMode),
    /// Set the draw color, clear the surface and present the frame.
    ClearAndPresent(Color),
}

/// How the one window of a run is created.
#[derive(Debug)]
pub struct WindowConfig {
    pub title: String,
    pub width: u32,
    pub height: u32,
    pub resizable: bool,
    pub centered: bool,
    pub vulkan: bool,
    pub initial_mode: FullscreenMode,
}

/// The window of a run: the given title, 800 by 600, resizable, centered,
/// started in desktop fullscreen.
pub open spec fn is_window_for(c: WindowConfig, title: Seq<char>) -> bool {
    &&& c.title@ == title
    &&& c.width == 800
    &&& c.height == 600
    &&& c.resizable
    &&& c.centered
    &&& c.vulkan
    &&& c.initial_mode == FullscreenMode::FullscreenDesktop
}

impl WindowConfig {
    pub fn for_title(title: &str) -> (c: WindowConfig)
        ensures
            is_window_for(c, title@),
    {
        WindowConfig {
            title: title.to_string(),
            width: WINDOW_WIDTH,
            height: WINDOW_HEIGHT,
            resizable: true,
            centered: true,
            vulkan: true,
            initial_mode: FullscreenMode::FullscreenDesktop,
        }
    }
}

} // verus!
