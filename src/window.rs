use vstd::prelude::*;

use crate::display::{Display, VideoMode};
use crate::outcome::SetupError;

verus! {

/// Major version of the OpenGL context that is asked for.
pub const GL_VERSION_MAJOR: u32 = 3;

/// Minor version of the OpenGL context that is asked for.
pub const GL_VERSION_MINOR: u32 = 3;

/// Number of samples per pixel for multisampling.
pub const MSAA_SAMPLES: u32 = 4;

/// The window's title.
pub open spec fn window_title() -> Seq<char> {
    "Max Window"@
}

/// Everything the toolkit is asked for when the window is created.
#[derive(Clone, Debug, PartialEq, Eq)]
pub struct WindowConfig {
    pub width: u32,
    pub height: u32,
    pub title: String,
    pub gl_version_major: u32,
    pub gl_version_minor: u32,
    /// The core profile, not the compatibility one.
    pub core_profile: bool,
    /// Samples per pixel; 0 turns multisampling off.
    pub samples: u32,
    pub resizable: bool,
    pub decorated: bool,
    /// An exclusive fullscreen window rather than a window sized to the screen.
    pub exclusive_fullscreen: bool,
}

/// A video mode can size a window when both its sides are positive.
pub open spec fn mode_fits_window(m: VideoMode) -> bool {
    m.width > 0 && m.height > 0
}

/// The settings of a window that covers the display: a decorated, resizable,
/// windowed-mode window of exactly the native size, with a 3.3 core context
/// and four samples per pixel.
pub open spec fn window_config_for(c: WindowConfig, d: Display) -> bool {
    &&& c.width as int == d.mode.width as int
    &&& c.height as int == d.mode.height as int
    &&& c.title@ == window_title()
    &&& c.gl_version_major == 3
    &&& c.gl_version_minor == 3
    &&& c.core_profile
    &&& c.samples == 4
    &&& c.resizable
    &&& c.decorated
    &&& !c.exclusive_fullscreen
}

/// The window settings for the primary display; a display whose mode has no
/// positive size cannot be covered.
pub fn window_config(d: &Display) -> (r: Result<WindowConfig, SetupError>)
    ensures
        r is Ok <==> mode_fits_window(d.mode),
        !mode_fits_window(d.mode) ==> r == Err::<WindowConfig, SetupError>(
            SetupError::InvalidVideoMode,
        ),
        r matches Ok(c) ==> window_config_for(c, *d),
{
    if d.mode.width <= 0 || d.mode.height <= 0 {
        return Err(SetupError::InvalidVideoMode);
    }
    let title = "Max Window".to_owned();
    Ok(WindowConfig {
        width: d.mode.width as u32,
        height: d.mode.height as u32,
        title,
        gl_version_major: GL_VERSION_MAJOR,
        gl_version_minor: GL_VERSION_MINOR,
        core_profile: true,
        samples: MSAA_SAMPLES,
        resizable: true,
        decorated: true,
        exclusive_fullscreen: false,
    })
}

} // verus!
