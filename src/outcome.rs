use vstd::prelude::*;

verus! {

/// A setup step that failed. Every one of them ends the process.
#[derive(Clone, Copy, Debug, PartialEq, Eq, Structural)]
pub enum SetupError {
    /// The windowing toolkit could not be initialised.
    ToolkitInit,
    /// No primary display is attached.
    NoDisplay,
    /// The primary display reported no video mode.
    NoVideoMode,
    /// The video mode has no positive width and height to size a window with.
    InvalidVideoMode,
    /// The window or its rendering context could not be created.
    WindowCreation,
    /// The interrupt handler could not be registered.
    SignalHandler,
}

/// How the process ends.
#[derive(Clone, Copy, Debug, PartialEq, Eq, Structural)]
pub enum Outcome {
    /// The window was closed, by its close control or by Escape.
    Closed,
    /// An interrupt signal arrived.
    Interrupted,
    /// A setup step failed.
    SetupFailed(SetupError),
}

/// The process exit status for each outcome: 0 for a close or an interrupt,
/// 1 for a failed setup.
pub open spec fn exit_code_of(o: Outcome) -> i32 {
    match o {
        Outcome::SetupFailed(_) => 1,
        _ => 0,
    }
}

pub fn exit_code(o: &Outcome) -> (r: i32)
    ensures
        r == exit_code_of(*o),
        r == 0 <==> !(*o is SetupFailed),
{
    match o {
        Outcome::SetupFailed(_) => 1,
        _ => 0,
    }
}

} // verus!
