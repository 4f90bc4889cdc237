//! Bootstrap logic for a window that fills the primary display: reading the
//! display's description, choosing the window and context settings, and the
//! decisions of the frame loop. The platform calls themselves are made by the
//! program around this library.
pub mod display;
pub mod frame_loop;
pub mod outcome;
pub mod window;
