use vstd::prelude::*;

use crate::outcome::SetupError;

verus! {

/// A display's native video mode, as the windowing toolkit reports it.
#[derive(Clone, Copy, Debug, PartialEq, Eq, Structural)]
pub struct VideoMode {
    pub width: i32,
    pub height: i32,
    pub red_bits: i32,
    pub green_bits: i32,
    pub blue_bits: i32,
    pub refresh_rate: i32,
}

/// What the toolkit reported of an attached monitor: the bytes of its name
/// up to the terminating NUL (`None` where it gave no name) and its video
/// mode (`None` where it gave none).
#[derive(Clone, Debug, PartialEq, Eq)]
pub struct MonitorReport {
    pub name: Option<Vec<u8>>,
    pub mode: Option<VideoMode>,
}

/// The primary display: its readable name and its native video mode.
#[derive(Clone, Debug, PartialEq, Eq)]
pub struct Display {
    pub name: String,
    pub mode: VideoMode,
}

/// The text that `String::from_utf8_lossy` makes of a byte sequence.
pub uninterp spec fn lossy_utf8(b: Seq<u8>) -> Seq<char>;

/// Every byte is below 128.
pub open spec fn all_ascii(b: Seq<u8>) -> bool {
    forall|i: int| 0 <= i < b.len() ==> b[i] < 128
}

/// Relies on `String::from_utf8_lossy`: the result depends on the bytes
/// alone, is empty for no bytes, and is the same characters for ASCII bytes
/// (valid UTF-8 is kept as it is).
#[verifier::external_body]
fn decode_lossy(b: &Vec<u8>) -> (r: String)
    ensures
        r@ == lossy_utf8(b@),
        b@.len() == 0 ==> r@.len() == 0,
        all_ascii(b@) ==> r@.len() == b@.len(),
        all_ascii(b@) ==> forall|i: int| 0 <= i < b@.len() ==> r@[i] as u32 == b@[i] as u32,
{
    String::from_utf8_lossy(b.as_slice()).into_owned()
}

/// The text of a platform string: empty where the platform gave none,
/// else its bytes decoded as UTF-8 with each invalid sequence replaced.
pub open spec fn c_text(bytes: Option<Vec<u8>>) -> Seq<char> {
    match bytes {
        None => Seq::empty(),
        Some(b) => lossy_utf8(b@),
    }
}

/// Turns the bytes of a platform string into owned text.
pub fn text_from_c_bytes(bytes: Option<Vec<u8>>) -> (r: String)
    ensures
        r@ == c_text(bytes),
{
    match bytes {
        None => String::new(),
        Some(b) => decode_lossy(&b),
    }
}

/// Reads the primary display from what the toolkit reported: `None` where
/// no monitor is attached.
pub fn query_primary_display(monitor: Option<MonitorReport>) -> (r: Result<Display, SetupError>)
    ensures
        monitor is None <==> r == Err::<Display, SetupError>(SetupError::NoDisplay),
        monitor matches Some(m) && m.mode is None <==> r == Err::<Display, SetupError>(
            SetupError::NoVideoMode,
        ),
        r is Ok <==> (monitor matches Some(m) && m.mode is Some),
        r matches Ok(d) ==> d.mode == monitor->Some_0.mode->Some_0 && d.name@ == c_text(
            monitor->Some_0.name,
        ),
{
    match monitor {
        None => Err(SetupError::NoDisplay),
        Some(m) => match m.mode {
            None => Err(SetupError::NoVideoMode),
            Some(mode) => Ok(Display { name: text_from_c_bytes(m.name), mode }),
        },
    }
}

} // verus!
