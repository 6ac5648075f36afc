//! The status and error texts that the camera worker and the viewer show.
use vstd::prelude::*;

use crate::decimal::{decimal, decimal_string};

verus! {

/// `prefix` followed by `rest`.
pub fn prefixed(prefix: &str, rest: &str) -> (s: String)
    ensures
        s@ == prefix@ + rest@,
{
    let mut s = String::from_str(prefix);
    s.append(rest);
    s
}

/// "Found {n} camera(s)."
pub fn found_cameras_text(n: usize) -> (s: String)
    ensures
        s@ == "Found "@ + decimal(n as nat) + " camera(s)."@,
{
    let count = decimal_string(n as u64);
    let mut s = String::from_str("Found ");
    s.append(count.as_str());
    s.append(" camera(s).");
    s
}

/// "Could not query cameras: {error}"
pub fn query_failed_text(error: &str) -> (s: String)
    ensures
        s@ == "Could not query cameras: "@ + error@,
{
    prefixed("Could not query cameras: ", error)
}

/// "Could not create camera: {error}"
pub fn create_camera_failed_text(error: &str) -> (s: String)
    ensures
        s@ == "Could not create camera: "@ + error@,
{
    prefixed("Could not create camera: ", error)
}

/// "Could not open camera stream: {error}"
pub fn open_stream_failed_text(error: &str) -> (s: String)
    ensures
        s@ == "Could not open camera stream: "@ + error@,
{
    prefixed("Could not open camera stream: ", error)
}

/// "Could not read frame: {error}"
pub fn read_frame_failed_text(error: &str) -> (s: String)
    ensures
        s@ == "Could not read frame: "@ + error@,
{
    prefixed("Could not read frame: ", error)
}

/// "Could not decode frame: {error}"
pub fn decode_frame_failed_text(error: &str) -> (s: String)
    ensures
        s@ == "Could not decode frame: "@ + error@,
{
    prefixed("Could not decode frame: ", error)
}

/// The text of "Streaming {label} at {width}x{height} {frame_rate} FPS."
pub open spec fn streaming_text_spec(label: Seq<char>, width: nat, height: nat, frame_rate: nat) -> Seq<
    char,
> {
    "Streaming "@ + label + " at "@ + decimal(width) + "x"@ + decimal(height) + " "@ + decimal(
        frame_rate,
    ) + " FPS."@
}

/// "Streaming {label} at {width}x{height} {frame_rate} FPS."
pub fn streaming_text(label: &str, width: u32, height: u32, frame_rate: u32) -> (s: String)
    ensures
        s@ == streaming_text_spec(label@, width as nat, height as nat, frame_rate as nat),
{
    let w = decimal_string(width as u64);
    let h = decimal_string(height as u64);
    let f = decimal_string(frame_rate as u64);
    let mut s = String::from_str("Streaming ");
    s.append(label);
    s.append(" at ");
    s.append(w.as_str());
    s.append("x");
    s.append(h.as_str());
    s.append(" ");
    s.append(f.as_str());
    s.append(" FPS.");
    s
}

} // verus!
