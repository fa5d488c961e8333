//! Raw (not encoded) video frames, as a capture device delivers them.
use vstd::prelude::*;

verus! {

/// Clockwise rotation to apply to a frame before display.
#[derive(Debug, Clone, Copy, PartialEq, Eq, Structural)]
pub enum VideoRotation {
    VideoRotation0,
    VideoRotation90,
    VideoRotation180,
    VideoRotation270,
}

/// A raw frame: an owned pixel buffer with its rotation and capture time.
#[derive(Debug)]
pub struct VideoFrame {
    pub rotation: VideoRotation,
    /// Capture time in microseconds.
    pub timestamp_us: i64,
    pub width: u32,
    pub height: u32,
    /// The pixel data, in the layout the device produced.
    pub buffer: Vec<u8>,
}

impl VideoFrame {
    pub fn new(rotation: VideoRotation, timestamp_us: i64, width: u32, height: u32, buffer: Vec<u8>) -> (r: Self)
        ensures
            r.rotation == rotation,
            r.timestamp_us == timestamp_us,
            r.width == width,
            r.height == height,
            r.buffer@ == buffer@,
    {
        VideoFrame { rotation, timestamp_us, width, height, buffer }
    }
}

} // verus!
