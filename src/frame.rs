use vstd::prelude::*;
use crate::types::{ColorRange, ColorSpace, PixelFormat};

verus! {

/// What every audio frame tells about itself.
pub trait AudioFrameInterface {
    fn timestamp_us(&self) -> Option<i64>;

    fn buffer_size(&self) -> u32;
}

/// An audio frame with no data.
pub struct NullAudioFrame;

impl AudioFrameInterface for NullAudioFrame {
    fn timestamp_us(&self) -> Option<i64> {
        None
    }

    fn buffer_size(&self) -> u32 {
        0
    }
}

/// A video frame with no data: no size, no time, no known format.
pub struct NullVideoFrame;

impl NullVideoFrame {
    pub fn width(&self) -> (r: u32)
        ensures
            r == 0,
    {
        0
    }

    pub fn height(&self) -> (r: u32)
        ensures
            r == 0,
    {
        0
    }

    pub fn timestamp_us(&self) -> (r: Option<i64>)
        ensures
            r is None,
    {
        None
    }

    pub fn format(&self) -> (r: PixelFormat)
        ensures
            r == PixelFormat::Unknown,
    {
        PixelFormat::Unknown
    }

    pub fn color_range(&self) -> (r: Option<ColorRange>)
        ensures
            r is None,
    {
        None
    }

    pub fn color_space(&self) -> (r: Option<ColorSpace>)
        ensures
            r is None,
    {
        None
    }
}

} // verus!
