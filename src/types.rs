use vstd::prelude::*;

verus! {

/// Pixel layouts that a decoded frame can have.
#[derive(Debug, PartialEq, Eq, Clone, Copy, Structural)]
pub enum PixelFormat {
    Unknown,
    AYUV64LE,
    NV12,
    NV21,
    NV16,
    NV24,
    NV42,
    P010LE,
    P016LE,
    P210LE,
    P216LE,
    P410LE,
    P416LE,
    RgbU8,
    RgbU16,
    RgbF16,
    RgbF32,
    RgbaU8,
    RgbaU16,
    RgbaF16,
    RgbaF32,
    BgrU8,
    BgrU16,
    BgrF16,
    BgrF32,
    BgraU8,
    BgraU16,
    BgraF16,
    BgraF32,
    YUV420P,
    YUV420P10LE,
    YUV420P12LE,
    YUV420P14LE,
    YUV420P16LE,
    YUV422P,
    YUV422P10LE,
    YUV422P12LE,
    YUV422P14LE,
    YUV422P16LE,
    YUV444P,
    YUV444P10LE,
    YUV444P12LE,
    YUV444P14LE,
    YUV444P16LE,
    UYVY422,
}

/// Whether sample values span the full range or the limited (video) range.
#[derive(Debug, Copy, Clone, PartialEq, Eq, Structural)]
pub enum ColorRange {
    Full,
    Limited,
}

/// The colour matrix a frame was encoded with.
#[derive(Debug, Copy, Clone, PartialEq, Eq, Structural)]
pub enum ColorSpace {
    Bt601,
    Bt709,
    Bt2020,
}

/// What a track of a source carries.
#[derive(Debug, Copy, Clone, PartialEq, Eq, Structural)]
pub enum StreamType {
    Video,
    Audio,
    Subtitle,
    Metadata,
    Other,
}

/// An exact ratio of two integers, numerator first.
#[derive(Debug, Clone, Copy, PartialEq, Eq, Structural)]
pub struct Rational(pub i32, pub i32);

impl Rational {
    /// The reciprocal: numerator and denominator swapped.
    pub fn invert(&self) -> (r: Self)
        ensures
            r.0 == self.1,
            r.1 == self.0,
    {
        Rational(self.1, self.0)
    }
}

/// Per-track metadata, with the flag that says whether the track is decoded.
#[derive(Debug, Clone, Copy, PartialEq, Eq, Structural)]
pub struct Stream {
    pub stream_type: StreamType,
    pub index: usize,
    pub time_base: Rational,
    pub avg_frame_rate: Rational,
    pub rate: Rational,
    pub decode: bool,
}

/// What a source says of its main video track, in exact units.
#[derive(Debug, Clone, Copy, PartialEq, Eq, Structural)]
pub struct VideoInfo {
    /// Length in whole milliseconds, rounded down.
    pub duration_ms: u64,
    pub frame_count: usize,
    pub fps: Rational,
    pub width: u32,
    pub height: u32,
    /// Bits per second; zero where the source does not say.
    pub bitrate: u64,
    /// Seconds since the Unix epoch at which the source was made, if known.
    pub created_at: Option<u64>,
    /// Display rotation in degrees, in `[-180, 180)`.
    pub rotation: i32,
}

#[derive(Copy, Clone, Debug, PartialEq, Eq, Structural)]
pub enum VideoCodec {
    H264,
    H265,
    AV1,
    ProRes,
    DNxHR,
    CineForm,
    PNG,
    EXR,
}

#[derive(Copy, Clone, Debug, PartialEq, Eq, Structural)]
pub enum AudioCodec {
    AAC,
    PCM,
}

/// An encoder; it has no state of its own yet.
pub struct Encoder {}

/// The codecs an encoder can be asked for.
#[derive(Copy, Clone, Debug, PartialEq, Eq, Structural)]
pub enum EncoderCodec {
    H264,
    H265,
    ProRes,
    DNxHR,
    PNG,
    EXR,
}

/// Everything that can go wrong while opening or decoding a source.
#[derive(Debug, Clone, PartialEq, Eq)]
pub enum VideoProcessingError {
    EncoderNotFound,
    DecoderNotFound,
    NoSupportedFormats,
    NoOutputContext,
    EncoderConverterEmpty,
    VideoStreamNotFound,
    ConverterEmpty,
    FrameEmpty,
    NoGPUDecodingDevice,
    NoHWTransferFormats,
    FromHWTransferError(i32),
    ToHWTransferError(i32),
    CannotCreateGPUDecoding,
    NoFramesContext,
    GPUDecodingFailed,
    ToHWBufferError(i32),
    PixelFormatNotSupported { format: PixelFormat, supported: Vec<PixelFormat> },
    UnknownPixelFormat(PixelFormat),
    UnsupportedIO,
    /// A failure reported by a decode engine, with the engine's own code.
    EngineError(i32),
}

} // verus!
