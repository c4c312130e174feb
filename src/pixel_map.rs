use vstd::prelude::*;
use crate::types::PixelFormat;

verus! {

/// The software pixel formats of the container engine that frames are
/// tagged from; `Other` stands for every format without a tag.
#[derive(Debug, Clone, Copy, PartialEq, Eq, Structural)]
pub enum EnginePixel {
    AYUV64LE,
    NV12,
    NV21,
    NV16,
    NV24,
    NV42,
    P010LE,
    P016LE,
    P210LE,
    P216LE,
    P410LE,
    P416LE,
    RGBA,
    BGRA,
    RGBA64BE,
    YUV420P,
    YUVJ420P,
    YUV420P10LE,
    YUV420P12LE,
    YUV420P14LE,
    YUV420P16LE,
    YUV422P,
    YUVJ422P,
    YUV422P10LE,
    YUV422P12LE,
    YUV422P14LE,
    YUV422P16LE,
    YUV444P,
    YUVJ444P,
    YUV444P10LE,
    YUV444P12LE,
    YUV444P14LE,
    YUV444P16LE,
    UYVY422,
    Other,
}

pub open spec fn engine_pixel_format_spec(p: EnginePixel) -> PixelFormat {
    match p {
        EnginePixel::AYUV64LE => PixelFormat::AYUV64LE,
        EnginePixel::NV12 => PixelFormat::NV12,
        EnginePixel::NV21 => PixelFormat::NV21,
        EnginePixel::NV16 => PixelFormat::NV16,
        EnginePixel::NV24 => PixelFormat::NV24,
        EnginePixel::NV42 => PixelFormat::NV42,
        EnginePixel::P010LE => PixelFormat::P010LE,
        EnginePixel::P016LE => PixelFormat::P016LE,
        EnginePixel::P210LE => PixelFormat::P210LE,
        EnginePixel::P216LE => PixelFormat::P216LE,
        EnginePixel::P410LE => PixelFormat::P410LE,
        EnginePixel::P416LE => PixelFormat::P416LE,
        EnginePixel::RGBA => PixelFormat::RgbaU8,
        EnginePixel::BGRA => PixelFormat::BgraU8,
        EnginePixel::RGBA64BE => PixelFormat::RgbaU16,
        EnginePixel::YUV420P => PixelFormat::YUV420P,
        EnginePixel::YUVJ420P => PixelFormat::YUV420P,
        EnginePixel::YUV420P10LE => PixelFormat::YUV420P10LE,
        EnginePixel::YUV420P12LE => PixelFormat::YUV420P12LE,
        EnginePixel::YUV420P14LE => PixelFormat::YUV420P14LE,
        EnginePixel::YUV420P16LE => PixelFormat::YUV420P16LE,
        EnginePixel::YUV422P => PixelFormat::YUV422P,
        EnginePixel::YUVJ422P => PixelFormat::YUV422P,
        EnginePixel::YUV422P10LE => PixelFormat::YUV422P10LE,
        EnginePixel::YUV422P12LE => PixelFormat::YUV422P12LE,
        EnginePixel::YUV422P14LE => PixelFormat::YUV422P14LE,
        EnginePixel::YUV422P16LE => PixelFormat::YUV422P16LE,
        EnginePixel::YUV444P => PixelFormat::YUV444P,
        EnginePixel::YUVJ444P => PixelFormat::YUV444P,
        EnginePixel::YUV444P10LE => PixelFormat::YUV444P10LE,
        EnginePixel::YUV444P12LE => PixelFormat::YUV444P12LE,
        EnginePixel::YUV444P14LE => PixelFormat::YUV444P14LE,
        EnginePixel::YUV444P16LE => PixelFormat::YUV444P16LE,
        EnginePixel::UYVY422 => PixelFormat::UYVY422,
        EnginePixel::Other => PixelFormat::Unknown,
    }
}

/// The tag of a frame in the engine's software format `p`; the full-range
/// (`J`) planar formats share the tag of their limited-range forms.
pub fn engine_pixel_format(p: EnginePixel) -> (r: PixelFormat)
    ensures
        r == engine_pixel_format_spec(p),
{
    match p {
        EnginePixel::AYUV64LE => PixelFormat::AYUV64LE,
        EnginePixel::NV12 => PixelFormat::NV12,
        EnginePixel::NV21 => PixelFormat::NV21,
        EnginePixel::NV16 => PixelFormat::NV16,
        EnginePixel::NV24 => PixelFormat::NV24,
        EnginePixel::NV42 => PixelFormat::NV42,
        EnginePixel::P010LE => PixelFormat::P010LE,
        EnginePixel::P016LE => PixelFormat::P016LE,
        EnginePixel::P210LE => PixelFormat::P210LE,
        EnginePixel::P216LE => PixelFormat::P216LE,
        EnginePixel::P410LE => PixelFormat::P410LE,
        EnginePixel::P416LE => PixelFormat::P416LE,
        EnginePixel::RGBA => PixelFormat::RgbaU8,
        EnginePixel::BGRA => PixelFormat::BgraU8,
        EnginePixel::RGBA64BE => PixelFormat::RgbaU16,
        EnginePixel::YUV420P => PixelFormat::YUV420P,
        EnginePixel::YUVJ420P => PixelFormat::YUV420P,
        EnginePixel::YUV420P10LE => PixelFormat::YUV420P10LE,
        EnginePixel::YUV420P12LE => PixelFormat::YUV420P12LE,
        EnginePixel::YUV420P14LE => PixelFormat::YUV420P14LE,
        EnginePixel::YUV420P16LE => PixelFormat::YUV420P16LE,
        EnginePixel::YUV422P => PixelFormat::YUV422P,
        EnginePixel::YUVJ422P => PixelFormat::YUV422P,
        EnginePixel::YUV422P10LE => PixelFormat::YUV422P10LE,
        EnginePixel::YUV422P12LE => PixelFormat::YUV422P12LE,
        EnginePixel::YUV422P14LE => PixelFormat::YUV422P14LE,
        EnginePixel::YUV422P16LE => PixelFormat::YUV422P16LE,
        EnginePixel::YUV444P => PixelFormat::YUV444P,
        EnginePixel::YUVJ444P => PixelFormat::YUV444P,
        EnginePixel::YUV444P10LE => PixelFormat::YUV444P10LE,
        EnginePixel::YUV444P12LE => PixelFormat::YUV444P12LE,
        EnginePixel::YUV444P14LE => PixelFormat::YUV444P14LE,
        EnginePixel::YUV444P16LE => PixelFormat::YUV444P16LE,
        EnginePixel::UYVY422 => PixelFormat::UYVY422,
        EnginePixel::Other => PixelFormat::Unknown,
    }
}

pub open spec fn videotoolbox_pixel_format_spec(fourcc: u32) -> PixelFormat {
    match fourcc {
        0x42475241 => PixelFormat::BgraU8,
        0x78663230 => PixelFormat::P010LE,
        0x78343230 => PixelFormat::P010LE,
        0x34323066 => PixelFormat::NV12,
        0x34323076 => PixelFormat::NV12,
        0x79343230 => PixelFormat::YUV420P,
        0x66343230 => PixelFormat::YUV420P,
        0x78663232 => PixelFormat::P210LE,
        0x78343232 => PixelFormat::P210LE,
        0x73763232 => PixelFormat::P216LE,
        0x32767579 => PixelFormat::UYVY422,
        0x34323266 => PixelFormat::NV16,
        0x34323276 => PixelFormat::NV16,
        0x79343136 => PixelFormat::AYUV64LE,
        0x78663434 => PixelFormat::P410LE,
        0x78343434 => PixelFormat::P410LE,
        0x73763434 => PixelFormat::P416LE,
        0x34343466 => PixelFormat::NV24,
        0x34343476 => PixelFormat::NV24,
        _ => PixelFormat::Unknown,
    }
}

/// The tag of a VideoToolbox frame from its pixel buffer's four-character
/// code (big-endian):
/// - `BGRA`: `BgraU8`
/// - `xf20`: `P010LE`
/// - `x420`: `P010LE`
/// - `420f`: `NV12`
/// - `420v`: `NV12`
/// - `y420`: `YUV420P`
/// - `f420`: `YUV420P`
/// - `xf22`: `P210LE`
/// - `x422`: `P210LE`
/// - `sv22`: `P216LE`
/// - `2vuy`: `UYVY422`
/// - `422f`: `NV16`
/// - `422v`: `NV16`
/// - `y416`: `AYUV64LE`
/// - `xf44`: `P410LE`
/// - `x444`: `P410LE`
/// - `sv44`: `P416LE`
/// - `444f`: `NV24`
/// - `444v`: `NV24`
pub fn videotoolbox_pixel_format(fourcc: u32) -> (r: PixelFormat)
    ensures
        r == videotoolbox_pixel_format_spec(fourcc),
{
    match fourcc {
        0x42475241 => PixelFormat::BgraU8,
        0x78663230 => PixelFormat::P010LE,
        0x78343230 => PixelFormat::P010LE,
        0x34323066 => PixelFormat::NV12,
        0x34323076 => PixelFormat::NV12,
        0x79343230 => PixelFormat::YUV420P,
        0x66343230 => PixelFormat::YUV420P,
        0x78663232 => PixelFormat::P210LE,
        0x78343232 => PixelFormat::P210LE,
        0x73763232 => PixelFormat::P216LE,
        0x32767579 => PixelFormat::UYVY422,
        0x34323266 => PixelFormat::NV16,
        0x34323276 => PixelFormat::NV16,
        0x79343136 => PixelFormat::AYUV64LE,
        0x78663434 => PixelFormat::P410LE,
        0x78343434 => PixelFormat::P410LE,
        0x73763434 => PixelFormat::P416LE,
        0x34343466 => PixelFormat::NV24,
        0x34343476 => PixelFormat::NV24,
        _ => PixelFormat::Unknown,
    }
}

} // verus!
