use vstd::prelude::*;
use crate::text::{ascii_lower, ascii_lowercase, chars_of, spells, trim, trimmed};
use crate::types::PixelFormat;

verus! {

/// Decode resolution of a Blackmagic RAW clip, relative to its full size.
#[derive(Debug, Clone, Copy, PartialEq, Eq, Structural)]
pub enum ResolutionScale {
    Full,
    Half,
    Quarter,
    Eighth,
}

/// Output layouts a Blackmagic RAW decode can be asked for.
#[derive(Debug, Clone, Copy, PartialEq, Eq, Structural)]
pub enum BrawResourceFormat {
    RGBAU8,
    BGRAU8,
    RGBU16,
    RGBAU16,
    BGRAU16,
    RGBU16Planar,
    RGBF32,
    RGBAF32,
    BGRAF32,
    RGBF32Planar,
    RGBF16,
    RGBAF16,
    BGRAF16,
    RGBF16Planar,
}

/// Decode resolution and quality of a RED clip.
#[derive(Debug, Clone, Copy, PartialEq, Eq, Structural)]
pub enum R3dDecodeMode {
    FullResPremium,
    HalfResPremium,
    HalfResGood,
    QuarterResGood,
    EightResGood,
    SixteenthResGood,
}

/// Output layouts a RED decode can be asked for.
#[derive(Debug, Clone, Copy, PartialEq, Eq, Structural)]
pub enum R3dPixelType {
    Bgra8bitInterleaved,
    Bgr8bitInterleaved,
    Rgb16bitInterleaved,
    RgbHalfFloatInterleaved,
    RgbHalfFloatAcesInt,
    Rgb16bitPlanar,
    Dpx10bitMethodB,
}

/// The text of an option value as it is matched: ASCII-lowered, then trimmed.
pub open spec fn option_token(value: Seq<char>) -> Seq<char> {
    trimmed(ascii_lower(value))
}

pub open spec fn resolution_scale_of(t: Seq<char>) -> Option<ResolutionScale> {
    if t == "full"@ || t == "1"@ {
        Some(ResolutionScale::Full)
    } else if t == "half"@ || t == "1/2"@ {
        Some(ResolutionScale::Half)
    } else if t == "quarter"@ || t == "1/4"@ {
        Some(ResolutionScale::Quarter)
    } else if t == "eighth"@ || t == "1/8"@ {
        Some(ResolutionScale::Eighth)
    } else {
        None
    }
}

pub open spec fn resource_format_of(t: Seq<char>) -> Option<BrawResourceFormat> {
    if t == "rgba8"@ {
        Some(BrawResourceFormat::RGBAU8)
    } else if t == "bgra8"@ {
        Some(BrawResourceFormat::BGRAU8)
    } else if t == "rgb16"@ {
        Some(BrawResourceFormat::RGBU16)
    } else if t == "rgba16"@ {
        Some(BrawResourceFormat::RGBAU16)
    } else if t == "bgra16"@ {
        Some(BrawResourceFormat::BGRAU16)
    } else if t == "rgb16_planar"@ {
        Some(BrawResourceFormat::RGBU16Planar)
    } else if t == "rgbf32"@ {
        Some(BrawResourceFormat::RGBF32)
    } else if t == "rgbaf32"@ {
        Some(BrawResourceFormat::RGBAF32)
    } else if t == "bgraf32"@ {
        Some(BrawResourceFormat::BGRAF32)
    } else if t == "rgbf32_planar"@ {
        Some(BrawResourceFormat::RGBF32Planar)
    } else if t == "rgbf16"@ {
        Some(BrawResourceFormat::RGBF16)
    } else if t == "rgbaf16"@ {
        Some(BrawResourceFormat::RGBAF16)
    } else if t == "bgraf16"@ {
        Some(BrawResourceFormat::BGRAF16)
    } else if t == "rgbf16_planar"@ {
        Some(BrawResourceFormat::RGBF16Planar)
    } else {
        None
    }
}

pub open spec fn decode_mode_of(t: Seq<char>) -> Option<R3dDecodeMode> {
    if t == "full"@ || t == "1"@ {
        Some(R3dDecodeMode::FullResPremium)
    } else if t == "half"@ {
        Some(R3dDecodeMode::HalfResPremium)
    } else if t == "half_good"@ || t == "1/2"@ {
        Some(R3dDecodeMode::HalfResGood)
    } else if t == "quarter"@ || t == "1/4"@ {
        Some(R3dDecodeMode::QuarterResGood)
    } else if t == "eighth"@ || t == "1/8"@ {
        Some(R3dDecodeMode::EightResGood)
    } else if t == "sixteenth"@ || t == "1/16"@ {
        Some(R3dDecodeMode::SixteenthResGood)
    } else {
        None
    }
}

pub open spec fn pixel_type_of(t: Seq<char>) -> Option<R3dPixelType> {
    if t == "bgra8"@ {
        Some(R3dPixelType::Bgra8bitInterleaved)
    } else if t == "bgr8"@ {
        Some(R3dPixelType::Bgr8bitInterleaved)
    } else if t == "rgb16"@ {
        Some(R3dPixelType::Rgb16bitInterleaved)
    } else if t == "rgb16_planar"@ {
        Some(R3dPixelType::Rgb16bitPlanar)
    } else if t == "rgbf16"@ {
        Some(R3dPixelType::RgbHalfFloatInterleaved)
    } else if t == "rgbf16_aces"@ {
        Some(R3dPixelType::RgbHalfFloatAcesInt)
    } else if t == "dpx10"@ {
        Some(R3dPixelType::Dpx10bitMethodB)
    } else {
        None
    }
}

/// Reads a decode resolution (`full|half|quarter|eighth`, or `1|1/2|1/4|1/8`),
/// ignoring ASCII case and surrounding white space.
pub fn parse_resolution_scale(value: &str) -> (r: Option<ResolutionScale>)
    ensures
        r == resolution_scale_of(option_token(value@)),
{
    let lower = ascii_lowercase(value);
    resolution_scale_from_token(trim(lower.as_str()))
}

/// Reads a decode resolution from text that is already lower-case and trimmed.
pub fn resolution_scale_from_token(token: &str) -> (r: Option<ResolutionScale>)
    ensures
        r == resolution_scale_of(token@),
{
    let t = chars_of(token);
    if spells(&t, "full") || spells(&t, "1") {
        Some(ResolutionScale::Full)
    } else if spells(&t, "half") || spells(&t, "1/2") {
        Some(ResolutionScale::Half)
    } else if spells(&t, "quarter") || spells(&t, "1/4") {
        Some(ResolutionScale::Quarter)
    } else if spells(&t, "eighth") || spells(&t, "1/8") {
        Some(ResolutionScale::Eighth)
    } else {
        None
    }
}

/// Reads a Blackmagic RAW output layout name, ignoring ASCII case and
/// surrounding white space.
pub fn parse_resource_format(value: &str) -> (r: Option<BrawResourceFormat>)
    ensures
        r == resource_format_of(option_token(value@)),
{
    let lower = ascii_lowercase(value);
    resource_format_from_token(trim(lower.as_str()))
}

/// Reads a Blackmagic RAW output layout from text that is already lower-case and trimmed.
pub fn resource_format_from_token(token: &str) -> (r: Option<BrawResourceFormat>)
    ensures
        r == resource_format_of(token@),
{
    let t = chars_of(token);
    if spells(&t, "rgba8") {
        Some(BrawResourceFormat::RGBAU8)
    } else if spells(&t, "bgra8") {
        Some(BrawResourceFormat::BGRAU8)
    } else if spells(&t, "rgb16") {
        Some(BrawResourceFormat::RGBU16)
    } else if spells(&t, "rgba16") {
        Some(BrawResourceFormat::RGBAU16)
    } else if spells(&t, "bgra16") {
        Some(BrawResourceFormat::BGRAU16)
    } else if spells(&t, "rgb16_planar") {
        Some(BrawResourceFormat::RGBU16Planar)
    } else if spells(&t, "rgbf32") {
        Some(BrawResourceFormat::RGBF32)
    } else if spells(&t, "rgbaf32") {
        Some(BrawResourceFormat::RGBAF32)
    } else if spells(&t, "bgraf32") {
        Some(BrawResourceFormat::BGRAF32)
    } else if spells(&t, "rgbf32_planar") {
        Some(BrawResourceFormat::RGBF32Planar)
    } else if spells(&t, "rgbf16") {
        Some(BrawResourceFormat::RGBF16)
    } else if spells(&t, "rgbaf16") {
        Some(BrawResourceFormat::RGBAF16)
    } else if spells(&t, "bgraf16") {
        Some(BrawResourceFormat::BGRAF16)
    } else if spells(&t, "rgbf16_planar") {
        Some(BrawResourceFormat::RGBF16Planar)
    } else {
        None
    }
}

/// Reads a RED decode resolution (`full|half|half_good|quarter|eighth|sixteenth`,
/// or `1|1/2|1/4|1/8|1/16`), ignoring ASCII case and surrounding white space.
pub fn parse_decode_mode(value: &str) -> (r: Option<R3dDecodeMode>)
    ensures
        r == decode_mode_of(option_token(value@)),
{
    let lower = ascii_lowercase(value);
    decode_mode_from_token(trim(lower.as_str()))
}

/// Reads a RED decode resolution from text that is already lower-case and trimmed.
pub fn decode_mode_from_token(token: &str) -> (r: Option<R3dDecodeMode>)
    ensures
        r == decode_mode_of(token@),
{
    let t = chars_of(token);
    if spells(&t, "full") || spells(&t, "1") {
        Some(R3dDecodeMode::FullResPremium)
    } else if spells(&t, "half") {
        Some(R3dDecodeMode::HalfResPremium)
    } else if spells(&t, "half_good") || spells(&t, "1/2") {
        Some(R3dDecodeMode::HalfResGood)
    } else if spells(&t, "quarter") || spells(&t, "1/4") {
        Some(R3dDecodeMode::QuarterResGood)
    } else if spells(&t, "eighth") || spells(&t, "1/8") {
        Some(R3dDecodeMode::EightResGood)
    } else if spells(&t, "sixteenth") || spells(&t, "1/16") {
        Some(R3dDecodeMode::SixteenthResGood)
    } else {
        None
    }
}

/// Reads a RED output layout name, ignoring ASCII case and surrounding white space.
pub fn parse_pixel_type(value: &str) -> (r: Option<R3dPixelType>)
    ensures
        r == pixel_type_of(option_token(value@)),
{
    let lower = ascii_lowercase(value);
    pixel_type_from_token(trim(lower.as_str()))
}

/// Reads a RED output layout from text that is already lower-case and trimmed.
pub fn pixel_type_from_token(token: &str) -> (r: Option<R3dPixelType>)
    ensures
        r == pixel_type_of(token@),
{
    let t = chars_of(token);
    if spells(&t, "bgra8") {
        Some(R3dPixelType::Bgra8bitInterleaved)
    } else if spells(&t, "bgr8") {
        Some(R3dPixelType::Bgr8bitInterleaved)
    } else if spells(&t, "rgb16") {
        Some(R3dPixelType::Rgb16bitInterleaved)
    } else if spells(&t, "rgb16_planar") {
        Some(R3dPixelType::Rgb16bitPlanar)
    } else if spells(&t, "rgbf16") {
        Some(R3dPixelType::RgbHalfFloatInterleaved)
    } else if spells(&t, "rgbf16_aces") {
        Some(R3dPixelType::RgbHalfFloatAcesInt)
    } else if spells(&t, "dpx10") {
        Some(R3dPixelType::Dpx10bitMethodB)
    } else {
        None
    }
}

pub open spec fn mode_divisor_spec(mode: R3dDecodeMode) -> u32 {
    match mode {
        R3dDecodeMode::FullResPremium => 1,
        R3dDecodeMode::HalfResPremium => 2,
        R3dDecodeMode::HalfResGood => 2,
        R3dDecodeMode::QuarterResGood => 4,
        R3dDecodeMode::EightResGood => 8,
        R3dDecodeMode::SixteenthResGood => 16,
    }
}

/// By how much a RED decode mode divides each side of the picture.
pub fn mode_divisor(mode: &R3dDecodeMode) -> (r: u32)
    ensures
        r == mode_divisor_spec(*mode),
        r >= 1,
{
    match mode {
        R3dDecodeMode::FullResPremium => 1,
        R3dDecodeMode::HalfResPremium => 2,
        R3dDecodeMode::HalfResGood => 2,
        R3dDecodeMode::QuarterResGood => 4,
        R3dDecodeMode::EightResGood => 8,
        R3dDecodeMode::SixteenthResGood => 16,
    }
}

/// The size of a RED decode in the given mode, each side divided and rounded down.
pub fn scaled_dims(src_w: u32, src_h: u32, mode: &R3dDecodeMode) -> (r: (u32, u32))
    ensures
        r.0 == src_w / mode_divisor_spec(*mode),
        r.1 == src_h / mode_divisor_spec(*mode),
{
    let div = mode_divisor(mode);
    (src_w / div, src_h / div)
}

pub open spec fn bytes_per_pixel_spec(pt: R3dPixelType) -> usize {
    match pt {
        R3dPixelType::Bgra8bitInterleaved => 4,
        R3dPixelType::Bgr8bitInterleaved => 3,
        R3dPixelType::Rgb16bitInterleaved => 6,
        R3dPixelType::RgbHalfFloatInterleaved => 6,
        R3dPixelType::RgbHalfFloatAcesInt => 6,
        R3dPixelType::Rgb16bitPlanar => 2,
        R3dPixelType::Dpx10bitMethodB => 4,
    }
}

/// Bytes that one pixel takes in a row of a RED decode.
pub fn bytes_per_pixel(pt: R3dPixelType) -> (r: usize)
    ensures
        r == bytes_per_pixel_spec(pt),
{
    match pt {
        R3dPixelType::Bgra8bitInterleaved => 4,
        R3dPixelType::Bgr8bitInterleaved => 3,
        R3dPixelType::Rgb16bitInterleaved => 6,
        R3dPixelType::RgbHalfFloatInterleaved => 6,
        R3dPixelType::RgbHalfFloatAcesInt => 6,
        R3dPixelType::Rgb16bitPlanar => 2,
        R3dPixelType::Dpx10bitMethodB => 4,
    }
}

pub open spec fn r3d_pixel_format_spec(pt: R3dPixelType) -> PixelFormat {
    match pt {
        R3dPixelType::Bgra8bitInterleaved => PixelFormat::BgraU8,
        R3dPixelType::Bgr8bitInterleaved => PixelFormat::BgrU8,
        R3dPixelType::Rgb16bitInterleaved => PixelFormat::RgbU16,
        R3dPixelType::RgbHalfFloatInterleaved => PixelFormat::RgbF16,
        R3dPixelType::RgbHalfFloatAcesInt => PixelFormat::RgbF16,
        R3dPixelType::Rgb16bitPlanar => PixelFormat::RgbU16,
        R3dPixelType::Dpx10bitMethodB => PixelFormat::Unknown,
    }
}

/// The pixel format tag of a frame decoded by RED in the given layout.
pub fn r3d_pixel_format(pt: R3dPixelType) -> (r: PixelFormat)
    ensures
        r == r3d_pixel_format_spec(pt),
{
    match pt {
        R3dPixelType::Bgra8bitInterleaved => PixelFormat::BgraU8,
        R3dPixelType::Bgr8bitInterleaved => PixelFormat::BgrU8,
        R3dPixelType::Rgb16bitInterleaved => PixelFormat::RgbU16,
        R3dPixelType::RgbHalfFloatInterleaved => PixelFormat::RgbF16,
        R3dPixelType::RgbHalfFloatAcesInt => PixelFormat::RgbF16,
        R3dPixelType::Rgb16bitPlanar => PixelFormat::RgbU16,
        R3dPixelType::Dpx10bitMethodB => PixelFormat::Unknown,
    }
}

pub open spec fn braw_pixel_format_spec(f: BrawResourceFormat) -> PixelFormat {
    match f {
        BrawResourceFormat::RGBAU8 => PixelFormat::RgbaU8,
        BrawResourceFormat::BGRAU8 => PixelFormat::BgraU8,
        BrawResourceFormat::RGBU16 => PixelFormat::RgbU16,
        BrawResourceFormat::RGBAU16 => PixelFormat::RgbaU16,
        BrawResourceFormat::BGRAU16 => PixelFormat::BgraU16,
        BrawResourceFormat::RGBF32 => PixelFormat::RgbF32,
        BrawResourceFormat::RGBAF32 => PixelFormat::RgbaF32,
        BrawResourceFormat::BGRAF32 => PixelFormat::BgraF32,
        BrawResourceFormat::RGBF16 => PixelFormat::RgbF16,
        BrawResourceFormat::RGBAF16 => PixelFormat::RgbaF16,
        BrawResourceFormat::BGRAF16 => PixelFormat::BgraF16,
        _ => PixelFormat::Unknown,
    }
}

/// The pixel format tag of a frame decoded by Blackmagic RAW in the given
/// layout; the planar layouts have none.
pub fn braw_pixel_format(f: BrawResourceFormat) -> (r: PixelFormat)
    ensures
        r == braw_pixel_format_spec(f),
{
    match f {
        BrawResourceFormat::RGBAU8 => PixelFormat::RgbaU8,
        BrawResourceFormat::BGRAU8 => PixelFormat::BgraU8,
        BrawResourceFormat::RGBU16 => PixelFormat::RgbU16,
        BrawResourceFormat::RGBAU16 => PixelFormat::RgbaU16,
        BrawResourceFormat::BGRAU16 => PixelFormat::BgraU16,
        BrawResourceFormat::RGBF32 => PixelFormat::RgbF32,
        BrawResourceFormat::RGBAF32 => PixelFormat::RgbaF32,
        BrawResourceFormat::BGRAF32 => PixelFormat::BgraF32,
        BrawResourceFormat::RGBF16 => PixelFormat::RgbF16,
        BrawResourceFormat::RGBAF16 => PixelFormat::RgbaF16,
        BrawResourceFormat::BGRAF16 => PixelFormat::BgraF16,
        _ => PixelFormat::Unknown,
    }
}

/// The format part of the pool key of a RED output buffer.
#[derive(Debug, Clone, Copy)]
pub struct R3dTypeAndFormat {
    pub mode: R3dDecodeMode,
    pub pixel_type: R3dPixelType,
    pub size_bytes: Option<usize>,
}

impl PartialEq for R3dTypeAndFormat {
    fn eq(&self, other: &Self) -> (r: bool)
        ensures
            r == (*self == *other),
    {
        let same_size = match (self.size_bytes, other.size_bytes) {
            (Some(a), Some(b)) => a == b,
            (None, None) => true,
            _ => false,
        };
        self.mode == other.mode && self.pixel_type == other.pixel_type && same_size
    }
}

impl vstd::std_specs::cmp::PartialEqSpecImpl for R3dTypeAndFormat {
    open spec fn obeys_eq_spec() -> bool {
        true
    }

    open spec fn eq_spec(&self, other: &Self) -> bool {
        *self == *other
    }
}

/// Keys of RED buffers compare field by field, so a pool can bucket by them.
pub proof fn lemma_r3d_key_eq()
    ensures
        vstd::laws_eq::obeys_concrete_eq::<R3dTypeAndFormat>(),
{
    reveal(vstd::laws_eq::obeys_concrete_eq);
}

/// The buffer a RED decode writes into: the scaled size, the row stride and
/// the pool key; `None` where the stride does not fit in a `usize`.
pub fn r3d_buffer_request(
    clip_width: u32,
    clip_height: u32,
    mode: R3dDecodeMode,
    pixel_type: R3dPixelType,
    size_bytes: usize,
) -> (r: Option<(u32, u32, usize, R3dTypeAndFormat)>)
    ensures
        ({
            let w = clip_width / mode_divisor_spec(mode);
            let h = clip_height / mode_divisor_spec(mode);
            let stride = w * bytes_per_pixel_spec(pixel_type);
            &&& stride <= usize::MAX ==> r == Some(
                (
                    w as u32,
                    h as u32,
                    stride as usize,
                    R3dTypeAndFormat { mode, pixel_type, size_bytes: Some(size_bytes) },
                ),
            )
            &&& stride > usize::MAX ==> r is None
        }),
{
    let (width, height) = scaled_dims(clip_width, clip_height, &mode);
    let bpp = bytes_per_pixel(pixel_type);
    let stride = (width as usize).checked_mul(bpp);
    match stride {
        Some(stride) => Some(
            (width, height, stride, R3dTypeAndFormat { mode, pixel_type, size_bytes: Some(size_bytes) }),
        ),
        None => None,
    }
}

/// Where a Blackmagic RAW decode leaves its pixels.
#[derive(Debug, Clone, Copy, PartialEq, Eq, Structural)]
pub enum BrawResourceType {
    BufferCPU,
    BufferMetal,
    BufferCUDA,
    BufferOpenCL,
    Other,
}

/// The format part of the pool key of a Blackmagic RAW buffer.
#[derive(Debug, Clone, Copy)]
pub struct BrawTypeAndFormat {
    pub kind: BrawResourceType,
    pub pixel_format: BrawResourceFormat,
    pub size_bytes: Option<usize>,
}

impl PartialEq for BrawTypeAndFormat {
    fn eq(&self, other: &Self) -> (r: bool)
        ensures
            r == (*self == *other),
    {
        let same_size = match (self.size_bytes, other.size_bytes) {
            (Some(a), Some(b)) => a == b,
            (None, None) => true,
            _ => false,
        };
        self.kind == other.kind && self.pixel_format == other.pixel_format && same_size
    }
}

impl vstd::std_specs::cmp::PartialEqSpecImpl for BrawTypeAndFormat {
    open spec fn obeys_eq_spec() -> bool {
        true
    }

    open spec fn eq_spec(&self, other: &Self) -> bool {
        *self == *other
    }
}

/// Keys of Blackmagic RAW buffers compare field by field, so a pool can
/// bucket by them.
pub proof fn lemma_braw_key_eq()
    ensures
        vstd::laws_eq::obeys_concrete_eq::<BrawTypeAndFormat>(),
{
    reveal(vstd::laws_eq::obeys_concrete_eq);
}

/// How the CPU reaches the pixels of a decoded Blackmagic RAW frame.
#[derive(Debug, Clone, Copy, PartialEq)]
pub enum BrawCpuAccess {
    /// The pixels are in CPU memory already.
    Direct,
    /// The pixels are on the GPU: copy them into a pooled CPU buffer of this
    /// size and key.
    CopyInto { width: u32, height: u32, format: BrawTypeAndFormat },
    /// The resource type has no CPU path.
    Unsupported,
}

/// How the CPU reaches a frame of `width` by `height` in `format` whose
/// pixels, `size_bytes` of them, lie in a resource of type `kind`.
pub fn braw_cpu_access(
    kind: BrawResourceType,
    width: u32,
    height: u32,
    format: BrawResourceFormat,
    size_bytes: usize,
) -> (r: BrawCpuAccess)
    ensures
        kind == BrawResourceType::BufferCPU ==> r == BrawCpuAccess::Direct,
        kind == BrawResourceType::Other ==> r == BrawCpuAccess::Unsupported,
        (kind == BrawResourceType::BufferMetal || kind == BrawResourceType::BufferCUDA || kind
            == BrawResourceType::BufferOpenCL) ==> r == (BrawCpuAccess::CopyInto {
            width,
            height,
            format: BrawTypeAndFormat {
                kind: BrawResourceType::BufferCPU,
                pixel_format: format,
                size_bytes: Some(size_bytes),
            },
        }),
{
    match kind {
        BrawResourceType::BufferMetal | BrawResourceType::BufferCUDA
        | BrawResourceType::BufferOpenCL => BrawCpuAccess::CopyInto {
            width,
            height,
            format: BrawTypeAndFormat {
                kind: BrawResourceType::BufferCPU,
                pixel_format: format,
                size_bytes: Some(size_bytes),
            },
        },
        BrawResourceType::BufferCPU => BrawCpuAccess::Direct,
        BrawResourceType::Other => BrawCpuAccess::Unsupported,
    }
}

/// The kinds of GPU-resident texture a frame can hand out.
#[derive(Debug, Clone, Copy, PartialEq, Eq, Structural)]
pub enum TextureKind {
    MetalTexture,
    CUDA,
    OpenCL,
}

/// The texture a Blackmagic RAW frame hands out for a resource of type
/// `kind`; none for CPU memory.
pub fn braw_gpu_texture_kind(kind: BrawResourceType) -> (r: Option<TextureKind>)
    ensures
        r == match kind {
            BrawResourceType::BufferMetal => Some(TextureKind::MetalTexture),
            BrawResourceType::BufferCUDA => Some(TextureKind::CUDA),
            BrawResourceType::BufferOpenCL => Some(TextureKind::OpenCL),
            _ => None::<TextureKind>,
        },
{
    match kind {
        BrawResourceType::BufferMetal => Some(TextureKind::MetalTexture),
        BrawResourceType::BufferCUDA => Some(TextureKind::CUDA),
        BrawResourceType::BufferOpenCL => Some(TextureKind::OpenCL),
        _ => None,
    }
}

/// The software format of hardware frames: the desired one when the device
/// takes it; else, from the formats frames can be moved in, the desired one
/// if listed or the first one; `None` when frames cannot be moved at all.
pub open spec fn hwframes_format(desired: i32, sw_formats: Seq<i32>, transfer: Seq<i32>) -> Option<i32> {
    if sw_formats.contains(desired) {
        Some(desired)
    } else if transfer.len() == 0 {
        None
    } else if transfer.contains(desired) {
        Some(desired)
    } else {
        Some(transfer[0])
    }
}

fn contains_code(list: &[i32], x: i32) -> (r: bool)
    ensures
        r == list@.contains(x),
{
    let mut i: usize = 0;
    while i < list.len()
        invariant
            0 <= i <= list@.len(),
            forall|j: int| 0 <= j < i ==> list@[j] != x,
        decreases list@.len() - i,
    {
        if list[i] == x {
            return true;
        }
        i = i + 1;
    }
    false
}

/// Chooses the software format of a hardware frames context (formats as the
/// engine's codes).
pub fn choose_hwframes_format(desired: i32, sw_formats: &[i32], transfer: &[i32]) -> (r: Option<i32>)
    ensures
        r == hwframes_format(desired, sw_formats@, transfer@),
{
    if contains_code(sw_formats, desired) {
        Some(desired)
    } else if transfer.len() == 0 {
        None
    } else if contains_code(transfer, desired) {
        Some(desired)
    } else {
        Some(transfer[0])
    }
}

/// Whether `f` is among `list`.
fn contains_format(list: &[PixelFormat], f: PixelFormat) -> (r: bool)
    ensures
        r == list@.contains(f),
{
    let mut i: usize = 0;
    while i < list.len()
        invariant
            0 <= i <= list@.len(),
            forall|j: int| 0 <= j < i ==> list@[j] != f,
        decreases list@.len() - i,
    {
        if list[i] == f {
            return true;
        }
        i = i + 1;
    }
    false
}

/// The partner of `codec` in the pair `(a, b)` when `supported` has it.
pub open spec fn pair_partner(codec: PixelFormat, a: PixelFormat, b: PixelFormat, supported: Seq<
    PixelFormat,
>) -> Option<PixelFormat> {
    if codec == a && supported.contains(b) {
        Some(b)
    } else if codec == b && supported.contains(a) {
        Some(a)
    } else {
        None
    }
}

/// The supported format to use for `codec`: itself when supported, else its
/// semi-planar or planar counterpart, else the first supported one;
/// `Unknown` when nothing is supported.
pub open spec fn best_matching(codec: PixelFormat, supported: Seq<PixelFormat>) -> PixelFormat {
    if supported.len() == 0 {
        PixelFormat::Unknown
    } else if supported.contains(codec) {
        codec
    } else if let Some(p) = pair_partner(codec, PixelFormat::P210LE, PixelFormat::YUV422P10LE, supported) {
        p
    } else if let Some(p) = pair_partner(codec, PixelFormat::P010LE, PixelFormat::YUV420P10LE, supported) {
        p
    } else if let Some(p) = pair_partner(codec, PixelFormat::NV12, PixelFormat::YUV420P, supported) {
        p
    } else if let Some(p) = pair_partner(codec, PixelFormat::NV21, PixelFormat::YUV420P, supported) {
        p
    } else {
        supported[0]
    }
}

fn partner(codec: PixelFormat, a: PixelFormat, b: PixelFormat, supported: &[PixelFormat]) -> (r: Option<PixelFormat>)
    ensures
        r == pair_partner(codec, a, b, supported@),
{
    if codec == a && contains_format(supported, b) {
        Some(b)
    } else if codec == b && contains_format(supported, a) {
        Some(a)
    } else {
        None
    }
}

/// Picks the format to convert to so that `codec` can be fed to something
/// that takes only `supported`.
pub fn find_best_matching_codec(codec: PixelFormat, supported: &[PixelFormat]) -> (r: PixelFormat)
    ensures
        r == best_matching(codec, supported@),
{
    if supported.len() == 0 {
        return PixelFormat::Unknown;
    }
    if contains_format(supported, codec) {
        return codec;
    }
    if let Some(p) = partner(codec, PixelFormat::P210LE, PixelFormat::YUV422P10LE, supported) {
        return p;
    }
    if let Some(p) = partner(codec, PixelFormat::P010LE, PixelFormat::YUV420P10LE, supported) {
        return p;
    }
    if let Some(p) = partner(codec, PixelFormat::NV12, PixelFormat::YUV420P, supported) {
        return p;
    }
    if let Some(p) = partner(codec, PixelFormat::NV21, PixelFormat::YUV420P, supported) {
        return p;
    }
    supported[0]
}

} // verus!
