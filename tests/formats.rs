use gpu_video::{
    decode_mode_from_token, pixel_type_from_token, resolution_scale_from_token,
    resource_format_from_token,
    braw_pixel_format, bytes_per_pixel, find_best_matching_codec, mode_divisor,
    parse_decode_mode, parse_pixel_type, parse_resolution_scale, parse_resource_format,
    r3d_pixel_format, scaled_dims, BrawResourceFormat, PixelFormat, R3dDecodeMode, R3dPixelType,
    Rational, ResolutionScale,
};

#[test]
fn resolution_scale_words_and_fractions() {
    assert_eq!(parse_resolution_scale("full"), Some(ResolutionScale::Full));
    assert_eq!(parse_resolution_scale("1/2"), Some(ResolutionScale::Half));
    assert_eq!(parse_resolution_scale("  QUARTER "), Some(ResolutionScale::Quarter));
    assert_eq!(parse_resolution_scale("Eighth"), Some(ResolutionScale::Eighth));
    assert_eq!(parse_resolution_scale("1"), Some(ResolutionScale::Full));
    assert_eq!(parse_resolution_scale("sixteenth"), None);
    assert_eq!(parse_resolution_scale(""), None);
}

#[test]
fn resource_format_names() {
    assert_eq!(parse_resource_format("RGBA8"), Some(BrawResourceFormat::RGBAU8));
    assert_eq!(parse_resource_format("rgbf16_planar"), Some(BrawResourceFormat::RGBF16Planar));
    assert_eq!(parse_resource_format(" bgraf32\n"), Some(BrawResourceFormat::BGRAF32));
    assert_eq!(parse_resource_format("rgb8"), None);
}

#[test]
fn decode_mode_names() {
    assert_eq!(parse_decode_mode("half"), Some(R3dDecodeMode::HalfResPremium));
    assert_eq!(parse_decode_mode("1/2"), Some(R3dDecodeMode::HalfResGood));
    assert_eq!(parse_decode_mode("Sixteenth"), Some(R3dDecodeMode::SixteenthResGood));
    assert_eq!(parse_decode_mode("1/16"), Some(R3dDecodeMode::SixteenthResGood));
    assert_eq!(parse_decode_mode("double"), None);
}

#[test]
fn pixel_type_names() {
    assert_eq!(parse_pixel_type("DPX10"), Some(R3dPixelType::Dpx10bitMethodB));
    assert_eq!(parse_pixel_type("rgbf16_aces"), Some(R3dPixelType::RgbHalfFloatAcesInt));
    assert_eq!(parse_pixel_type("rgba8"), None);
}

#[test]
fn divisors_dims_and_bytes() {
    assert_eq!(mode_divisor(&R3dDecodeMode::QuarterResGood), 4);
    assert_eq!(scaled_dims(4096, 2160, &R3dDecodeMode::EightResGood), (512, 270));
    assert_eq!(scaled_dims(1001, 3, &R3dDecodeMode::HalfResGood), (500, 1));
    assert_eq!(bytes_per_pixel(R3dPixelType::Bgr8bitInterleaved), 3);
    assert_eq!(bytes_per_pixel(R3dPixelType::Rgb16bitInterleaved), 6);
}

#[test]
fn pixel_format_tags() {
    assert_eq!(r3d_pixel_format(R3dPixelType::RgbHalfFloatAcesInt), PixelFormat::RgbF16);
    assert_eq!(r3d_pixel_format(R3dPixelType::Dpx10bitMethodB), PixelFormat::Unknown);
    assert_eq!(braw_pixel_format(BrawResourceFormat::BGRAU16), PixelFormat::BgraU16);
    assert_eq!(braw_pixel_format(BrawResourceFormat::RGBF32Planar), PixelFormat::Unknown);
}

#[test]
fn best_matching_codec() {
    type P = PixelFormat;
    assert_eq!(find_best_matching_codec(P::NV12, &[]), P::Unknown);
    assert_eq!(find_best_matching_codec(P::NV12, &[P::YUV420P, P::NV12]), P::NV12);
    assert_eq!(find_best_matching_codec(P::P010LE, &[P::NV12, P::YUV420P10LE]), P::YUV420P10LE);
    assert_eq!(find_best_matching_codec(P::YUV422P10LE, &[P::NV12, P::P210LE]), P::P210LE);
    assert_eq!(find_best_matching_codec(P::YUV420P, &[P::NV21, P::NV12]), P::NV12);
    assert_eq!(find_best_matching_codec(P::RgbaU8, &[P::BgraU8, P::NV12]), P::BgraU8);
}

#[test]
fn rational_invert() {
    assert_eq!(Rational(30000, 1001).invert(), Rational(1001, 30000));
}

#[test]
fn token_functions_read_prepared_text() {
    assert_eq!(resolution_scale_from_token("half"), Some(ResolutionScale::Half));
    assert_eq!(resolution_scale_from_token("HALF"), None);
    assert_eq!(resource_format_from_token("bgra16"), Some(BrawResourceFormat::BGRAU16));
    assert_eq!(decode_mode_from_token("half_good"), Some(R3dDecodeMode::HalfResGood));
    assert_eq!(pixel_type_from_token(" bgr8"), None);
}
