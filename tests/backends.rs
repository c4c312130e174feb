use gpu_video::{
    choose_hwframes_format, container_video_info, creation_time_secs, engine_pixel_format,
    r3d_buffer_request, videotoolbox_pixel_format, ContainerStreamInfo, EnginePixel,
    HWDeviceCache, HwConfig, PixelFormat, R3dDecodeMode, R3dPixelType, R3dTypeAndFormat,
    Rational, DEVICE_TYPE_NONE,
};
use gpu_video::{
    braw_cpu_access, braw_gpu_texture_kind, BrawCpuAccess, BrawResourceFormat, BrawResourceType,
    BrawTypeAndFormat, TextureKind,
};
use std::cell::Cell;

fn stream_info() -> ContainerStreamInfo {
    ContainerStreamInfo {
        duration: 900000,
        time_base: Rational(1, 90000),
        rate: Rational(30000, 1001),
        frames: 0,
        width: 1920,
        height: 1080,
        codec_bitrate: 0,
        container_bitrate: 8_000_000,
    }
}

#[test]
fn container_info_from_duration() {
    let info = container_video_info(&stream_info(), Some(7), -90);
    assert_eq!(info.duration_ms, 10_000);
    assert_eq!(info.frame_count, 299);
    assert_eq!(info.bitrate, 8_000_000);
    assert_eq!(info.fps, Rational(30000, 1001));
    assert_eq!(info.created_at, Some(7));
    assert_eq!(info.rotation, -90);
}

#[test]
fn container_info_prefers_stated_values() {
    let mut s = stream_info();
    s.frames = 300;
    s.codec_bitrate = 5_000_000;
    let info = container_video_info(&s, None, 0);
    assert_eq!(info.frame_count, 300);
    assert_eq!(info.bitrate, 5_000_000);
}

#[test]
fn container_info_with_bad_time_base() {
    let mut s = stream_info();
    s.time_base = Rational(1, 0);
    s.container_bitrate = -1;
    let info = container_video_info(&s, None, 0);
    assert_eq!(info.duration_ms, 0);
    assert_eq!(info.frame_count, 0);
    assert_eq!(info.bitrate, 0);
}

#[test]
fn creation_time_in_seconds() {
    assert_eq!(creation_time_secs("2023-05-01T12:00:00Z"), Some(1_682_942_400));
    assert_eq!(creation_time_secs("2023-05-01T12:00:00.999+02:00"), Some(1_682_935_200));
    assert_eq!(creation_time_secs("yesterday"), None);
}

#[test]
fn r3d_request_scales_and_keys() {
    let r = r3d_buffer_request(4096, 2160, R3dDecodeMode::HalfResGood, R3dPixelType::Bgra8bitInterleaved, 1 << 20)
        .unwrap();
    assert_eq!((r.0, r.1, r.2), (2048, 1080, 8192));
    assert_eq!(
        r.3,
        R3dTypeAndFormat {
            mode: R3dDecodeMode::HalfResGood,
            pixel_type: R3dPixelType::Bgra8bitInterleaved,
            size_bytes: Some(1 << 20),
        }
    );
    assert_ne!(r.3, R3dTypeAndFormat { size_bytes: None, ..r.3 });
}

#[test]
fn hwframes_format_choice() {
    assert_eq!(choose_hwframes_format(23, &[0, 23], &[]), Some(23));
    assert_eq!(choose_hwframes_format(23, &[0], &[]), None);
    assert_eq!(choose_hwframes_format(23, &[0], &[5, 23]), Some(23));
    assert_eq!(choose_hwframes_format(23, &[0], &[5, 6]), Some(5));
}

#[test]
fn engine_pixel_tags() {
    assert_eq!(engine_pixel_format(EnginePixel::YUVJ420P), PixelFormat::YUV420P);
    assert_eq!(engine_pixel_format(EnginePixel::RGBA64BE), PixelFormat::RgbaU16);
    assert_eq!(engine_pixel_format(EnginePixel::P416LE), PixelFormat::P416LE);
    assert_eq!(engine_pixel_format(EnginePixel::Other), PixelFormat::Unknown);
}

#[test]
fn videotoolbox_fourcc_tags() {
    assert_eq!(videotoolbox_pixel_format(u32::from_be_bytes(*b"420v")), PixelFormat::NV12);
    assert_eq!(videotoolbox_pixel_format(u32::from_be_bytes(*b"x422")), PixelFormat::P210LE);
    assert_eq!(videotoolbox_pixel_format(u32::from_be_bytes(*b"2vuy")), PixelFormat::UYVY422);
    assert_eq!(videotoolbox_pixel_format(0), PixelFormat::Unknown);
}

#[test]
fn decoding_device_first_usable_config() {
    let mut cache: HWDeviceCache<&'static str> = HWDeviceCache::new();
    let tried = Cell::new(0);
    let configs = [
        None,
        Some(HwConfig { device_type: DEVICE_TYPE_NONE, pix_fmt: 0 }),
        Some(HwConfig { device_type: 3, pix_fmt: 10 }),
        Some(HwConfig { device_type: 5, pix_fmt: 20 }),
    ];
    let pick = cache.init_device_for_decoding(0, &configs, None, |t| {
        tried.set(tried.get() + 1);
        if t == 5 { Some("five") } else { None }
    });
    assert_eq!(pick, Some((3, HwConfig { device_type: 5, pix_fmt: 20 })));
    assert_eq!(tried.get(), 2);
    let again = cache.init_device_for_decoding(3, &configs, None, |_| {
        tried.set(tried.get() + 1);
        None
    });
    assert_eq!(again, Some((3, HwConfig { device_type: 5, pix_fmt: 20 })));
    assert_eq!(tried.get(), 2);
}

#[test]
fn decoding_device_none_falls_back() {
    let mut cache: HWDeviceCache<u8> = HWDeviceCache::new();
    let configs = [Some(HwConfig { device_type: 3, pix_fmt: 10 })];
    assert_eq!(cache.init_device_for_decoding(0, &configs, Some("card"), |_| None), None);
    assert_eq!(cache.init_device_for_decoding(1, &configs, None, |_| Some(1)), None);
    assert_eq!(cache.len(), 0);
}

#[test]
fn braw_cpu_access_by_resource() {
    assert_eq!(
        braw_cpu_access(BrawResourceType::BufferCPU, 10, 20, BrawResourceFormat::RGBAU8, 800),
        BrawCpuAccess::Direct
    );
    assert_eq!(
        braw_cpu_access(BrawResourceType::Other, 10, 20, BrawResourceFormat::RGBAU8, 800),
        BrawCpuAccess::Unsupported
    );
    assert_eq!(
        braw_cpu_access(BrawResourceType::BufferCUDA, 10, 20, BrawResourceFormat::RGBAU8, 800),
        BrawCpuAccess::CopyInto {
            width: 10,
            height: 20,
            format: BrawTypeAndFormat {
                kind: BrawResourceType::BufferCPU,
                pixel_format: BrawResourceFormat::RGBAU8,
                size_bytes: Some(800),
            },
        }
    );
}

#[test]
fn braw_texture_kinds() {
    assert_eq!(braw_gpu_texture_kind(BrawResourceType::BufferMetal), Some(TextureKind::MetalTexture));
    assert_eq!(braw_gpu_texture_kind(BrawResourceType::BufferOpenCL), Some(TextureKind::OpenCL));
    assert_eq!(braw_gpu_texture_kind(BrawResourceType::BufferCPU), None);
}
