use vstd::prelude::*;

mod text;
pub mod types;
pub mod formats;
pub mod buffer_pool;
pub mod hw_device;
pub mod cursor;
pub mod options;
pub mod pump;
pub mod decoder;
pub mod frame;
pub mod container;
pub mod pixel_map;
pub mod sdk;
pub mod clip_frame;

pub use types::{
    AudioCodec, ColorRange, ColorSpace, Encoder, EncoderCodec, PixelFormat, Rational, Stream,
    StreamType, VideoCodec, VideoInfo, VideoProcessingError,
};
pub use formats::{
    braw_pixel_format, bytes_per_pixel, find_best_matching_codec, mode_divisor, parse_decode_mode, parse_pixel_type,
    choose_hwframes_format, decode_mode_from_token, pixel_type_from_token,
    resolution_scale_from_token, resource_format_from_token, parse_resolution_scale, parse_resource_format, r3d_buffer_request,
    braw_cpu_access, braw_gpu_texture_kind, r3d_pixel_format, scaled_dims, BrawCpuAccess,
    BrawResourceType, BrawTypeAndFormat, R3dTypeAndFormat, TextureKind,
    BrawResourceFormat, R3dDecodeMode, R3dPixelType, ResolutionScale,
};
pub use buffer_pool::{BufKey, BufferFactory, BufferPool, FrameBuffer, PooledFrame};
pub use hw_device::{device_key, HWDeviceCache, HwConfig, DEVICE_TYPE_NONE, MAX_HW_CONFIGS};
pub use cursor::FrameCursor;
pub use options::{select_custom_option, CustomOptions, DecoderOptions};
pub use pump::{FrameKind, PacketPump, PumpAction, PumpEvent};
pub use decoder::{
    BackendKind, ClipDecoder, ContainerDecoder, Decoder, DecoderBackend, InputDesc, InputKind,
    NextFrame, NullDecoder,
};
pub use frame::{AudioFrameInterface, NullAudioFrame, NullVideoFrame};
pub use container::{container_video_info, creation_time_secs, normalize_rotation, ContainerStreamInfo};
pub use pixel_map::{engine_pixel_format, videotoolbox_pixel_format, EnginePixel};
pub use sdk::{pick_device, pick_r3d_device, sdk_init_step, sdk_initial_flags, GpuChoice, SdkFlags, SdkInitError, SdkInitStep, SDK_INIT_ATTEMPTS};
pub use clip_frame::{request_r3d_frame, R3dFrameRequest};

verus! {

} // verus!
