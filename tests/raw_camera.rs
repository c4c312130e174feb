use gpu_video::{
    normalize_rotation, pick_device, pick_r3d_device, request_r3d_frame, sdk_init_step,
    sdk_initial_flags, BufferFactory, BufferPool, CustomOptions, Decoder, DecoderOptions,
    FrameBuffer, FrameCursor, GpuChoice, InputDesc, R3dDecodeMode, R3dPixelType,
    R3dTypeAndFormat, Rational, SdkFlags, SdkInitError, SdkInitStep, VideoProcessingError,
};

struct Aligned {
    created: usize,
    fail: bool,
}

impl BufferFactory<Vec<u8>, R3dTypeAndFormat> for Aligned {
    fn create(
        &mut self,
        width: u32,
        height: u32,
        stride: usize,
        format: &R3dTypeAndFormat,
    ) -> Result<FrameBuffer<Vec<u8>, R3dTypeAndFormat>, VideoProcessingError> {
        if self.fail {
            return Err(VideoProcessingError::EngineError(-1));
        }
        self.created += 1;
        Ok(FrameBuffer { width, height, stride, format: *format, inner: vec![0; format.size_bytes.unwrap_or(0)] })
    }

    fn free(&mut self, _buffer: FrameBuffer<Vec<u8>, R3dTypeAndFormat>) -> Result<(), VideoProcessingError> {
        Ok(())
    }
}

#[test]
fn sdk_drops_missing_backends_in_turn() {
    let f = sdk_initial_flags(true);
    assert_eq!(f, SdkFlags { cuda: true, opencl: true, metal: true });
    let f1 = match sdk_init_step(f, 0, SdkInitError::CudaLibraryNotFound) {
        SdkInitStep::Retry(f1) => f1,
        other => panic!("unexpected {other:?}"),
    };
    assert_eq!(f1, SdkFlags { cuda: false, opencl: true, metal: true });
    let f2 = match sdk_init_step(f1, 1, SdkInitError::OpenCLLibraryNotFound) {
        SdkInitStep::Retry(f2) => f2,
        other => panic!("unexpected {other:?}"),
    };
    assert_eq!(f2, SdkFlags { cuda: false, opencl: false, metal: true });
    assert_eq!(
        sdk_init_step(f2, 2, SdkInitError::MetalLibraryNotFound),
        SdkInitStep::Fail(SdkInitError::UnableToLoadLibrary)
    );
}

#[test]
fn sdk_other_errors_end_loading() {
    let f = sdk_initial_flags(false);
    assert_eq!(
        sdk_init_step(f, 0, SdkInitError::MetalLibraryNotFound),
        SdkInitStep::Fail(SdkInitError::MetalLibraryNotFound)
    );
    assert_eq!(sdk_init_step(f, 0, SdkInitError::Other(7)), SdkInitStep::Fail(SdkInitError::Other(7)));
}

#[test]
fn device_choice_by_index() {
    assert_eq!(pick_device(3, Some(1)), Some(1));
    assert_eq!(pick_device(3, Some(3)), None);
    assert_eq!(pick_device(3, None), Some(0));
    assert_eq!(pick_device(0, None), None);
    assert_eq!(pick_r3d_device(2, 4, Some(3)), GpuChoice::OpenCL(3));
    assert_eq!(pick_r3d_device(2, 4, Some(1)), GpuChoice::Cuda(1));
    assert_eq!(pick_r3d_device(0, 0, None), GpuChoice::CpuOnly);
}

#[test]
fn rotation_into_half_open_range() {
    assert_eq!(normalize_rotation(90), 90);
    assert_eq!(normalize_rotation(270), -90);
    assert_eq!(normalize_rotation(180), -180);
    assert_eq!(normalize_rotation(-180), -180);
    assert_eq!(normalize_rotation(-181), 179);
    assert_eq!(normalize_rotation(720), 0);
    assert_eq!(normalize_rotation(i32::MIN), -128);
}

#[test]
fn creation_before_epoch_is_unknown() {
    assert_eq!(gpu_video::creation_time_secs("1969-12-31T23:59:59Z"), None);
    assert_eq!(gpu_video::creation_time_secs("1970-01-01T00:00:01Z"), Some(1));
}

#[test]
fn r3d_frame_request_uses_one_buffer_per_frame() {
    let mut cursor = FrameCursor::new(Rational(24, 1), 2);
    let mut pool = BufferPool::new(8, Aligned { created: 0, fail: false });
    let q = request_r3d_frame(&mut cursor, &mut pool, 4096, 2160, R3dDecodeMode::QuarterResGood, R3dPixelType::Bgra8bitInterleaved, 64)
        .unwrap()
        .unwrap();
    assert_eq!((q.index, q.timestamp_us, q.width, q.height), (0, 0, 1024, 540));
    assert_eq!(q.buffer.buffer().stride, 4096);
    assert_eq!(q.buffer.buffer().inner.len(), 64);
    q.buffer.release(&mut pool);
    let q = request_r3d_frame(&mut cursor, &mut pool, 4096, 2160, R3dDecodeMode::QuarterResGood, R3dPixelType::Bgra8bitInterleaved, 64)
        .unwrap()
        .unwrap();
    assert_eq!((q.index, q.timestamp_us), (1, 41666));
    assert_eq!(pool.factory().created, 1);
    let done = request_r3d_frame(&mut cursor, &mut pool, 4096, 2160, R3dDecodeMode::QuarterResGood, R3dPixelType::Bgra8bitInterleaved, 64);
    assert!(matches!(done, Ok(None)));
}

#[test]
fn r3d_pool_failure_keeps_cursor() {
    let mut cursor = FrameCursor::new(Rational(24, 1), 2);
    let mut pool = BufferPool::new(8, Aligned { created: 0, fail: true });
    let r = request_r3d_frame(&mut cursor, &mut pool, 64, 64, R3dDecodeMode::FullResPremium, R3dPixelType::Bgr8bitInterleaved, 16);
    assert!(matches!(r, Err(VideoProcessingError::EngineError(-1))));
    assert_eq!(cursor.current_frame(), 0);
}

#[test]
fn released_buffer_gets_its_key_tags_back() {
    let mut pool = BufferPool::new(2, Aligned { created: 0, fail: false });
    let key = R3dTypeAndFormat { mode: R3dDecodeMode::FullResPremium, pixel_type: R3dPixelType::Bgr8bitInterleaved, size_bytes: Some(8) };
    let mut h = pool.get(4, 4, 12, key).unwrap();
    h.buffer_mut().width = 99;
    h.release(&mut pool);
    let h = pool.get(4, 4, 12, key).unwrap();
    assert_eq!(h.buffer().width, 4);
    assert_eq!(pool.factory().created, 1);
}

#[test]
fn decoder_keeps_metadata() {
    let mut d = Decoder::new(&InputDesc::FileOrUrl("a.mp4".to_string()), &DecoderOptions::new()).unwrap();
    assert_eq!(d.metadata().len(), 0);
    let mut m = CustomOptions::new();
    m.insert("encoder".to_string(), "Lavf".to_string());
    d.set_metadata(m);
    assert_eq!(d.metadata().get("encoder"), Some("Lavf"));
    assert_eq!(d.metadata().entry_at(0), Some(("encoder", "Lavf")));
    assert_eq!(d.metadata().entry_at(1), None);
}
