use gpu_video::{
    select_custom_option, BackendKind, CustomOptions, Decoder, DecoderOptions, FrameCursor,
    FrameKind, InputDesc, InputKind, NextFrame, PumpAction, PumpEvent, Rational, Stream,
    StreamType, VideoProcessingError,
};

fn options_with(pairs: &[(&str, &str)]) -> DecoderOptions {
    let mut o = DecoderOptions::new();
    for (k, v) in pairs {
        o.custom_options.insert(k.to_string(), v.to_string());
    }
    o
}

fn video_stream(index: usize) -> Stream {
    Stream {
        stream_type: StreamType::Video,
        index,
        time_base: Rational(1, 90000),
        avg_frame_rate: Rational(30, 1),
        rate: Rational(30, 1),
        decode: true,
    }
}

#[test]
fn custom_option_first_key_wins() {
    let o = options_with(&[("decode_resolution", "half"), ("braw.decode_resolution", "quarter")]);
    let keys = ["braw.decode_resolution", "decode_resolution"];
    assert_eq!(select_custom_option(&o.custom_options, &keys), Some("quarter"));
    assert_eq!(select_custom_option(&o.custom_options, &["x", "decode_resolution"]), Some("half"));
    assert_eq!(select_custom_option(&o.custom_options, &["x", "y"]), None);
    assert_eq!(select_custom_option(&o.custom_options, &[]), None);
}

#[test]
fn custom_option_insert_replaces() {
    let mut c = CustomOptions::new();
    c.insert("a".to_string(), "1".to_string());
    c.insert("a".to_string(), "2".to_string());
    assert_eq!(c.len(), 1);
    assert_eq!(c.get("a"), Some("2"));
    assert_eq!(c.get("b"), None);
}

#[test]
fn backend_chosen_by_extension() {
    let o = DecoderOptions::new();
    let d = Decoder::new(&InputDesc::FileOrUrl("clip.BRAW".to_string()), &o).unwrap();
    assert_eq!(d.backend_kind(), BackendKind::Braw);
    assert_eq!(d.path(), Some("clip.BRAW"));
    let d = Decoder::new(&InputDesc::FileOrUrl("/x/A001.R3D".to_string()), &o).unwrap();
    assert_eq!(d.backend_kind(), BackendKind::R3d);
    let d = Decoder::new(&InputDesc::FileOrUrl("take.nev".to_string()), &o).unwrap();
    assert_eq!(d.backend_kind(), BackendKind::R3d);
    let d = Decoder::new(&InputDesc::FileOrUrl("movie.mp4".to_string()), &o).unwrap();
    assert_eq!(d.backend_kind(), BackendKind::Ffmpeg);
    let d = Decoder::new(&InputDesc::FileOrUrl("braw".to_string()), &o).unwrap();
    assert_eq!(d.backend_kind(), BackendKind::Ffmpeg);
}

#[test]
fn filename_option_overrides_hint() {
    let o = options_with(&[("filename", "input.braw")]);
    let d = Decoder::new(&InputDesc::Bytes, &o).unwrap();
    assert_eq!(d.backend_kind(), BackendKind::Braw);
    assert_eq!(d.path(), Some("input.braw"));
    let d = Decoder::new(&InputDesc::FileOrUrl("a.mov".to_string()), &o).unwrap();
    assert_eq!(d.backend_kind(), BackendKind::Braw);
    assert_eq!(d.path(), Some("a.mov"));
}

#[test]
fn stream_input_without_name_goes_to_container() {
    let d = Decoder::new(&InputDesc::Stream, &DecoderOptions::new()).unwrap();
    assert_eq!(d.backend_kind(), BackendKind::Ffmpeg);
    assert_eq!(d.path(), None);
}

#[test]
fn container_refuses_callback_and_lists() {
    let o = DecoderOptions::new();
    let cb = InputDesc::Callback { filename: "x.mp4".to_string() };
    assert!(matches!(Decoder::new(&cb, &o), Err(VideoProcessingError::DecoderNotFound)));
    let list = InputDesc::FileList { names: vec!["a.mp4".to_string(), "b.mp4".to_string()], sole: None };
    assert!(matches!(Decoder::new(&list, &o), Err(VideoProcessingError::DecoderNotFound)));
    let empty = InputDesc::FileList { names: vec![], sole: None };
    assert!(matches!(Decoder::new(&empty, &o), Err(VideoProcessingError::DecoderNotFound)));
    let cb = InputDesc::Callback { filename: "x.R3D".to_string() };
    assert_eq!(Decoder::new(&cb, &o).unwrap().backend_kind(), BackendKind::R3d);
}

#[test]
fn single_entry_list_stands_for_its_entry() {
    let o = DecoderOptions::new();
    let one = InputDesc::FileList { names: vec!["a.mp4".to_string()], sole: Some(InputKind::Bytes) };
    let d = Decoder::new(&one, &o).unwrap();
    assert_eq!(d.backend_kind(), BackendKind::Ffmpeg);
    assert_eq!(d.path(), Some("a.mp4"));
    let list = InputDesc::FileList { names: vec!["A.R3D".to_string(), "A_002.R3D".to_string()], sole: None };
    assert_eq!(Decoder::new(&list, &o).unwrap().backend_kind(), BackendKind::R3d);
}

#[test]
fn decoder_without_backend_is_empty() {
    let mut d = Decoder::new(&InputDesc::Stream, &DecoderOptions::new()).unwrap();
    assert_eq!(d.streams().len(), 0);
    assert_eq!(d.next_frame(), NextFrame::Done);
    assert_eq!(d.seek(1000), Ok(false));
    assert!(matches!(d.get_video_info(), Err(VideoProcessingError::DecoderNotFound)));
}

#[test]
fn zero_stream_container_is_done_at_once() {
    let mut d = Decoder::new(&InputDesc::FileOrUrl("empty.mkv".to_string()), &DecoderOptions::new()).unwrap();
    d.attach_container(Vec::new(), None);
    assert_eq!(d.streams().len(), 0);
    assert_eq!(d.next_frame(), NextFrame::Pump(PumpAction::Fetch));
    assert_eq!(d.pump_step(PumpEvent::InputEnded), NextFrame::Pump(PumpAction::FlushAll));
    assert_eq!(d.pump_step(PumpEvent::Flushed), NextFrame::Pump(PumpAction::Done));
    assert_eq!(d.next_frame(), NextFrame::Pump(PumpAction::Done));
    assert_eq!(d.next_frame(), NextFrame::Pump(PumpAction::Done));
}

#[test]
fn pump_runs_one_stream_to_the_end() {
    let mut d = Decoder::new(&InputDesc::FileOrUrl("a.mp4".to_string()), &DecoderOptions::new()).unwrap();
    d.attach_container(vec![video_stream(0)], None);
    assert_eq!(d.next_frame(), NextFrame::Pump(PumpAction::Fetch));
    assert_eq!(d.pump_step(PumpEvent::FetchFailed), NextFrame::Pump(PumpAction::Fetch));
    assert_eq!(d.pump_step(PumpEvent::Fetched(0)), NextFrame::Pump(PumpAction::Open(0)));
    assert_eq!(d.pump_step(PumpEvent::Opened(true)), NextFrame::Pump(PumpAction::Submit(0)));
    assert_eq!(d.pump_step(PumpEvent::Submitted), NextFrame::Pump(PumpAction::Receive(0)));
    assert_eq!(
        d.pump_step(PumpEvent::Received(0, FrameKind::Video)),
        NextFrame::Pump(PumpAction::Frame(0, FrameKind::Video))
    );
    assert_eq!(d.next_frame(), NextFrame::Pump(PumpAction::Receive(0)));
    assert_eq!(d.pump_step(PumpEvent::NeedMoreInput), NextFrame::Pump(PumpAction::Fetch));
    assert_eq!(d.pump_step(PumpEvent::Fetched(0)), NextFrame::Pump(PumpAction::Submit(0)));
    assert_eq!(d.pump_step(PumpEvent::Submitted), NextFrame::Pump(PumpAction::Receive(0)));
    assert_eq!(d.pump_step(PumpEvent::NeedMoreInput), NextFrame::Pump(PumpAction::Fetch));
    assert_eq!(d.pump_step(PumpEvent::InputEnded), NextFrame::Pump(PumpAction::FlushAll));
    assert_eq!(d.pump_step(PumpEvent::Flushed), NextFrame::Pump(PumpAction::Receive(0)));
    assert_eq!(
        d.pump_step(PumpEvent::Received(0, FrameKind::Video)),
        NextFrame::Pump(PumpAction::Frame(0, FrameKind::Video))
    );
    assert_eq!(d.next_frame(), NextFrame::Pump(PumpAction::Receive(0)));
    assert_eq!(d.pump_step(PumpEvent::NeedMoreInput), NextFrame::Pump(PumpAction::Done));
    assert_eq!(d.next_frame(), NextFrame::Pump(PumpAction::Done));
}

#[test]
fn pump_skips_disabled_and_unknown_streams() {
    let mut d = Decoder::new(&InputDesc::FileOrUrl("a.mp4".to_string()), &DecoderOptions::new()).unwrap();
    d.attach_container(vec![video_stream(0), video_stream(1)], None);
    d.streams()[1].decode = false;
    assert_eq!(d.next_frame(), NextFrame::Pump(PumpAction::Fetch));
    assert_eq!(d.pump_step(PumpEvent::Fetched(1)), NextFrame::Pump(PumpAction::Other));
    assert_eq!(d.next_frame(), NextFrame::Pump(PumpAction::Fetch));
    assert_eq!(d.pump_step(PumpEvent::Fetched(5)), NextFrame::Pump(PumpAction::Other));
    assert_eq!(d.next_frame(), NextFrame::Pump(PumpAction::Fetch));
    assert_eq!(d.pump_step(PumpEvent::Fetched(0)), NextFrame::Pump(PumpAction::Open(0)));
    assert_eq!(d.pump_step(PumpEvent::Opened(false)), NextFrame::Pump(PumpAction::Other));
}

#[test]
fn drain_visits_every_open_decoder() {
    let mut d = Decoder::new(&InputDesc::FileOrUrl("a.mp4".to_string()), &DecoderOptions::new()).unwrap();
    d.attach_container(vec![video_stream(0), video_stream(1)], None);
    for i in 0..2usize {
        assert_eq!(d.next_frame(), NextFrame::Pump(PumpAction::Fetch));
        assert_eq!(d.pump_step(PumpEvent::Fetched(i)), NextFrame::Pump(PumpAction::Open(i)));
        assert_eq!(d.pump_step(PumpEvent::Opened(true)), NextFrame::Pump(PumpAction::Submit(i)));
        assert_eq!(d.pump_step(PumpEvent::Submitted), NextFrame::Pump(PumpAction::Receive(i)));
        assert_eq!(d.pump_step(PumpEvent::NeedMoreInput), NextFrame::Pump(PumpAction::Fetch));
        if i == 1 {
            assert_eq!(d.pump_step(PumpEvent::InputEnded), NextFrame::Pump(PumpAction::FlushAll));
        }
    }
    assert_eq!(d.pump_step(PumpEvent::Flushed), NextFrame::Pump(PumpAction::Receive(0)));
    assert_eq!(d.pump_step(PumpEvent::NeedMoreInput), NextFrame::Pump(PumpAction::Receive(1)));
    assert_eq!(
        d.pump_step(PumpEvent::Received(1, FrameKind::Audio)),
        NextFrame::Pump(PumpAction::Frame(1, FrameKind::Audio))
    );
    assert_eq!(d.next_frame(), NextFrame::Pump(PumpAction::Receive(1)));
    assert_eq!(d.pump_step(PumpEvent::NeedMoreInput), NextFrame::Pump(PumpAction::Done));
}

#[test]
fn container_seek_drops_held_unit() {
    let mut d = Decoder::new(&InputDesc::FileOrUrl("a.mp4".to_string()), &DecoderOptions::new()).unwrap();
    d.attach_container(vec![video_stream(0)], None);
    d.next_frame();
    d.pump_step(PumpEvent::InputEnded);
    assert_eq!(d.seek(5_000_000), Ok(true));
    assert_eq!(d.next_frame(), NextFrame::Pump(PumpAction::Fetch));
}

#[test]
fn clip_frames_and_times() {
    let mut d = Decoder::new(&InputDesc::FileOrUrl("a.braw".to_string()), &DecoderOptions::new()).unwrap();
    d.attach_clip(Rational(30000, 1001), 3, 4096, 2160);
    assert_eq!(d.streams().len(), 1);
    assert_eq!(d.streams()[0].time_base, Rational(1001, 30000));
    assert_eq!(d.next_frame(), NextFrame::DecodeAt { index: 0, timestamp_us: 0 });
    assert_eq!(d.next_frame(), NextFrame::DecodeAt { index: 1, timestamp_us: 33366 });
    assert_eq!(d.next_frame(), NextFrame::DecodeAt { index: 2, timestamp_us: 66733 });
    assert_eq!(d.next_frame(), NextFrame::Done);
    assert_eq!(d.next_frame(), NextFrame::Done);
}

#[test]
fn clip_seek_lands_on_nearest_frame() {
    let mut d = Decoder::new(&InputDesc::FileOrUrl("a.r3d".to_string()), &DecoderOptions::new()).unwrap();
    d.attach_clip(Rational(25, 1), 100, 1920, 1080);
    assert_eq!(d.seek(1_000_000), Ok(true));
    assert_eq!(d.next_frame(), NextFrame::DecodeAt { index: 25, timestamp_us: 1_000_000 });
    d.seek(1_019_999);
    assert_eq!(d.next_frame(), NextFrame::DecodeAt { index: 25, timestamp_us: 1_000_000 });
    d.seek(1_020_000);
    assert_eq!(d.next_frame(), NextFrame::DecodeAt { index: 26, timestamp_us: 1_040_000 });
    d.seek(0);
    assert_eq!(d.next_frame(), NextFrame::DecodeAt { index: 0, timestamp_us: 0 });
    d.seek(-5_000_000);
    assert_eq!(d.next_frame(), NextFrame::DecodeAt { index: 0, timestamp_us: 0 });
    d.seek(1_000_000_000);
    assert_eq!(d.next_frame(), NextFrame::DecodeAt { index: 99, timestamp_us: 3_960_000 });
    assert_eq!(d.next_frame(), NextFrame::Done);
}

#[test]
fn seek_in_empty_clip_stays_at_start() {
    let mut c = FrameCursor::new(Rational(24, 1), 0);
    c.seek(2_000_000);
    assert_eq!(c.current_frame(), 0);
    assert_eq!(c.next_frame(), None);
}

#[test]
fn video_info_ignores_decode_flags() {
    let mut d = Decoder::new(&InputDesc::FileOrUrl("a.braw".to_string()), &DecoderOptions::new()).unwrap();
    d.attach_clip(Rational(24, 1), 240, 3840, 2160);
    let before = d.get_video_info().unwrap();
    for s in d.streams().iter_mut() {
        s.decode = false;
    }
    let after = d.get_video_info().unwrap();
    assert_eq!(before, after);
    assert_eq!(after.duration_ms, 10_000);
    assert_eq!(after.frame_count, 240);
    assert_eq!((after.width, after.height), (3840, 2160));
    assert_eq!(after.fps, Rational(24, 1));
}

#[test]
fn container_info_without_video_stream() {
    let mut d = Decoder::new(&InputDesc::FileOrUrl("a.wav".to_string()), &DecoderOptions::new()).unwrap();
    d.attach_container(vec![], None);
    assert!(matches!(d.get_video_info(), Err(VideoProcessingError::VideoStreamNotFound)));
}

#[test]
fn container_info_with_decoding_off() {
    let mut d = Decoder::new(&InputDesc::FileOrUrl("a.mp4".to_string()), &DecoderOptions::new()).unwrap();
    let info = gpu_video::VideoInfo {
        duration_ms: 5000,
        frame_count: 150,
        fps: Rational(30, 1),
        width: 1280,
        height: 720,
        bitrate: 1_000_000,
        created_at: None,
        rotation: 0,
    };
    d.attach_container(vec![video_stream(0), video_stream(1)], Some(info));
    for s in d.streams().iter_mut() {
        s.decode = false;
    }
    assert_eq!(d.get_video_info(), Ok(info));
    assert_eq!(d.next_frame(), NextFrame::Pump(PumpAction::Fetch));
    assert_eq!(d.pump_step(PumpEvent::Fetched(0)), NextFrame::Pump(PumpAction::Other));
}
