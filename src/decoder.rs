use vstd::prelude::*;
use crate::cursor::FrameCursor;
use crate::options::{CustomOptions, DecoderOptions};
use crate::pump::{PacketPump, PumpAction, PumpEvent};
use crate::text::{ascii_lower, ascii_lowercase, chars_of, ends_with};
use crate::types::{Rational, Stream, StreamType, VideoInfo, VideoProcessingError};

verus! {

/// The engines a source can be decoded with.
#[derive(Debug, Clone, Copy, PartialEq, Eq, Structural)]
pub enum BackendKind {
    /// The general container demuxer and decoder.
    Ffmpeg,
    /// Blackmagic RAW clips.
    Braw,
    /// RED clips.
    R3d,
}

/// The shape of an input, without its data.
#[derive(Debug, Clone, Copy, PartialEq, Eq, Structural)]
pub enum InputKind {
    FileOrUrl,
    Bytes,
    Callback,
    Stream,
    FileList,
}

/// What the front controller reads of an input: its kind and its names.
pub enum InputDesc {
    /// A path or URL.
    FileOrUrl(String),
    /// Bytes in memory.
    Bytes,
    /// A callback that opens files by name, with the name of the main file.
    Callback { filename: String },
    /// A read or write stream.
    Stream,
    /// Named inputs, names in ascending order; for a single entry, its kind.
    FileList { names: Vec<String>, sole: Option<InputKind> },
}

pub open spec fn input_name(input: &InputDesc) -> Option<Seq<char>> {
    match input {
        InputDesc::FileOrUrl(s) => Some(s@),
        InputDesc::Callback { filename } => Some(filename@),
        InputDesc::FileList { names, .. } => if names@.len() > 0 {
            Some(names@[0]@)
        } else {
            None
        },
        _ => None,
    }
}

/// The kind of input a backend receives: a one-entry list stands for its entry.
pub open spec fn effective_kind(input: &InputDesc) -> InputKind {
    match input {
        InputDesc::FileOrUrl(_) => InputKind::FileOrUrl,
        InputDesc::Bytes => InputKind::Bytes,
        InputDesc::Callback { .. } => InputKind::Callback,
        InputDesc::Stream => InputKind::Stream,
        InputDesc::FileList { names, sole } => if names@.len() == 1 && sole is Some {
            sole->0
        } else {
            InputKind::FileList
        },
    }
}

/// The name whose extension picks the backend: the `filename` option, else
/// the input's own name.
pub open spec fn filename_hint(input: &InputDesc, options: Map<Seq<char>, Seq<char>>) -> Option<
    Seq<char>,
> {
    if options.contains_key("filename"@) {
        Some(options["filename"@])
    } else {
        input_name(input)
    }
}

/// The path the backend opens: the input's own name, else the `filename` option.
pub open spec fn source_path(input: &InputDesc, options: Map<Seq<char>, Seq<char>>) -> Option<
    Seq<char>,
> {
    if input_name(input) is Some {
        input_name(input)
    } else if options.contains_key("filename"@) {
        Some(options["filename"@])
    } else {
        None
    }
}

pub open spec fn has_suffix(s: Seq<char>, suffix: Seq<char>) -> bool {
    suffix.len() <= s.len() && s.subrange(s.len() - suffix.len(), s.len() as int) == suffix
}

/// The backend for a name: the raw-camera extensions first, then the
/// general container decoder.
pub open spec fn backend_for(hint: Option<Seq<char>>) -> BackendKind {
    let lower = match hint {
        Some(h) => ascii_lower(h),
        None => Seq::empty(),
    };
    if has_suffix(lower, ".braw"@) {
        BackendKind::Braw
    } else if has_suffix(lower, ".r3d"@) || has_suffix(lower, ".nev"@) {
        BackendKind::R3d
    } else {
        BackendKind::Ffmpeg
    }
}

/// A backend with no source: no streams, never a frame.
pub struct NullDecoder;

/// A clip whose frames are addressed by index, with its one video stream.
pub struct ClipDecoder {
    cursor: FrameCursor,
    streams: Vec<Stream>,
    width: u32,
    height: u32,
}

/// A container source driven by a packet pump.
pub struct ContainerDecoder {
    pump: PacketPump,
    info: Option<VideoInfo>,
}

/// The state of the one backend a decoder has open.
pub enum DecoderBackend {
    Unknown(NullDecoder),
    FfmpegDecoder(ContainerDecoder),
    BrawDecoder(ClipDecoder),
    R3dDecoder(ClipDecoder),
}

/// What a request for the next frame asks of the engine.
#[derive(Debug, Clone, Copy, PartialEq, Eq, Structural)]
pub enum NextFrame {
    /// No more frames.
    Done,
    /// Decode frame `index` of the clip; its time is `timestamp_us`.
    DecodeAt { index: u64, timestamp_us: i64 },
    /// Carry out this step of the container pump.
    Pump(PumpAction),
}

/// The front controller: picks one backend for a source and hands every
/// request to it.
pub struct Decoder {
    inner: DecoderBackend,
    backend: BackendKind,
    path: Option<String>,
    metadata: CustomOptions,
}

/// The one video stream of a clip at `rate` frames per second.
pub open spec fn clip_stream(rate: Rational) -> Stream {
    Stream {
        stream_type: StreamType::Video,
        index: 0,
        time_base: Rational(rate.1, rate.0),
        avg_frame_rate: rate,
        rate,
        decode: true,
    }
}

impl Decoder {
    pub closed spec fn backend_kind_spec(&self) -> BackendKind {
        self.backend
    }

    pub closed spec fn path_spec(&self) -> Option<Seq<char>> {
        match self.path {
            Some(p) => Some(p@),
            None => None,
        }
    }

    /// Whether no backend state is attached yet.
    pub closed spec fn is_null(&self) -> bool {
        self.inner is Unknown
    }

    pub closed spec fn streams_spec(&self) -> Seq<Stream> {
        match self.inner {
            DecoderBackend::Unknown(_) => Seq::empty(),
            DecoderBackend::FfmpegDecoder(c) => c.pump.streams_view(),
            DecoderBackend::BrawDecoder(c) => c.streams@,
            DecoderBackend::R3dDecoder(c) => c.streams@,
        }
    }

    /// What `get_video_info` answers.
    pub closed spec fn info_spec(&self) -> Result<VideoInfo, VideoProcessingError> {
        match self.inner {
            DecoderBackend::Unknown(_) => Err(VideoProcessingError::DecoderNotFound),
            DecoderBackend::FfmpegDecoder(c) => match c.info {
                Some(i) => Ok(i),
                None => Err(VideoProcessingError::VideoStreamNotFound),
            },
            DecoderBackend::BrawDecoder(c) => Ok(c.info_spec()),
            DecoderBackend::R3dDecoder(c) => Ok(c.info_spec()),
        }
    }

    pub closed spec fn wf(&self) -> bool {
        &&& self.metadata.wf()
        &&& match self.inner {
            DecoderBackend::BrawDecoder(c) => c.cursor.wf(),
            DecoderBackend::R3dDecoder(c) => c.cursor.wf(),
            _ => true,
        }
    }

    /// The source's string-keyed metadata.
    pub closed spec fn metadata_spec(&self) -> Map<Seq<char>, Seq<char>> {
        self.metadata@
    }

    /// Chooses the backend for `input` by the extension of its name hint
    /// (the `filename` option, else the input's own name): `.braw` first,
    /// then `.r3d` and `.nev`, then the general container decoder. That
    /// decoder reads no callback and no list of several files: for those it
    /// fails with `DecoderNotFound`. The decoder starts with no backend
    /// state until the engine has opened the source.
    pub fn new(input: &InputDesc, options: &DecoderOptions) -> (r: Result<Self, VideoProcessingError>)
        requires
            options.custom_options.wf(),
        ensures
            ({
                let kind = backend_for(filename_hint(input, options.custom_options@));
                let fails = kind == BackendKind::Ffmpeg && (effective_kind(input)
                    == InputKind::Callback || effective_kind(input) == InputKind::FileList);
                &&& fails ==> r == Err::<Self, VideoProcessingError>(
                    VideoProcessingError::DecoderNotFound,
                )
                &&& !fails ==> r is Ok && r->Ok_0.backend_kind_spec() == kind && r->Ok_0.path_spec()
                    == source_path(input, options.custom_options@) && r->Ok_0.is_null()
                    && r->Ok_0.wf() && r->Ok_0.metadata_spec() == Map::<
                    Seq<char>,
                    Seq<char>,
                >::empty()
            }),
    {
        let own: Option<&str> = match input {
            InputDesc::FileOrUrl(s) => Some(s.as_str()),
            InputDesc::Callback { filename } => Some(filename.as_str()),
            InputDesc::FileList { names, .. } => if names.len() > 0 {
                Some(names[0].as_str())
            } else {
                None
            },
            _ => None,
        };
        let opt = options.custom_options.get("filename");
        let hint: Option<&str> = match opt {
            Some(f) => Some(f),
            None => own,
        };
        let lower: Vec<char> = match hint {
            Some(h) => {
                let l = ascii_lowercase(h);
                chars_of(l.as_str())
            },
            None => Vec::new(),
        };
        proof {
            assert(hint is None ==> lower@ =~= Seq::<char>::empty());
        }
        let kind = if ends_with(&lower, ".braw") {
            BackendKind::Braw
        } else if ends_with(&lower, ".r3d") || ends_with(&lower, ".nev") {
            BackendKind::R3d
        } else {
            BackendKind::Ffmpeg
        };
        let eff = match input {
            InputDesc::FileOrUrl(_) => InputKind::FileOrUrl,
            InputDesc::Bytes => InputKind::Bytes,
            InputDesc::Callback { .. } => InputKind::Callback,
            InputDesc::Stream => InputKind::Stream,
            InputDesc::FileList { names, sole } => match sole {
                Some(k) => if names.len() == 1 {
                    *k
                } else {
                    InputKind::FileList
                },
                None => InputKind::FileList,
            },
        };
        if kind == BackendKind::Ffmpeg && (eff == InputKind::Callback || eff
            == InputKind::FileList) {
            return Err(VideoProcessingError::DecoderNotFound);
        }
        let path: Option<String> = match own {
            Some(p) => Some(p.to_owned()),
            None => match opt {
                Some(f) => Some(f.to_owned()),
                None => None,
            },
        };
        Ok(
            Decoder {
                inner: DecoderBackend::Unknown(NullDecoder),
                backend: kind,
                path,
                metadata: CustomOptions::new(),
            },
        )
    }

    /// Records what the engine read of the source's metadata.
    pub fn set_metadata(&mut self, metadata: CustomOptions)
        requires
            old(self).wf(),
            metadata.wf(),
        ensures
            final(self).wf(),
            final(self).metadata_spec() == metadata@,
            final(self).streams_spec() == old(self).streams_spec(),
            final(self).info_spec() == old(self).info_spec(),
            final(self).is_null() == old(self).is_null(),
            final(self).clip_cursor() == old(self).clip_cursor(),
            final(self).container_pump() == old(self).container_pump(),
    {
        self.metadata = metadata;
    }

    /// The source's string-keyed metadata; empty until the engine records it.
    pub fn metadata(&self) -> (r: &CustomOptions)
        requires
            self.wf(),
        ensures
            r.wf(),
            r@ == self.metadata_spec(),
    {
        &self.metadata
    }

    /// The backend chosen for the source.
    pub fn backend_kind(&self) -> (r: BackendKind)
        ensures
            r == self.backend_kind_spec(),
    {
        self.backend
    }

    /// The path the backend opens.
    pub fn path(&self) -> (r: Option<&str>)
        ensures
            match r {
                Some(p) => self.path_spec() == Some(p@),
                None => self.path_spec() is None,
            },
    {
        match &self.path {
            Some(p) => Some(p.as_str()),
            None => None,
        }
    }

    /// The engine opened a container source with these streams; `info` is
    /// what it says of the main video stream, if it has one.
    pub fn attach_container(&mut self, streams: Vec<Stream>, info: Option<VideoInfo>)
        requires
            old(self).wf(),
        ensures
            final(self).wf(),
            final(self).streams_spec() == streams@,
            final(self).info_spec() == match info {
                Some(i) => Ok(i),
                None => Err(VideoProcessingError::VideoStreamNotFound),
            },
            final(self).backend_kind_spec() == old(self).backend_kind_spec(),
            final(self).path_spec() == old(self).path_spec(),
            !final(self).is_null(),
            final(self).clip_cursor() is None,
            final(self).container_pump() is Some,
            final(self).container_pump()->0.held() is None,
            !final(self).container_pump()->0.input_done(),
            forall|i: int| !#[trigger] final(self).container_pump()->0.is_open(i),
    {
        self.inner = DecoderBackend::FfmpegDecoder(
            ContainerDecoder { pump: PacketPump::new(streams), info },
        );
    }

    /// The engine opened a clip of `frame_count` frames of `width` by
    /// `height` at `rate` frames per second: it gets one video stream and
    /// starts at its first frame.
    pub fn attach_clip(&mut self, rate: Rational, frame_count: u64, width: u32, height: u32)
        requires
            old(self).wf(),
            rate.0 > 0,
            rate.1 > 0,
            frame_count * 1000000 * rate.1 <= i64::MAX * rate.0,
        ensures
            final(self).wf(),
            final(self).streams_spec() == seq![clip_stream(rate)],
            final(self).backend_kind_spec() == old(self).backend_kind_spec(),
            final(self).path_spec() == old(self).path_spec(),
            !final(self).is_null(),
            final(self).container_pump() is None,
            final(self).clip_cursor() is Some,
            final(self).clip_cursor()->0.rate() == rate,
            final(self).clip_cursor()->0.count() == frame_count,
            final(self).clip_cursor()->0.position() == 0,
            final(self).info_spec() == Ok::<VideoInfo, VideoProcessingError>(
                clip_info(rate, frame_count as nat, width, height),
            ),
    {
        let cursor = FrameCursor::new(rate, frame_count);
        let stream = Stream {
            stream_type: StreamType::Video,
            index: 0,
            time_base: rate.invert(),
            avg_frame_rate: rate,
            rate,
            decode: true,
        };
        let streams = vec![stream];
        let clip = ClipDecoder { cursor, streams, width, height };
        if self.backend == BackendKind::R3d {
            self.inner = DecoderBackend::R3dDecoder(clip);
        } else {
            self.inner = DecoderBackend::BrawDecoder(clip);
        }
    }

    /// The streams of the source; the caller may switch decoding of each on
    /// or off before pulling frames.
    pub fn streams(&mut self) -> (r: &mut [Stream])
        requires
            old(self).wf(),
        ensures
            r@ == old(self).streams_spec(),
            !old(self).is_null() ==> final(self).streams_spec() == final(r)@,
            old(self).is_null() ==> final(self).streams_spec().len() == 0,
            final(self).info_spec() == old(self).info_spec(),
            final(self).wf(),
            final(self).backend_kind_spec() == old(self).backend_kind_spec(),
            final(self).is_null() == old(self).is_null(),
    {
        match &mut self.inner {
            DecoderBackend::Unknown(n) => n.streams(),
            DecoderBackend::FfmpegDecoder(c) => c.pump.streams_mut(),
            DecoderBackend::BrawDecoder(c) => c.streams.as_mut_slice(),
            DecoderBackend::R3dDecoder(c) => c.streams.as_mut_slice(),
        }
    }
}

impl Decoder {
    /// For a clip: its cursor.
    pub closed spec fn clip_cursor(&self) -> Option<FrameCursor> {
        match self.inner {
            DecoderBackend::BrawDecoder(c) => Some(c.cursor),
            DecoderBackend::R3dDecoder(c) => Some(c.cursor),
            _ => None,
        }
    }

    /// For a container: its pump.
    pub closed spec fn container_pump(&self) -> Option<PacketPump> {
        match self.inner {
            DecoderBackend::FfmpegDecoder(c) => Some(c.pump),
            _ => None,
        }
    }

    /// What a well-formed decoder guarantees of its backend: no backend, a
    /// clip or a container, the one excluding the others; a clip's rate is
    /// positive and all its frame times fit in an `i64` of microseconds.
    pub proof fn lemma_wf(&self)
        requires
            self.wf(),
        ensures
            self.is_null() <==> (self.clip_cursor() is None && self.container_pump() is None),
            !(self.clip_cursor() is Some && self.container_pump() is Some),
            self.clip_cursor() is Some ==> self.clip_cursor()->0.wf(),
            self.clip_cursor() is Some ==> self.clip_cursor()->0.rate().0 > 0
                && self.clip_cursor()->0.rate().1 > 0 && self.clip_cursor()->0.count() * 1000000
                * self.clip_cursor()->0.rate().1 <= i64::MAX * self.clip_cursor()->0.rate().0,
    {
        if self.clip_cursor() is Some {
            self.clip_cursor()->0.lemma_wf();
        }
    }

    /// Moves to `timestamp_us`. A clip moves its cursor to the nearest frame
    /// (see `FrameCursor::seek`); a container, whose engine has already moved
    /// the source, drops what it held; with no backend nothing moves and the
    /// answer is `false`.
    pub fn seek(&mut self, timestamp_us: i64) -> (r: Result<bool, VideoProcessingError>)
        requires
            old(self).wf(),
        ensures
            final(self).wf(),
            final(self).streams_spec() == old(self).streams_spec(),
            final(self).info_spec() == old(self).info_spec(),
            final(self).is_null() == old(self).is_null(),
            old(self).is_null() ==> r == Ok::<bool, VideoProcessingError>(false),
            !old(self).is_null() ==> r == Ok::<bool, VideoProcessingError>(true),
            old(self).clip_cursor() is Some ==> {
                let c0 = old(self).clip_cursor()->0;
                let c1 = final(self).clip_cursor()->0;
                &&& final(self).clip_cursor() is Some
                &&& c1.rate() == c0.rate()
                &&& c1.count() == c0.count()
                &&& c1.position() == crate::cursor::seek_target(
                    timestamp_us as int,
                    c0.rate().0 as int,
                    c0.rate().1 as int,
                    c0.count() as int,
                )
            },
            old(self).container_pump() is Some ==> final(self).container_pump() is Some
                && final(self).container_pump()->0.held() is None
                && !final(self).container_pump()->0.input_done(),
    {
        match &mut self.inner {
            DecoderBackend::Unknown(n) => n.seek(timestamp_us),
            DecoderBackend::FfmpegDecoder(c) => {
                c.pump.reset();
                Ok(true)
            },
            DecoderBackend::BrawDecoder(c) => {
                c.cursor.seek(timestamp_us);
                Ok(true)
            },
            DecoderBackend::R3dDecoder(c) => {
                c.cursor.seek(timestamp_us);
                Ok(true)
            },
        }
    }

    /// The first step towards the next frame: none without a backend; for a
    /// clip, the frame under the cursor and its time, moving past it; for a
    /// container, the pump's first step.
    pub fn next_frame(&mut self) -> (r: NextFrame)
        requires
            old(self).wf(),
        ensures
            final(self).wf(),
            final(self).streams_spec() == old(self).streams_spec(),
            final(self).info_spec() == old(self).info_spec(),
            final(self).is_null() == old(self).is_null(),
            old(self).is_null() ==> r == NextFrame::Done,
            old(self).clip_cursor() is Some ==> {
                let c0 = old(self).clip_cursor()->0;
                let c1 = final(self).clip_cursor()->0;
                &&& final(self).clip_cursor() is Some
                &&& c1.rate() == c0.rate()
                &&& c1.count() == c0.count()
                &&& c0.position() < c0.count() ==> r == (NextFrame::DecodeAt {
                    index: c0.position() as u64,
                    timestamp_us: c0.time_of(c0.position() as int) as i64,
                }) && c1.position() == c0.position() + 1
                &&& c0.position() >= c0.count() ==> r == NextFrame::Done && c1.position()
                    == c0.position()
            },
            old(self).container_pump() is Some ==> r == NextFrame::Pump(
                old(self).container_pump()->0.begin_action(),
            ) && final(self).container_pump() is Some && PacketPump::begin_state(
                old(self).container_pump()->0,
                final(self).container_pump()->0,
            ),
            old(self).container_pump() is None ==> final(self).container_pump() is None,
            old(self).clip_cursor() is None ==> final(self).clip_cursor() is None,
    {
        match &mut self.inner {
            DecoderBackend::Unknown(n) => n.next_frame(),
            DecoderBackend::FfmpegDecoder(c) => NextFrame::Pump(c.pump.begin()),
            DecoderBackend::BrawDecoder(c) => match c.cursor.next_frame() {
                Some((index, timestamp_us)) => NextFrame::DecodeAt { index, timestamp_us },
                None => NextFrame::Done,
            },
            DecoderBackend::R3dDecoder(c) => match c.cursor.next_frame() {
                Some((index, timestamp_us)) => NextFrame::DecodeAt { index, timestamp_us },
                None => NextFrame::Done,
            },
        }
    }

    /// Hands the engine's answer to a container's pump; other backends have
    /// no pump and answer `Done`.
    pub fn pump_step(&mut self, event: PumpEvent) -> (r: NextFrame)
        requires
            old(self).wf(),
        ensures
            final(self).wf(),
            final(self).streams_spec() == old(self).streams_spec(),
            final(self).info_spec() == old(self).info_spec(),
            old(self).container_pump() is None ==> r == NextFrame::Done && *final(self)
                == *old(self),
            old(self).container_pump() is Some ==> r == NextFrame::Pump(
                old(self).container_pump()->0.step_action(event),
            ) && final(self).container_pump() is Some && PacketPump::step_state(
                old(self).container_pump()->0,
                final(self).container_pump()->0,
                event,
            ),
    {
        match &mut self.inner {
            DecoderBackend::FfmpegDecoder(c) => NextFrame::Pump(c.pump.step(event)),
            _ => NextFrame::Done,
        }
    }

    /// What the source says of its main video stream; without a backend the
    /// decoder is not found. Decode flags play no part in it.
    pub fn get_video_info(&self) -> (r: Result<VideoInfo, VideoProcessingError>)
        requires
            self.wf(),
        ensures
            r == self.info_spec(),
    {
        match &self.inner {
            DecoderBackend::Unknown(n) => n.get_video_info(),
            DecoderBackend::FfmpegDecoder(c) => match c.info {
                Some(i) => Ok(i),
                None => Err(VideoProcessingError::VideoStreamNotFound),
            },
            DecoderBackend::BrawDecoder(c) => Ok(c.cursor.video_info(c.width, c.height)),
            DecoderBackend::R3dDecoder(c) => Ok(c.cursor.video_info(c.width, c.height)),
        }
    }
}

impl NullDecoder {
    /// Nothing to move: the answer is `false`.
    pub fn seek(&mut self, timestamp_us: i64) -> (r: Result<bool, VideoProcessingError>)
        ensures
            r == Ok::<bool, VideoProcessingError>(false),
    {
        Ok(false)
    }

    /// Never a frame.
    pub fn next_frame(&mut self) -> (r: NextFrame)
        ensures
            r == NextFrame::Done,
    {
        NextFrame::Done
    }

    /// There is no source to describe.
    pub fn get_video_info(&self) -> (r: Result<VideoInfo, VideoProcessingError>)
        ensures
            r == Err::<VideoInfo, VideoProcessingError>(VideoProcessingError::DecoderNotFound),
    {
        Err(VideoProcessingError::DecoderNotFound)
    }

    /// No streams.
    pub fn streams(&mut self) -> (r: &mut [Stream])
        ensures
            r@.len() == 0,
    {
        &mut []
    }
}

/// What a clip of `count` frames of `width` by `height` at `rate` says of
/// itself: its length in whole milliseconds, its frame count and rate.
pub open spec fn clip_info(rate: Rational, count: nat, width: u32, height: u32) -> VideoInfo {
    VideoInfo {
        duration_ms: ((count * 1000 * rate.1) / (rate.0 as int)) as u64,
        frame_count: #[verifier::truncate] (count as usize),
        fps: rate,
        width,
        height,
        bitrate: 0,
        created_at: None,
        rotation: 0,
    }
}

impl ClipDecoder {
    pub closed spec fn info_spec(&self) -> VideoInfo {
        clip_info(self.cursor.rate(), self.cursor.count(), self.width, self.height)
    }
}

} // verus!
