use vstd::prelude::*;
use crate::types::Stream;

verus! {

/// What the engine handed back from a decoder.
#[derive(Debug, Clone, Copy, PartialEq, Eq, Structural)]
pub enum FrameKind {
    Video,
    Audio,
    Other,
}

/// The next piece of work for the engine that drives a container source, or
/// the answer to the caller's request for a frame.
#[derive(Debug, Clone, Copy, PartialEq, Eq, Structural)]
pub enum PumpAction {
    /// Read the next encoded unit; answer with `fetched`, `input_ended` or
    /// `fetch_failed`.
    Fetch,
    /// Tell every open decoder that input has ended; answer with `flushed`.
    FlushAll,
    /// Open the decoder of this stream; answer with `opened`.
    Open(usize),
    /// Send the held unit to this stream's decoder; answer with `submitted`.
    Submit(usize),
    /// Ask this stream's decoder for output; answer with `received` or
    /// `need_more_input`.
    Receive(usize),
    /// Hand the caller the frame just received from this stream.
    Frame(usize, FrameKind),
    /// Hand the caller a frame of no media type it decodes.
    Other,
    /// There are no more frames.
    Done,
}

/// The first index from `from` up to `n` whose flag is set.
spec fn first_open(opened: Seq<bool>, n: int, from: int) -> Option<int>
    decreases n - from,
{
    if from >= n {
        None
    } else if 0 <= from < opened.len() && opened[from] {
        Some(from)
    } else {
        first_open(opened, n, from + 1)
    }
}

proof fn lemma_first_open_none(opened: Seq<bool>, n: int, from: int)
    requires
        forall|i: int| 0 <= i < opened.len() ==> !opened[i],
    ensures
        first_open(opened, n, from) is None,
    decreases n - from,
{
    if from < n {
        lemma_first_open_none(opened, n, from + 1);
    }
}

/// A pump with no open decoder has nothing left to drain: once input has
/// ended and been flushed, every request for a frame answers that there are
/// no more frames.
pub proof fn lemma_nothing_to_drain(p: PacketPump, from: int)
    requires
        forall|i: int| !p.is_open(i),
    ensures
        p.next_open(from) is None,
{
    assert forall|i: int| 0 <= i < p.opened@.len() implies !p.opened@[i] by {
        assert(!p.is_open(i));
    }
    lemma_first_open_none(p.opened@, p.streams@.len() as int, from);
}

/// A source with no streams ends at once: the first request reads, the
/// engine reports the end, nothing is flushed, and the pump is left with
/// nothing held and input ended.
pub proof fn lemma_no_streams_end_at_once(
    p0: PacketPump,
    p1: PacketPump,
    p2: PacketPump,
    p3: PacketPump,
)
    requires
        p0.streams_view().len() == 0,
        p0.held() is None,
        !p0.input_done(),
        PacketPump::begin_state(p0, p1),
        PacketPump::step_state(p1, p2, PumpEvent::InputEnded),
        PacketPump::step_state(p2, p3, PumpEvent::Flushed),
    ensures
        p0.begin_action() == PumpAction::Fetch,
        p1.step_action(PumpEvent::InputEnded) == PumpAction::FlushAll,
        p2.step_action(PumpEvent::Flushed) == PumpAction::Done,
        p3.streams_view().len() == 0,
        p3.held() is None,
        p3.input_done(),
{
    lemma_first_open_none_past_end(p2.opened@, p2.streams@.len() as int, p2.drain_from() as int);
}

/// Once a source with no streams has ended, every request answers that there
/// are no more frames, and leaves the pump so.
pub proof fn lemma_ended_stays_done(q0: PacketPump, q1: PacketPump)
    requires
        q0.streams_view().len() == 0,
        q0.held() is None,
        q0.input_done(),
        PacketPump::begin_state(q0, q1),
    ensures
        q0.begin_action() == PumpAction::Done,
        q1.streams_view().len() == 0,
        q1.held() is None,
        q1.input_done(),
{
    lemma_first_open_none_past_end(q0.opened@, q0.streams@.len() as int, q0.drain_from() as int);
}

proof fn lemma_first_open_none_past_end(opened: Seq<bool>, n: int, from: int)
    requires
        n <= 0,
    ensures
        first_open(opened, n, from) is None,
    decreases n - from,
{
    if from < n {
        lemma_first_open_none_past_end(opened, n, from + 1);
    }
}

/// The engine's answer to a `PumpAction`.
#[derive(Debug, Clone, Copy, PartialEq, Eq, Structural)]
pub enum PumpEvent {
    /// A unit of this stream was read.
    Fetched(usize),
    /// A unit could not be read, but more may follow.
    FetchFailed,
    /// The source has no more units.
    InputEnded,
    /// Every open decoder was told that input ended.
    Flushed,
    /// The decoder was opened (`true`), or the stream's media has none.
    Opened(bool),
    /// The held unit went to its decoder.
    Submitted,
    /// The decoder of this stream gave a frame of this kind.
    Received(usize, FrameKind),
    /// The decoder needs more input before it gives output.
    NeedMoreInput,
}

/// The packet/frame pump of a container source: which unit is held, which
/// decoders are open, and whether input has ended.
pub struct PacketPump {
    streams: Vec<Stream>,
    opened: Vec<bool>,
    packet: Option<usize>,
    submitted: bool,
    ended: bool,
    drain_next: usize,
}

impl PacketPump {
    pub closed spec fn streams_view(&self) -> Seq<Stream> {
        self.streams@
    }

    /// Whether stream `i` has an open decoder.
    pub closed spec fn is_open(&self, i: int) -> bool {
        0 <= i < self.opened@.len() && self.opened@[i]
    }

    /// The stream of the held unit, if a unit is held.
    pub closed spec fn held(&self) -> Option<usize> {
        self.packet
    }

    /// Whether the held unit has gone to its decoder.
    pub closed spec fn was_submitted(&self) -> bool {
        self.submitted
    }

    /// Whether the source has no more units.
    pub closed spec fn input_done(&self) -> bool {
        self.ended
    }

    /// After the end of input: the first stream whose decoder may still
    /// hold frames.
    pub closed spec fn drain_from(&self) -> nat {
        self.drain_next as nat
    }

    /// The first stream at or after `from` with an open decoder.
    pub closed spec fn next_open(&self, from: int) -> Option<int> {
        first_open(self.opened@, self.streams@.len() as int, from)
    }

    /// The action for a held unit of stream `i`.
    pub open spec fn route_action(&self, i: usize) -> PumpAction {
        if i >= self.streams_view().len() {
            PumpAction::Other
        } else if self.streams_view()[i as int].decode && !self.is_open(i as int) {
            PumpAction::Open(i)
        } else if self.is_open(i as int) {
            if self.was_submitted() {
                PumpAction::Receive(i)
            } else {
                PumpAction::Submit(i)
            }
        } else {
            PumpAction::Other
        }
    }

    /// After the end of input: drain the first open decoder from `from` on,
    /// or report that there are no more frames.
    pub open spec fn drain_action(&self, from: int) -> PumpAction {
        match self.next_open(from) {
            Some(j) => PumpAction::Receive(j as usize),
            None => PumpAction::Done,
        }
    }

    /// The first step of a request for a frame.
    pub open spec fn begin_action(&self) -> PumpAction {
        match self.held() {
            Some(i) => self.route_action(i),
            None => if self.input_done() {
                self.drain_action(self.drain_from() as int)
            } else {
                PumpAction::Fetch
            },
        }
    }

    /// The step that follows the engine's answer `event`.
    pub open spec fn step_action(&self, event: PumpEvent) -> PumpAction {
        match event {
            PumpEvent::Fetched(i) => self.fresh_unit_action(i),
            PumpEvent::FetchFailed => PumpAction::Fetch,
            PumpEvent::InputEnded => PumpAction::FlushAll,
            PumpEvent::Flushed => self.drain_action(self.drain_from() as int),
            PumpEvent::Opened(has_decoder) => match self.held() {
                Some(i) => if !has_decoder {
                    PumpAction::Other
                } else if self.was_submitted() {
                    PumpAction::Receive(i)
                } else {
                    PumpAction::Submit(i)
                },
                None => PumpAction::Other,
            },
            PumpEvent::Submitted => match self.held() {
                Some(i) => PumpAction::Receive(i),
                None => PumpAction::Other,
            },
            PumpEvent::Received(i, kind) => if kind == FrameKind::Other {
                PumpAction::Other
            } else {
                PumpAction::Frame(i, kind)
            },
            PumpEvent::NeedMoreInput => if self.input_done() {
                self.drain_action(self.drain_from() + 1int)
            } else {
                PumpAction::Fetch
            },
        }
    }

    /// The stream after which draining goes on from `from`: the next open
    /// one, or the end of the table.
    pub open spec fn drain_stop(&self, from: int) -> nat {
        match self.next_open(from) {
            Some(j) => j as nat,
            None => self.streams_view().len(),
        }
    }

    /// The pump state after the first step of a request.
    pub open spec fn begin_state(pre: PacketPump, post: PacketPump) -> bool {
        &&& post.streams_view() == pre.streams_view()
        &&& forall|j: int| #[trigger] post.is_open(j) == pre.is_open(j)
        &&& post.input_done() == pre.input_done()
        &&& post.was_submitted() == pre.was_submitted()
        &&& match pre.held() {
            Some(i) => {
                &&& post.drain_from() == pre.drain_from()
                &&& if pre.route_action(i) == PumpAction::Other {
                    post.held() is None
                } else {
                    post.held() == pre.held()
                }
            },
            None => {
                &&& post.held() is None
                &&& if pre.input_done() {
                    post.drain_from() == pre.drain_stop(pre.drain_from() as int)
                } else {
                    post.drain_from() == pre.drain_from()
                }
            },
        }
    }

    /// The pump state after the engine's answer `event`.
    pub open spec fn step_state(pre: PacketPump, post: PacketPump, event: PumpEvent) -> bool {
        &&& post.streams_view() == pre.streams_view()
        &&& post.input_done() == (pre.input_done() || event == PumpEvent::InputEnded)
        &&& match event {
            PumpEvent::Opened(has_decoder) => match pre.held() {
                Some(i) => {
                    &&& post.is_open(i as int) == has_decoder
                    &&& forall|j: int| j != i ==> #[trigger] post.is_open(j) == pre.is_open(j)
                },
                None => forall|j: int| #[trigger] post.is_open(j) == pre.is_open(j),
            },
            _ => forall|j: int| #[trigger] post.is_open(j) == pre.is_open(j),
        }
        &&& match event {
            PumpEvent::Fetched(i) => {
                &&& post.drain_from() == pre.drain_from()
                &&& if pre.fresh_unit_action(i) == PumpAction::Other {
                    post.held() is None
                } else {
                    post.held() == Some(i) && !post.was_submitted()
                }
            },
            PumpEvent::FetchFailed => post.held() == pre.held() && post.was_submitted()
                == pre.was_submitted() && post.drain_from() == pre.drain_from(),
            PumpEvent::InputEnded => post.held() is None && post.drain_from() == 0,
            PumpEvent::Flushed => post.held() == pre.held() && post.was_submitted()
                == pre.was_submitted() && post.drain_from() == pre.drain_stop(
                pre.drain_from() as int,
            ),
            PumpEvent::Opened(has_decoder) => {
                &&& post.drain_from() == pre.drain_from()
                &&& post.was_submitted() == pre.was_submitted()
                &&& if pre.held() is Some && !has_decoder {
                    post.held() is None
                } else {
                    post.held() == pre.held()
                }
            },
            PumpEvent::Submitted => {
                &&& post.held() == pre.held()
                &&& post.drain_from() == pre.drain_from()
                &&& pre.held() is Some ==> post.was_submitted()
            },
            PumpEvent::Received(_, kind) => {
                &&& post.drain_from() == pre.drain_from()
                &&& post.was_submitted() == pre.was_submitted()
                &&& if kind == FrameKind::Other {
                    post.held() is None
                } else {
                    post.held() == pre.held()
                }
            },
            PumpEvent::NeedMoreInput => {
                &&& post.held() is None
                &&& if pre.input_done() {
                    post.drain_from() == pre.drain_stop(pre.drain_from() + 1int)
                } else {
                    post.drain_from() == pre.drain_from()
                }
            },
        }
    }

    /// The action for a newly read unit of stream `i`.
    pub open spec fn fresh_unit_action(&self, i: usize) -> PumpAction {
        if i >= self.streams_view().len() {
            PumpAction::Other
        } else if self.streams_view()[i as int].decode && !self.is_open(i as int) {
            PumpAction::Open(i)
        } else if self.is_open(i as int) {
            PumpAction::Submit(i)
        } else {
            PumpAction::Other
        }
    }

    /// A pump over these streams: no decoder open, nothing held, input not ended.
    pub fn new(streams: Vec<Stream>) -> (r: Self)
        ensures
            r.streams_view() == streams@,
            forall|i: int| !r.is_open(i),
            r.held() is None,
            !r.input_done(),
    {
        let n = streams.len();
        let mut opened: Vec<bool> = Vec::new();
        let mut i: usize = 0;
        while i < n
            invariant
                0 <= i <= n,
                opened@.len() == i,
                forall|j: int| 0 <= j < i ==> !opened@[j],
            decreases n - i,
        {
            opened.push(false);
            i = i + 1;
        }
        PacketPump { streams, opened, packet: None, submitted: false, ended: false, drain_next: 0 }
    }

    /// The streams, whose decode flags the caller may change.
    pub fn streams_mut(&mut self) -> (r: &mut [Stream])
        ensures
            r@ == old(self).streams_view(),
            final(self).streams_view() == final(r)@,
            forall|i: int| #[trigger] final(self).is_open(i) == old(self).is_open(i),
            final(self).held() == old(self).held(),
            final(self).was_submitted() == old(self).was_submitted(),
            final(self).input_done() == old(self).input_done(),
            final(self).drain_from() == old(self).drain_from(),
    {
        self.streams.as_mut_slice()
    }

    /// The streams.
    pub fn streams(&self) -> (r: &[Stream])
        ensures
            r@ == self.streams_view(),
    {
        self.streams.as_slice()
    }

    fn opened_at(&self, i: usize) -> (r: bool)
        ensures
            r == self.is_open(i as int),
    {
        i < self.opened.len() && self.opened[i]
    }

    /// The action for the held unit of stream `i`; a unit that no decoder
    /// takes is dropped.
    fn route(&mut self, i: usize) -> (r: PumpAction)
        requires
            old(self).held() == Some(i),
        ensures
            r == old(self).route_action(i),
            r == PumpAction::Other ==> final(self).held() is None,
            r != PumpAction::Other ==> final(self).held() == old(self).held(),
            final(self).streams_view() == old(self).streams_view(),
            forall|j: int| #[trigger] final(self).is_open(j) == old(self).is_open(j),
            final(self).was_submitted() == old(self).was_submitted(),
            final(self).input_done() == old(self).input_done(),
            final(self).drain_from() == old(self).drain_from(),
    {
        if i >= self.streams.len() {
            self.packet = None;
            PumpAction::Other
        } else if self.streams[i].decode && !self.opened_at(i) {
            PumpAction::Open(i)
        } else if self.opened_at(i) {
            if self.submitted {
                PumpAction::Receive(i)
            } else {
                PumpAction::Submit(i)
            }
        } else {
            self.packet = None;
            PumpAction::Other
        }
    }

    /// After the end of input: ask the next open decoder for what it still
    /// holds, or report that there are no more frames.
    fn drain(&mut self) -> (r: PumpAction)
        ensures
            match old(self).next_open(old(self).drain_from() as int) {
                Some(j) => r == PumpAction::Receive(j as usize) && final(self).drain_from() == j,
                None => r == PumpAction::Done && final(self).drain_from()
                    == old(self).streams_view().len(),
            },
            final(self).streams_view() == old(self).streams_view(),
            forall|j: int| #[trigger] final(self).is_open(j) == old(self).is_open(j),
            final(self).held() == old(self).held(),
            final(self).was_submitted() == old(self).was_submitted(),
            final(self).input_done() == old(self).input_done(),
    {
        let mut j: usize = self.drain_next;
        let n = self.streams.len();
        while j < n
            invariant
                self.drain_next <= j || n <= self.drain_next,
                n == self.streams@.len(),
                first_open(self.opened@, n as int, self.drain_next as int) == first_open(
                    self.opened@,
                    n as int,
                    j as int,
                ),
                *self == *old(self),
            decreases n - j,
        {
            if self.opened_at(j) {
                self.drain_next = j;
                return PumpAction::Receive(j);
            }
            j = j + 1;
        }
        self.drain_next = n;
        PumpAction::Done
    }

    /// The first step of a request for a frame.
    pub fn begin(&mut self) -> (r: PumpAction)
        ensures
            r == old(self).begin_action(),
            Self::begin_state(*old(self), *final(self)),
            final(self).streams_view() == old(self).streams_view(),
            forall|j: int| #[trigger] final(self).is_open(j) == old(self).is_open(j),
            final(self).input_done() == old(self).input_done(),
            match old(self).held() {
                Some(i) => r == old(self).route_action(i),
                None => if old(self).input_done() {
                    match old(self).next_open(old(self).drain_from() as int) {
                        Some(j) => r == PumpAction::Receive(j as usize),
                        None => r == PumpAction::Done,
                    }
                } else {
                    r == PumpAction::Fetch
                },
            },
    {
        match self.packet {
            Some(i) => self.route(i),
            None => {
                if self.ended {
                    self.drain()
                } else {
                    PumpAction::Fetch
                }
            },
        }
    }

    /// The engine read a unit of stream `stream_index`.
    pub fn fetched(&mut self, stream_index: usize) -> (r: PumpAction)
        ensures
            final(self).drain_from() == old(self).drain_from(),
            r != PumpAction::Other ==> !final(self).was_submitted(),
            r == old(self).fresh_unit_action(stream_index),
            final(self).streams_view() == old(self).streams_view(),
            forall|j: int| #[trigger] final(self).is_open(j) == old(self).is_open(j),
            final(self).input_done() == old(self).input_done(),
            r != PumpAction::Other ==> final(self).held() == Some(stream_index),
            r == PumpAction::Other ==> final(self).held() is None,
    {
        self.packet = Some(stream_index);
        self.submitted = false;
        self.route(stream_index)
    }

    /// The engine could not read a unit but more may follow: read again.
    pub fn fetch_failed(&mut self) -> (r: PumpAction)
        ensures
            r == PumpAction::Fetch,
            *final(self) == *old(self),
    {
        PumpAction::Fetch
    }

    /// The source has no more units: every open decoder is to be flushed.
    pub fn input_ended(&mut self) -> (r: PumpAction)
        ensures
            r == PumpAction::FlushAll,
            final(self).input_done(),
            final(self).held() is None,
            final(self).drain_from() == 0,
            final(self).streams_view() == old(self).streams_view(),
            forall|j: int| #[trigger] final(self).is_open(j) == old(self).is_open(j),
    {
        self.ended = true;
        self.packet = None;
        self.drain_next = 0;
        PumpAction::FlushAll
    }

    /// Every open decoder has been told that input ended.
    pub fn flushed(&mut self) -> (r: PumpAction)
        ensures
            final(self).held() == old(self).held(),
            final(self).was_submitted() == old(self).was_submitted(),
            final(self).drain_from() == old(self).drain_stop(old(self).drain_from() as int),
            final(self).streams_view() == old(self).streams_view(),
            forall|j: int| #[trigger] final(self).is_open(j) == old(self).is_open(j),
            final(self).input_done() == old(self).input_done(),
            match old(self).next_open(old(self).drain_from() as int) {
                Some(j) => r == PumpAction::Receive(j as usize),
                None => r == PumpAction::Done,
            },
    {
        self.drain()
    }

    /// The engine tried to open the decoder of the held unit's stream;
    /// `has_decoder` is false where the stream's media has none.
    pub fn opened(&mut self, has_decoder: bool) -> (r: PumpAction)
        ensures
            final(self).drain_from() == old(self).drain_from(),
            final(self).was_submitted() == old(self).was_submitted(),
            final(self).streams_view() == old(self).streams_view(),
            final(self).input_done() == old(self).input_done(),
            old(self).held() is None ==> r == PumpAction::Other && *final(self) == *old(self),
            old(self).held() is Some ==> {
                let i = old(self).held()->0;
                &&& final(self).is_open(i as int) == has_decoder
                &&& forall|j: int| j != i ==> #[trigger] final(self).is_open(j) == old(self).is_open(j)
                &&& has_decoder ==> r == (if old(self).was_submitted() {
                    PumpAction::Receive(i)
                } else {
                    PumpAction::Submit(i)
                }) && final(self).held() == old(self).held()
                &&& !has_decoder ==> r == PumpAction::Other && final(self).held() is None
            },
    {
        let i = match self.packet {
            Some(i) => i,
            None => {
                return PumpAction::Other;
            },
        };
        if i < self.opened.len() {
            self.opened.set(i, has_decoder);
        } else {
            while self.opened.len() < i
                invariant
                    old(self).opened@.len() <= self.opened@.len() <= i,
                    forall|j: int| 0 <= j < old(self).opened@.len() ==> self.opened@[j] == old(self).opened@[j],
                    forall|j: int| old(self).opened@.len() <= j < self.opened@.len() ==> !self.opened@[j],
                    self.streams@ == old(self).streams@,
                    self.packet == old(self).packet,
                    self.submitted == old(self).submitted,
                    self.ended == old(self).ended,
                    self.drain_next == old(self).drain_next,
                decreases i - self.opened@.len(),
            {
                self.opened.push(false);
            }
            self.opened.push(has_decoder);
            assert forall|j: int| j != i implies #[trigger] self.is_open(j) == old(self).is_open(j) by {
                if 0 <= j < self.opened@.len() && j >= old(self).opened@.len() {
                    assert(!self.opened@[j]);
                }
            }
        }
        if has_decoder {
            if self.submitted {
                PumpAction::Receive(i)
            } else {
                PumpAction::Submit(i)
            }
        } else {
            self.packet = None;
            PumpAction::Other
        }
    }

    /// The held unit went to its decoder: ask for output.
    pub fn submitted(&mut self) -> (r: PumpAction)
        ensures
            final(self).drain_from() == old(self).drain_from(),
            old(self).held() is Some ==> r == PumpAction::Receive(old(self).held()->0)
                && final(self).was_submitted(),
            old(self).held() is None ==> r == PumpAction::Other,
            final(self).held() == old(self).held(),
            final(self).streams_view() == old(self).streams_view(),
            forall|j: int| #[trigger] final(self).is_open(j) == old(self).is_open(j),
            final(self).input_done() == old(self).input_done(),
    {
        match self.packet {
            Some(i) => {
                self.submitted = true;
                PumpAction::Receive(i)
            },
            None => PumpAction::Other,
        }
    }

    /// Hands the engine's answer to the method for it.
    pub fn step(&mut self, event: PumpEvent) -> (r: PumpAction)
        ensures
            r == old(self).step_action(event),
            Self::step_state(*old(self), *final(self), event),
            final(self).streams_view() == old(self).streams_view(),
    {
        match event {
            PumpEvent::Fetched(i) => self.fetched(i),
            PumpEvent::FetchFailed => self.fetch_failed(),
            PumpEvent::InputEnded => self.input_ended(),
            PumpEvent::Flushed => self.flushed(),
            PumpEvent::Opened(has_decoder) => self.opened(has_decoder),
            PumpEvent::Submitted => self.submitted(),
            PumpEvent::Received(i, kind) => self.received(i, kind),
            PumpEvent::NeedMoreInput => self.need_more_input(),
        }
    }

    /// The decoder of stream `stream_index` gave a frame of this kind. A
    /// video or audio frame goes to the caller and the unit stays held, so
    /// that the next request asks the decoder again; any other frame drops
    /// the unit.
    pub fn received(&mut self, stream_index: usize, kind: FrameKind) -> (r: PumpAction)
        ensures
            final(self).was_submitted() == old(self).was_submitted(),
            kind != FrameKind::Other ==> r == PumpAction::Frame(stream_index, kind)
                && final(self).held() == old(self).held(),
            kind == FrameKind::Other ==> r == PumpAction::Other && final(self).held() is None,
            final(self).streams_view() == old(self).streams_view(),
            forall|j: int| #[trigger] final(self).is_open(j) == old(self).is_open(j),
            final(self).input_done() == old(self).input_done(),
            final(self).drain_from() == old(self).drain_from(),
    {
        match kind {
            FrameKind::Other => {
                self.packet = None;
                PumpAction::Other
            },
            _ => PumpAction::Frame(stream_index, kind),
        }
    }

    /// The decoder has no output until it gets more input. Before the end of
    /// input the held unit is used up and the next one is read; after it, that
    /// decoder is exhausted and the next open one is drained.
    pub fn need_more_input(&mut self) -> (r: PumpAction)
        ensures
            old(self).input_done() ==> final(self).drain_from() == old(self).drain_stop(
                old(self).drain_from() + 1int,
            ),
            !old(self).input_done() ==> final(self).drain_from() == old(self).drain_from(),
            final(self).streams_view() == old(self).streams_view(),
            forall|j: int| #[trigger] final(self).is_open(j) == old(self).is_open(j),
            final(self).input_done() == old(self).input_done(),
            final(self).held() is None,
            !old(self).input_done() ==> r == PumpAction::Fetch,
            old(self).input_done() ==> match old(self).next_open(old(self).drain_from() + 1int) {
                Some(j) => r == PumpAction::Receive(j as usize),
                None => r == PumpAction::Done,
            },
    {
        self.packet = None;
        if self.ended {
            if self.drain_next < self.streams.len() {
                self.drain_next = self.drain_next + 1;
            }
            self.drain()
        } else {
            PumpAction::Fetch
        }
    }

    /// A seek moved the source: any held unit is dropped and input may follow again.
    pub fn reset(&mut self)
        ensures
            final(self).held() is None,
            !final(self).input_done(),
            final(self).streams_view() == old(self).streams_view(),
            forall|j: int| #[trigger] final(self).is_open(j) == old(self).is_open(j),
    {
        self.packet = None;
        self.submitted = false;
        self.ended = false;
        self.drain_next = 0;
    }
}

} // verus!
