use vstd::prelude::*;
use crate::types::{Rational, VideoInfo};

verus! {

/// `n / d` rounded to the nearest integer, halves away from zero.
pub open spec fn round_div(n: int, d: int) -> int
    recommends
        d > 0,
{
    if n >= 0 {
        (2 * n + d) / (2 * d)
    } else {
        -((-2 * n + d) / (2 * d))
    }
}

/// The frame that a seek to `t` microseconds lands on, in a clip of `count`
/// frames at `num / den` frames per second: the nearest frame, kept within
/// the clip (the first frame for an empty clip).
pub open spec fn seek_target(t: int, num: int, den: int, count: int) -> int {
    let x = round_div(t * num, den * 1000000);
    let y = if x < count - 1 { x } else { count - 1 };
    if y > 0 { y } else { 0 }
}

/// The time of frame `i` in microseconds, rounded down.
pub open spec fn frame_time(i: int, num: int, den: int) -> int {
    (i * 1000000 * den) / num
}

/// A seek to `t` lands on a frame whose time is no earlier than the time of
/// any frame of the clip at or before `t`, as long as the rate is at most
/// 500000 frames per second; a seek to 0 lands on the first frame.
pub proof fn lemma_seek_not_before(t: int, num: int, den: int, count: int, k: int)
    requires
        num > 0,
        den > 0,
        2 * num <= den * 1000000,
        0 <= k < count,
        frame_time(k, num, den) <= t,
    ensures
        frame_time(seek_target(t, num, den, count), num, den) >= frame_time(k, num, den),
        seek_target(0, num, den, count) == 0,
{
    let d = den * 1000000;
    let a = k * 1000000 * den;
    assert(a == k * d) by (nonlinear_arith)
        requires
            a == k * 1000000 * den,
            d == den * 1000000,
    ;
    assert(d > 0) by (nonlinear_arith)
        requires
            den > 0,
            d == den * 1000000,
    ;
    assert(a >= 0) by (nonlinear_arith)
        requires
            a == k * d,
            k >= 0,
            d > 0,
    ;
    assert(a / num >= 0) by (nonlinear_arith)
        requires
            a >= 0,
            num > 0,
    ;
    assert(t >= 0);
    assert(a < (t + 1) * num) by (nonlinear_arith)
        requires
            a / num <= t,
            num > 0,
            a >= 0,
    ;
    assert(2 * k * d <= 2 * (t * num) + d) by (nonlinear_arith)
        requires
            a == k * d,
            a < (t + 1) * num,
            2 * num <= d,
    ;
    assert(t * num >= 0) by (nonlinear_arith)
        requires
            t >= 0,
            num > 0,
    ;
    let x = (2 * (t * num) + d) / (2 * d);
    assert(k <= x) by (nonlinear_arith)
        requires
            2 * k * d <= 2 * (t * num) + d,
            x == (2 * (t * num) + d) / (2 * d),
            d > 0,
    ;
    assert(round_div(t * num, d) == x);
    let z = seek_target(t, num, den, count);
    assert(k <= z);
    assert(z * 1000000 * den >= a) by (nonlinear_arith)
        requires
            k <= z,
            a == k * 1000000 * den,
            den > 0,
    ;
    assert((z * 1000000 * den) / num >= a / num) by (nonlinear_arith)
        requires
            z * 1000000 * den >= a,
            num > 0,
    ;
    assert(0 * num == 0);
    assert((2 * 0 + d) / (2 * d) == 0) by (nonlinear_arith)
        requires
            d > 0,
    ;
}

/// The playback position of a clip whose frames are addressed by index.
pub struct FrameCursor {
    rate: Rational,
    frame_count: u64,
    current_frame: u64,
}

impl FrameCursor {
    pub closed spec fn rate(&self) -> Rational {
        self.rate
    }

    pub closed spec fn count(&self) -> nat {
        self.frame_count as nat
    }

    pub closed spec fn position(&self) -> nat {
        self.current_frame as nat
    }

    /// The time of frame `i` of this clip.
    pub open spec fn time_of(&self, i: int) -> int {
        frame_time(i, self.rate().0 as int, self.rate().1 as int)
    }

    pub closed spec fn wf(&self) -> bool {
        &&& self.rate.0 > 0
        &&& self.rate.1 > 0
        &&& self.frame_count * 1000000 * self.rate.1 <= i64::MAX * self.rate.0
    }

    /// A well-formed cursor has a positive rate, and every frame time of the
    /// clip fits in an `i64` of microseconds.
    pub proof fn lemma_wf(&self)
        requires
            self.wf(),
        ensures
            self.rate().0 > 0,
            self.rate().1 > 0,
            self.count() * 1000000 * self.rate().1 <= i64::MAX * self.rate().0,
            forall|i: int| 0 <= i < self.count() ==> 0 <= #[trigger] self.time_of(i) <= i64::MAX,
    {
        assert forall|i: int| 0 <= i < self.count() implies 0 <= #[trigger] self.time_of(i) <= i64::MAX by {
            let num = self.rate.0 as int;
            let den = self.rate.1 as int;
            assert(0 <= i * 1000000 * den <= self.count() * 1000000 * den) by (nonlinear_arith)
                requires
                    0 <= i < self.count(),
                    den > 0,
            ;
            assert(0 <= (i * 1000000 * den) / num <= i64::MAX) by (nonlinear_arith)
                requires
                    0 <= i * 1000000 * den <= i64::MAX * num,
                    num > 0,
            ;
        }
    }

    /// A cursor on the first frame of a clip of `frame_count` frames at
    /// `rate` frames per second. The rate is positive, and the clip is short
    /// enough for its frame times to fit in an `i64` of microseconds.
    pub fn new(rate: Rational, frame_count: u64) -> (r: Self)
        requires
            rate.0 > 0,
            rate.1 > 0,
            frame_count * 1000000 * rate.1 <= i64::MAX * rate.0,
        ensures
            r.wf(),
            r.rate() == rate,
            r.count() == frame_count,
            r.position() == 0,
    {
        FrameCursor { rate, frame_count, current_frame: 0 }
    }

    /// The frame the next decode reads.
    pub fn current_frame(&self) -> (r: u64)
        ensures
            r == self.position(),
    {
        self.current_frame
    }

    /// How many frames the clip has.
    pub fn frame_count(&self) -> (r: u64)
        ensures
            r == self.count(),
    {
        self.frame_count
    }

    /// Moves to the frame nearest to `timestamp_us`: the time times the frame
    /// rate, rounded, kept within the clip.
    pub fn seek(&mut self, timestamp_us: i64)
        requires
            old(self).wf(),
        ensures
            final(self).wf(),
            final(self).rate() == old(self).rate(),
            final(self).count() == old(self).count(),
            final(self).position() == seek_target(
                timestamp_us as int,
                old(self).rate().0 as int,
                old(self).rate().1 as int,
                old(self).count() as int,
            ),
    {
        assert(-9223372036854775808 * 2147483647 <= timestamp_us * self.rate.0 <= 9223372036854775807
            * 2147483647) by (nonlinear_arith)
            requires
                0 < self.rate.0 <= 2147483647,
                -9223372036854775808 <= timestamp_us <= 9223372036854775807,
        ;
        let n: i128 = timestamp_us as i128 * self.rate.0 as i128;
        let d: i128 = self.rate.1 as i128 * 1000000;
        assert(n == timestamp_us * self.rate.0) by (nonlinear_arith)
            requires
                n == timestamp_us as i128 * self.rate.0 as i128,
        ;
        assert(-9223372036854775808 * 2147483647 <= n <= 9223372036854775807 * 2147483647)
            by (nonlinear_arith)
            requires
                n == timestamp_us * self.rate.0,
                0 < self.rate.0 <= 2147483647,
                -9223372036854775808 <= timestamp_us <= 9223372036854775807,
        ;
        let x: i128 = if n >= 0 {
            (2 * n + d) / (2 * d)
        } else {
            -((-2 * n + d) / (2 * d))
        };
        assert(-9223372036854775808 * 2147483647 <= x <= 9223372036854775807 * 2147483647) by {
            if n >= 0 {
                assert((2 * n + d) / (2 * d) <= 2 * n + d) by (nonlinear_arith)
                    requires
                        n >= 0,
                        d >= 1000000,
                ;
                assert((2 * n + d) / (2 * d) <= n) by (nonlinear_arith)
                    requires
                        n >= 0,
                        d >= 1000000,
                ;
            } else {
                assert((-2 * n + d) / (2 * d) <= -n) by (nonlinear_arith)
                    requires
                        n < 0,
                        d >= 1000000,
                ;
            }
        }
        let last: i128 = self.frame_count as i128 - 1;
        let y: i128 = if x < last { x } else { last };
        let z: i128 = if y > 0 { y } else { 0 };
        self.current_frame = z as u64;
    }

    /// The frame to decode next and its time in microseconds, moving past it;
    /// `None` once every frame has been read.
    pub fn next_frame(&mut self) -> (r: Option<(u64, i64)>)
        requires
            old(self).wf(),
        ensures
            final(self).wf(),
            final(self).rate() == old(self).rate(),
            final(self).count() == old(self).count(),
            old(self).position() < old(self).count() ==> {
                &&& r == Some((old(self).position() as u64, old(self).time_of(old(self).position() as int) as i64))
                &&& final(self).position() == old(self).position() + 1
            },
            old(self).position() >= old(self).count() ==> r is None && final(self).position()
                == old(self).position(),
    {
        if self.current_frame >= self.frame_count {
            return None;
        }
        let i = self.current_frame;
        let num = self.rate.0 as i128;
        let den = self.rate.1 as i128;
        assert(0 <= i * 1000000 <= 18446744073709551615 * 1000000) by (nonlinear_arith)
            requires
                0 <= i <= 18446744073709551615,
        ;
        assert(0 <= i * 1000000 * den <= 18446744073709551615 * 1000000 * 2147483647)
            by (nonlinear_arith)
            requires
                0 <= i <= 18446744073709551615,
                0 < den <= 2147483647,
        ;
        let m: i128 = i as i128 * 1000000 * den;
        assert(m == i * 1000000 * self.rate.1) by (nonlinear_arith)
            requires
                m == i as i128 * 1000000 * den,
                den == self.rate.1,
        ;
        assert(0 <= m <= self.frame_count * 1000000 * self.rate.1) by (nonlinear_arith)
            requires
                m == i * 1000000 * self.rate.1,
                0 <= i < self.frame_count,
                self.rate.1 > 0,
        ;
        let ts: i128 = m / num;
        assert(ts <= i64::MAX) by (nonlinear_arith)
            requires
                ts == m / num,
                num >= 1,
                0 <= m <= i64::MAX * num,
        ;
        self.current_frame = i + 1;
        Some((i, ts as i64))
    }

    /// What the clip says of itself: length, frame count and rate, with the
    /// picture size that the engine reports.
    pub fn video_info(&self, width: u32, height: u32) -> (r: VideoInfo)
        requires
            self.wf(),
        ensures
            r.duration_ms == (self.count() * 1000 * self.rate().1) / (self.rate().0 as int),
            r.frame_count == #[verifier::truncate] (self.count() as usize),
            r.fps == self.rate(),
            r.width == width,
            r.height == height,
            r.bitrate == 0,
            r.created_at is None,
            r.rotation == 0,
    {
        let num = self.rate.0 as u128;
        let den = self.rate.1 as u128;
        assert(0 <= self.frame_count * 1000 * den <= 18446744073709551615 * 1000 * 2147483647)
            by (nonlinear_arith)
            requires
                0 <= self.frame_count <= 18446744073709551615,
                0 < den <= 2147483647,
        ;
        let m: u128 = self.frame_count as u128 * 1000 * den;
        assert(m <= i64::MAX * self.rate.0) by (nonlinear_arith)
            requires
                m == self.frame_count * 1000 * self.rate.1,
                self.frame_count * 1000000 * self.rate.1 <= i64::MAX * self.rate.0,
                self.rate.1 > 0,
        ;
        let ms: u128 = m / num;
        assert(ms <= i64::MAX) by (nonlinear_arith)
            requires
                ms == m / num,
                num >= 1,
                m <= i64::MAX * num,
        ;
        VideoInfo {
            duration_ms: ms as u64,
            frame_count: #[verifier::truncate] (self.frame_count as usize),
            fps: self.rate,
            width,
            height,
            bitrate: 0,
            created_at: None,
            rotation: 0,
        }
    }
}

} // verus!
