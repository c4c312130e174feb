use vstd::prelude::*;
use crate::types::{Rational, VideoInfo};

verus! {

/// The instant that `chrono` reads from an RFC 3339 text, in milliseconds
/// since the Unix epoch; `None` for a text it does not accept.
pub uninterp spec fn rfc3339_millis(s: Seq<char>) -> Option<i64>;

/// Relies on `chrono::DateTime::parse_from_rfc3339` and its
/// `timestamp_millis`: the instant an RFC 3339 text names.
#[verifier::external_body]
fn parse_rfc3339_millis(s: &str) -> (r: Option<i64>)
    ensures
        r == rfc3339_millis(s@),
{
    match chrono::DateTime::parse_from_rfc3339(s) {
        Ok(d) => Some(d.timestamp_millis()),
        Err(_) => None,
    }
}

/// The creation time of a source from its `creation_time` tag: whole seconds
/// since the Unix epoch of the instant the tag names; `None` for a tag that
/// is not RFC 3339 or names an instant before 1970.
pub fn creation_time_secs(tag: &str) -> (r: Option<u64>)
    ensures
        r == match rfc3339_millis(tag@) {
            Some(m) => if m >= 0 {
                Some((m / 1000) as u64)
            } else {
                None
            },
            None => None,
        },
{
    match parse_rfc3339_millis(tag) {
        Some(m) => if m >= 0 {
            Some((m / 1000) as u64)
        } else {
            None
        },
        None => None,
    }
}

/// A rotation in degrees brought into `[-180, 180)`: the same turn, whole
/// circles removed.
pub fn normalize_rotation(degrees: i32) -> (r: i32)
    ensures
        -180 <= r < 180,
        (degrees - r) % 360 == 0,
{
    let d = degrees as i64 + 180;
    let m = d % 360;
    let m = if m < 0 { m + 360 } else { m };
    let r = m - 180;
    assert((degrees - r) % 360 == 0) by (nonlinear_arith)
        requires
            d == degrees + 180,
            m == d % 360 || m == d % 360 + 360,
            r == m - 180,
    ;
    r as i32
}

/// What a container says of its main video stream, in the stream's own units.
#[derive(Debug, Clone, Copy, PartialEq, Eq, Structural)]
pub struct ContainerStreamInfo {
    /// Length in units of `time_base`.
    pub duration: i64,
    pub time_base: Rational,
    /// Frames per second.
    pub rate: Rational,
    /// Frame count as the container states it; zero when it does not.
    pub frames: i64,
    pub width: u32,
    pub height: u32,
    /// Bits per second of the video codec; zero when unknown.
    pub codec_bitrate: u64,
    /// Bits per second of the whole container.
    pub container_bitrate: i64,
}

/// `n / d` rounded down, and zero where it would be negative or `d` is not
/// positive.
pub open spec fn floor_or_zero(n: int, d: int) -> int {
    if d <= 0 || n <= 0 {
        0
    } else {
        n / d
    }
}

pub open spec fn clamp_u64(x: int) -> u64 {
    if x > u64::MAX {
        u64::MAX
    } else {
        x as u64
    }
}

/// The length of the stream in whole milliseconds.
pub open spec fn duration_ms_of(s: ContainerStreamInfo) -> u64 {
    clamp_u64(floor_or_zero(s.duration * s.time_base.0 * 1000, s.time_base.1 as int))
}

/// The frame count: as stated, else the length times the frame rate.
pub open spec fn frame_count_of(s: ContainerStreamInfo) -> u64 {
    if s.frames != 0 {
        clamp_u64(floor_or_zero(s.frames as int, 1))
    } else {
        clamp_u64(
            floor_or_zero(
                s.duration * s.time_base.0 * s.rate.0,
                s.time_base.1 * s.rate.1,
            ),
        )
    }
}

/// The bit rate: the codec's, else the container's.
pub open spec fn bitrate_of(s: ContainerStreamInfo) -> u64 {
    if s.codec_bitrate != 0 {
        s.codec_bitrate
    } else if s.container_bitrate > 0 {
        s.container_bitrate as u64
    } else {
        0
    }
}

/// `n / d` rounded down, saturated to `u64`; zero where negative or where
/// `d` is not positive.
fn div_floor_sat(n: i128, d: i128) -> (r: u64)
    ensures
        r == clamp_u64(floor_or_zero(n as int, d as int)),
{
    if d <= 0 || n <= 0 {
        return 0;
    }
    let q = n / d;
    if q > u64::MAX as i128 {
        u64::MAX
    } else {
        q as u64
    }
}

/// The description of a container's video stream, from what the container
/// states; the creation time and rotation are given as read.
pub fn container_video_info(s: &ContainerStreamInfo, created_at: Option<u64>, rotation: i32) -> (r:
    VideoInfo)
    ensures
        r.duration_ms == duration_ms_of(*s),
        r.frame_count == #[verifier::truncate] (frame_count_of(*s) as usize),
        r.fps == s.rate,
        r.width == s.width,
        r.height == s.height,
        r.bitrate == bitrate_of(*s),
        r.created_at == created_at,
        r.rotation == rotation,
{
    let tb_num = s.time_base.0 as i128;
    let tb_den = s.time_base.1 as i128;
    assert(-9223372036854775808 * 2147483648 <= s.duration * s.time_base.0 <= 9223372036854775808
        * 2147483648) by (nonlinear_arith)
        requires
            -9223372036854775808 <= s.duration <= 9223372036854775807,
            -2147483648 <= s.time_base.0 <= 2147483647,
    ;
    let dn: i128 = s.duration as i128 * tb_num;
    assert(-9223372036854775808 * 2147483648 * 1000 <= dn * 1000 <= 9223372036854775808
        * 2147483648 * 1000) by (nonlinear_arith)
        requires
            -9223372036854775808 * 2147483648 <= dn <= 9223372036854775808 * 2147483648,
    ;
    let duration_ms = div_floor_sat(dn * 1000, tb_den);
    let frames: u64 = if s.frames != 0 {
        div_floor_sat(s.frames as i128, 1)
    } else {
        assert(-9223372036854775808 * 2147483648 * 2147483648 <= dn * s.rate.0 <= 9223372036854775808
            * 2147483648 * 2147483648) by (nonlinear_arith)
            requires
                -9223372036854775808 * 2147483648 <= dn <= 9223372036854775808 * 2147483648,
                -2147483648 <= s.rate.0 <= 2147483647,
        ;
        assert(-2147483648 * 2147483648 <= s.time_base.1 * s.rate.1 <= 2147483648 * 2147483648)
            by (nonlinear_arith)
            requires
                -2147483648 <= s.time_base.1 <= 2147483647,
                -2147483648 <= s.rate.1 <= 2147483647,
        ;
        div_floor_sat(dn * s.rate.0 as i128, tb_den * s.rate.1 as i128)
    };
    let bitrate: u64 = if s.codec_bitrate != 0 {
        s.codec_bitrate
    } else if s.container_bitrate > 0 {
        s.container_bitrate as u64
    } else {
        0
    };
    VideoInfo {
        duration_ms,
        frame_count: #[verifier::truncate] (frames as usize),
        fps: s.rate,
        width: s.width,
        height: s.height,
        bitrate,
        created_at,
        rotation,
    }
}

} // verus!
