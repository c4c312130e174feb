use vstd::prelude::*;
use crate::buffer_pool::{buf_key, BufKey, BufferFactory, BufferPool, PooledFrame};
use crate::cursor::FrameCursor;
use crate::formats::{
    bytes_per_pixel_spec, mode_divisor_spec, r3d_buffer_request, R3dDecodeMode, R3dPixelType,
    R3dTypeAndFormat,
};
use crate::types::VideoProcessingError;

verus! {

/// A RED frame ready to be decoded: which frame, its time, its size and the
/// pooled buffer the decode writes into.
pub struct R3dFrameRequest<T> {
    pub index: u64,
    pub timestamp_us: i64,
    pub width: u32,
    pub height: u32,
    pub buffer: PooledFrame<T, R3dTypeAndFormat>,
}

/// The pool key of the buffer for a RED decode of a `clip_width` by
/// `clip_height` clip.
pub open spec fn r3d_key(
    clip_width: u32,
    clip_height: u32,
    mode: R3dDecodeMode,
    pixel_type: R3dPixelType,
    size_bytes: usize,
) -> BufKey<R3dTypeAndFormat> {
    buf_key(
        (clip_width / mode_divisor_spec(mode)) as u32,
        (clip_height / mode_divisor_spec(mode)) as u32,
        ((clip_width / mode_divisor_spec(mode)) * bytes_per_pixel_spec(pixel_type)) as usize,
        R3dTypeAndFormat { mode, pixel_type, size_bytes: Some(size_bytes) },
    )
}

/// The next RED frame: none once the clip is read; otherwise one request to
/// the pool for the frame's buffer, and the cursor moves past the frame only
/// when the buffer was had. A failure of the pool comes back as the error,
/// with the cursor where it was.
pub fn request_r3d_frame<T, F: BufferFactory<T, R3dTypeAndFormat>>(
    cursor: &mut FrameCursor,
    pool: &mut BufferPool<T, R3dTypeAndFormat, F>,
    clip_width: u32,
    clip_height: u32,
    mode: R3dDecodeMode,
    pixel_type: R3dPixelType,
    size_bytes: usize,
) -> (r: Result<Option<R3dFrameRequest<T>>, VideoProcessingError>)
    requires
        old(cursor).wf(),
        old(pool).wf(),
    ensures
        final(cursor).wf(),
        final(cursor).rate() == old(cursor).rate(),
        final(cursor).count() == old(cursor).count(),
        ({
            let k = r3d_key(clip_width, clip_height, mode, pixel_type, size_bytes);
            let stride = (clip_width / mode_divisor_spec(mode)) * bytes_per_pixel_spec(pixel_type);
            if old(cursor).position() >= old(cursor).count() {
                &&& r matches Ok(None)
                &&& *final(cursor) == *old(cursor)
                &&& *final(pool) == *old(pool)
            } else if stride > usize::MAX {
                &&& r == Err::<Option<R3dFrameRequest<T>>, VideoProcessingError>(
                    VideoProcessingError::NoSupportedFormats,
                )
                &&& *final(cursor) == *old(cursor)
                &&& *final(pool) == *old(pool)
            } else {
                &&& BufferPool::get_spec(
                    *old(pool),
                    *final(pool),
                    k,
                    match r {
                        Ok(Some(q)) => Ok(q.buffer),
                        Ok(None) => Err(VideoProcessingError::FrameEmpty),
                        Err(e) => Err(e),
                    },
                )
                &&& r is Err ==> *final(cursor) == *old(cursor)
                &&& !(r matches Ok(None))
                &&& r matches Ok(Some(q)) ==> {
                    &&& q.index == old(cursor).position()
                    &&& q.timestamp_us == old(cursor).time_of(old(cursor).position() as int)
                    &&& q.width == k.width
                    &&& q.height == k.height
                    &&& final(cursor).position() == old(cursor).position() + 1
                }
            }
        }),
{
    if cursor.current_frame() >= cursor.frame_count() {
        return Ok(None);
    }
    let (width, height, stride, format) = match r3d_buffer_request(
        clip_width,
        clip_height,
        mode,
        pixel_type,
        size_bytes,
    ) {
        Some(req) => req,
        None => {
            return Err(VideoProcessingError::NoSupportedFormats);
        },
    };
    let buffer = match pool.get(width, height, stride, format) {
        Ok(b) => b,
        Err(e) => {
            return Err(e);
        },
    };
    proof {
        cursor.lemma_wf();
    }
    match cursor.next_frame() {
        Some((index, timestamp_us)) => Ok(Some(R3dFrameRequest { index, timestamp_us, width, height, buffer })),
        None => Ok(None),
    }
}

} // verus!
