use gpu_video::{BufferFactory, BufferPool, FrameBuffer, VideoProcessingError};

struct Counting {
    created: usize,
    freed: usize,
    next_id: u32,
}

impl BufferFactory<u32, u8> for Counting {
    fn create(
        &mut self,
        width: u32,
        height: u32,
        stride: usize,
        format: &u8,
    ) -> Result<FrameBuffer<u32, u8>, VideoProcessingError> {
        self.created += 1;
        self.next_id += 1;
        Ok(FrameBuffer { width, height, stride, format: *format, inner: self.next_id })
    }

    fn free(&mut self, _buffer: FrameBuffer<u32, u8>) -> Result<(), VideoProcessingError> {
        self.freed += 1;
        Ok(())
    }
}

struct Failing;

impl BufferFactory<u32, u8> for Failing {
    fn create(
        &mut self,
        _width: u32,
        _height: u32,
        _stride: usize,
        _format: &u8,
    ) -> Result<FrameBuffer<u32, u8>, VideoProcessingError> {
        Err(VideoProcessingError::EngineError(-12))
    }

    fn free(&mut self, _buffer: FrameBuffer<u32, u8>) -> Result<(), VideoProcessingError> {
        Ok(())
    }
}

fn counting_pool(capacity: usize) -> BufferPool<u32, u8, Counting> {
    BufferPool::new(capacity, Counting { created: 0, freed: 0, next_id: 0 })
}

#[test]
fn reuse_after_release_creates_once() {
    let mut pool = counting_pool(1);
    let first = pool.get(64, 32, 256, 1).unwrap();
    let id = first.buffer().inner;
    first.release(&mut pool);
    let second = pool.get(64, 32, 256, 1).unwrap();
    assert_eq!(second.buffer().inner, id);
    assert_eq!(pool.factory().created, 1);
    assert_eq!(pool.factory().freed, 0);
}

#[test]
fn new_buffer_carries_requested_shape() {
    let mut pool = counting_pool(2);
    let h = pool.get(1920, 1080, 7680, 3).unwrap();
    let b = h.buffer();
    assert_eq!((b.width, b.height, b.stride, b.format), (1920, 1080, 7680, 3));
}

#[test]
fn different_key_never_reuses() {
    let mut pool = counting_pool(4);
    let a = pool.get(64, 32, 256, 1).unwrap();
    a.release(&mut pool);
    let b = pool.get(64, 32, 256, 2).unwrap();
    let c = pool.get(64, 33, 256, 1).unwrap();
    assert_eq!(pool.factory().created, 3);
    assert_ne!(b.buffer().inner, 1);
    assert_ne!(c.buffer().inner, 1);
}

#[test]
fn release_beyond_capacity_frees() {
    let mut pool = counting_pool(2);
    let hs: Vec<_> = (0..3).map(|_| pool.get(8, 8, 8, 0).unwrap()).collect();
    for h in hs {
        h.release(&mut pool);
    }
    assert_eq!(pool.factory().created, 3);
    assert_eq!(pool.factory().freed, 1);
}

#[test]
fn zero_capacity_keeps_nothing() {
    let mut pool = counting_pool(0);
    let h = pool.get(8, 8, 8, 0).unwrap();
    h.release(&mut pool);
    let _h2 = pool.get(8, 8, 8, 0).unwrap();
    assert_eq!(pool.factory().created, 2);
    assert_eq!(pool.factory().freed, 1);
}

#[test]
fn last_returned_is_reused_first() {
    let mut pool = counting_pool(4);
    let a = pool.get(8, 8, 8, 0).unwrap();
    let b = pool.get(8, 8, 8, 0).unwrap();
    let (ia, ib) = (a.buffer().inner, b.buffer().inner);
    a.release(&mut pool);
    b.release(&mut pool);
    assert_eq!(pool.get(8, 8, 8, 0).unwrap().buffer().inner, ib);
    assert_eq!(pool.get(8, 8, 8, 0).unwrap().buffer().inner, ia);
}

#[test]
fn accounting_over_get_and_release() {
    let mut pool = counting_pool(2);
    let mut live = Vec::new();
    for round in 0..5u32 {
        for k in 0..3u8 {
            live.push(pool.get(16, 16, 64, k).unwrap());
        }
        if round % 2 == 0 {
            while let Some(h) = live.pop() {
                h.release(&mut pool);
            }
        }
        let f = pool.factory();
        let idle = f.created - f.freed - live.len();
        assert!(idle <= 3 * 2);
    }
}

#[test]
fn free_idle_frees_every_idle_buffer() {
    let mut pool = counting_pool(3);
    let hs: Vec<_> = (0..5u8).map(|k| pool.get(4, 4, 4, k % 2).unwrap()).collect();
    for h in hs {
        h.release(&mut pool);
    }
    assert_eq!(pool.factory().freed, 0);
    pool.free_idle();
    assert_eq!(pool.factory().created, 5);
    assert_eq!(pool.factory().freed, 5);
    let _h = pool.get(4, 4, 4, 0).unwrap();
    assert_eq!(pool.factory().created, 6);
}

#[test]
fn into_inner_keeps_buffer_out_of_pool() {
    let mut pool = counting_pool(2);
    let h = pool.get(8, 8, 8, 0).unwrap();
    let buf = h.into_inner();
    assert_eq!(buf.inner, 1);
    let h2 = pool.get(8, 8, 8, 0).unwrap();
    assert_eq!(h2.buffer().inner, 2);
    pool.free_idle();
    assert_eq!(pool.factory().freed, 0);
}

#[test]
fn buffer_mut_changes_the_held_buffer() {
    let mut pool = counting_pool(1);
    let mut h = pool.get(8, 8, 8, 0).unwrap();
    h.buffer_mut().inner = 99;
    h.release(&mut pool);
    assert_eq!(pool.get(8, 8, 8, 0).unwrap().buffer().inner, 99);
}

#[test]
fn factory_failure_reaches_caller() {
    let mut pool: BufferPool<u32, u8, Failing> = BufferPool::new(2, Failing);
    match pool.get(8, 8, 8, 0) {
        Err(e) => assert_eq!(e, VideoProcessingError::EngineError(-12)),
        Ok(_) => panic!("expected an error"),
    }
}
