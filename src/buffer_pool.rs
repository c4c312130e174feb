use vstd::prelude::*;
use vstd::laws_eq::obeys_concrete_eq;
use vstd::multiset::Multiset;
use crate::types::VideoProcessingError;

verus! {

broadcast use vstd::seq_lib::group_to_multiset_ensures, vstd::multiset::group_multiset_axioms;

/// Makes and frees the resources that a pool hands out.
///
/// A buffer that `create` makes carries the width, height, stride and format
/// it was asked for.
pub trait BufferFactory<T, P> {
    fn create(&mut self, width: u32, height: u32, stride: usize, format: &P) -> (r: Result<
        FrameBuffer<T, P>,
        VideoProcessingError,
    >)
        ensures
            r is Ok ==> tags_of(r->Ok_0) == buf_key(width, height, stride, *format),
    ;

    fn free(&mut self, buffer: FrameBuffer<T, P>) -> Result<(), VideoProcessingError>;
}

/// A resource tagged with the dimensions, stride and format it was made for.
pub struct FrameBuffer<T, P> {
    pub width: u32,
    pub height: u32,
    pub stride: usize,
    pub format: P,
    pub inner: T,
}

/// The exact-match key that buckets idle buffers.
#[derive(Clone, Copy, Debug)]
pub struct BufKey<P> {
    pub width: u32,
    pub height: u32,
    pub stride: usize,
    pub format: P,
}

pub open spec fn buf_key<P>(width: u32, height: u32, stride: usize, format: P) -> BufKey<P> {
    BufKey { width, height, stride, format }
}

/// The key that a buffer's own tags spell.
pub open spec fn tags_of<T, P>(b: FrameBuffer<T, P>) -> BufKey<P> {
    BufKey { width: b.width, height: b.height, stride: b.stride, format: b.format }
}

/// `b` with the tags of key `k`.
pub open spec fn stamped<T, P>(b: FrameBuffer<T, P>, k: BufKey<P>) -> FrameBuffer<T, P> {
    FrameBuffer { width: k.width, height: k.height, stride: k.stride, format: k.format, inner: b.inner }
}

/// Whether two keys are equal, field by field.
fn same_key<P: PartialEq + Copy>(a: &BufKey<P>, b: &BufKey<P>) -> (r: bool)
    requires
        obeys_concrete_eq::<P>(),
    ensures
        r == (*a == *b),
{
    proof {
        reveal(obeys_concrete_eq);
    }
    a.width == b.width && a.height == b.height && a.stride == b.stride && a.format.eq(&b.format)
}

/// The idle buffers of one key, the last one reused first. Buckets are kept
/// in a list searched by key: a hash map would need a proved hash model of
/// the format type, which a generic key does not have.
struct Bucket<T, P> {
    key: BufKey<P>,
    entries: Vec<FrameBuffer<T, P>>,
}

spec fn bucket_total<T, P>(b: Seq<Bucket<T, P>>) -> nat
    decreases b.len(),
{
    if b.len() == 0 {
        0
    } else {
        bucket_total(b.drop_last()) + b.last().entries@.len()
    }
}

/// The idle buffers of all buckets, bucket after bucket.
spec fn flat<T, P>(b: Seq<Bucket<T, P>>) -> Seq<FrameBuffer<T, P>>
    decreases b.len(),
{
    if b.len() == 0 {
        Seq::empty()
    } else {
        flat(b.drop_last()) + b.last().entries@
    }
}

proof fn lemma_bucket_total_update<T, P>(b: Seq<Bucket<T, P>>, i: int, x: Bucket<T, P>)
    requires
        0 <= i < b.len(),
    ensures
        bucket_total(b.update(i, x)) + b[i].entries@.len() == bucket_total(b) + x.entries@.len(),
    decreases b.len(),
{
    if i == b.len() - 1 {
        assert(b.update(i, x).drop_last() =~= b.drop_last());
    } else {
        lemma_bucket_total_update(b.drop_last(), i, x);
        assert(b.update(i, x).drop_last() =~= b.drop_last().update(i, x));
    }
}

/// Adding `key` to the map keeps it covered by buckets that keep their keys
/// and include one for `key`.
proof fn lemma_covers_insert<T, P>(
    m: Map<BufKey<P>, Seq<FrameBuffer<T, P>>>,
    pre: Seq<Bucket<T, P>>,
    post: Seq<Bucket<T, P>>,
    key: BufKey<P>,
)
    requires
        covers(m, pre),
        pre.len() <= post.len(),
        forall|i: int| 0 <= i < pre.len() ==> post[i].key == pre[i].key,
        exists|i: int| 0 <= i < post.len() && post[i].key == key,
    ensures
        forall|e: Seq<FrameBuffer<T, P>>| covers(#[trigger] m.insert(key, e), post),
{
    assert forall|e: Seq<FrameBuffer<T, P>>| covers(#[trigger] m.insert(key, e), post) by {
        assert forall|k: BufKey<P>| #[trigger] m.insert(key, e).contains_key(k) implies exists|i: int|
            0 <= i < post.len() && post[i].key == k by {
            if k != key {
                assert(m.contains_key(k));
                let i = choose|i: int| 0 <= i < pre.len() && pre[i].key == k;
                assert(post[i].key == k);
            }
        }
    }
}

proof fn lemma_bucket_total_push<T, P>(b: Seq<Bucket<T, P>>, x: Bucket<T, P>)
    ensures
        bucket_total(b.push(x)) == bucket_total(b) + x.entries@.len(),
{
    assert(b.push(x).drop_last() =~= b);
}

/// Every key of `m` has a bucket in `b`.
spec fn covers<T, P>(m: Map<BufKey<P>, Seq<FrameBuffer<T, P>>>, b: Seq<Bucket<T, P>>) -> bool {
    forall|k: BufKey<P>| #[trigger]
        m.contains_key(k) ==> exists|i: int| 0 <= i < b.len() && b[i].key == k
}

/// A pool of recyclable buffers, bucketed by exact key.
///
/// At most `capacity_per_key` idle buffers are kept for each key; a buffer
/// given back beyond that is freed through the factory. The pool has a single
/// owner: buffers come back through `PooledFrame::release`, and the owner
/// frees the idle ones with `free_idle` before letting the pool go.
#[verifier::reject_recursive_types(P)]
pub struct BufferPool<T, P, F> {
    capacity_per_key: usize,
    factory: F,
    buckets: Vec<Bucket<T, P>>,
    idle_map: Ghost<Map<BufKey<P>, Seq<FrameBuffer<T, P>>>>,
    created: Ghost<nat>,
    freed: Ghost<nat>,
    freed_log: Ghost<Seq<FrameBuffer<T, P>>>,
    gets: Ghost<nat>,
    releases: Ghost<nat>,
}

/// A buffer handed out by a pool, with the key it was asked for.
pub struct PooledFrame<T, P> {
    key: BufKey<P>,
    buf: FrameBuffer<T, P>,
}

impl<T, P> PooledFrame<T, P> {
    pub closed spec fn key(&self) -> BufKey<P> {
        self.key
    }

    pub closed spec fn buf(&self) -> FrameBuffer<T, P> {
        self.buf
    }

    /// Access the buffer.
    pub fn buffer(&self) -> (r: &FrameBuffer<T, P>)
        ensures
            *r == self.buf(),
    {
        &self.buf
    }

    /// Mutable access to the buffer.
    pub fn buffer_mut(&mut self) -> (r: &mut FrameBuffer<T, P>)
        ensures
            *r == old(self).buf(),
            final(self).buf() == *final(r),
            final(self).key() == old(self).key(),
    {
        &mut self.buf
    }

    /// Takes the buffer out for good: it will not go back to any pool.
    pub fn into_inner(self) -> (r: FrameBuffer<T, P>)
        ensures
            r == self.buf(),
    {
        self.buf
    }

    /// Gives the buffer back to `pool`: it is kept idle under its key while
    /// the key has fewer idle buffers than the pool's capacity, and freed
    /// through the pool's factory otherwise.
    pub fn release<F: BufferFactory<T, P>>(self, pool: &mut BufferPool<T, P, F>) where
        P: PartialEq + Copy,

        requires
            old(pool).wf(),
        ensures
            BufferPool::release_spec(*old(pool), *final(pool), self.key(), self.buf()),
    {
        pool.give_back(self.key, self.buf);
    }
}

impl<T, P: PartialEq + Copy, F: BufferFactory<T, P>> BufferPool<T, P, F> {
    /// The most idle buffers kept for one key.
    pub closed spec fn capacity(&self) -> nat {
        self.capacity_per_key as nat
    }

    /// The idle buffers of key `k`, the one reused next last.
    pub closed spec fn idle(&self, k: BufKey<P>) -> Seq<FrameBuffer<T, P>> {
        if self.idle_map@.contains_key(k) {
            self.idle_map@[k]
        } else {
            Seq::empty()
        }
    }

    /// The idle buffers of all keys together.
    pub closed spec fn idle_count(&self) -> nat {
        bucket_total(self.buckets@)
    }

    /// How many buffers this pool has had the factory create.
    pub closed spec fn created(&self) -> nat {
        self.created@
    }

    /// How many buffers this pool has handed to the factory to free.
    pub closed spec fn freed(&self) -> nat {
        self.freed@
    }

    /// The buffers this pool has handed to the factory to free, each as often
    /// as it was handed.
    pub closed spec fn freed_buffers(&self) -> Multiset<FrameBuffer<T, P>> {
        self.freed_log@.to_multiset()
    }

    /// The idle buffers of all keys together, as a multiset.
    pub closed spec fn idle_entries(&self) -> Multiset<FrameBuffer<T, P>> {
        flat(self.buckets@).to_multiset()
    }

    /// How many buffers `get` has handed out.
    pub closed spec fn gets(&self) -> nat {
        self.gets@
    }

    /// How many buffers have been given back through `release`.
    pub closed spec fn releases(&self) -> nat {
        self.releases@
    }

    pub closed spec fn factory_spec(&self) -> F {
        self.factory
    }

    pub closed spec fn wf(&self) -> bool {
        &&& obeys_concrete_eq::<P>()
        &&& forall|i: int, j: int|
            0 <= i < j < self.buckets@.len() ==> self.buckets@[i].key != self.buckets@[j].key
        &&& forall|i: int|
            0 <= i < self.buckets@.len() ==> #[trigger] self.idle_map@.contains_key(
                self.buckets@[i].key,
            ) && self.idle_map@[self.buckets@[i].key] == self.buckets@[i].entries@
                && self.buckets@[i].entries@.len() <= self.capacity_per_key
        &&& covers(self.idle_map@, self.buckets@)
        &&& forall|i: int, e: int|
            0 <= i < self.buckets@.len() && 0 <= e < self.buckets@[i].entries@.len()
                ==> #[trigger] tags_of(self.buckets@[i].entries@[e]) == self.buckets@[i].key
        &&& self.created@ + self.releases@ == self.freed@ + bucket_total(self.buckets@)
            + self.gets@
    }

    /// A pool that keeps at most `capacity_per_key` idle buffers per key and
    /// makes new ones with `factory`.
    pub fn new(capacity_per_key: usize, factory: F) -> (r: Self)
        requires
            obeys_concrete_eq::<P>(),
        ensures
            r.wf(),
            r.capacity() == capacity_per_key,
            r.factory_spec() == factory,
            forall|k: BufKey<P>| r.idle(k).len() == 0,
            r.idle_count() == 0,
            r.created() == 0,
            r.freed() == 0,
            r.freed_buffers() == Multiset::<FrameBuffer<T, P>>::empty(),
            r.gets() == 0,
            r.releases() == 0,
    {
        proof {
            assert(Seq::<FrameBuffer<T, P>>::empty().to_multiset() =~= Multiset::empty());
        }
        BufferPool {
            capacity_per_key,
            factory,
            buckets: Vec::new(),
            idle_map: Ghost(Map::empty()),
            created: Ghost(0),
            freed: Ghost(0),
            freed_log: Ghost(Seq::empty()),
            gets: Ghost(0),
            releases: Ghost(0),
        }
    }

    /// The factory that makes and frees this pool's buffers.
    pub fn factory(&self) -> (r: &F)
        ensures
            *r == self.factory_spec(),
    {
        &self.factory
    }

    /// What `get` does: the last idle buffer of the key is reused when there
    /// is one; otherwise the factory is asked for a new one, and its failure
    /// is handed on with the pool unchanged.
    pub open spec fn get_spec(
        pre: Self,
        post: Self,
        k: BufKey<P>,
        r: Result<PooledFrame<T, P>, VideoProcessingError>,
    ) -> bool {
        &&& post.wf()
        &&& post.capacity() == pre.capacity()
        &&& post.freed() == pre.freed()
        &&& post.freed_buffers() == pre.freed_buffers()
        &&& post.releases() == pre.releases()
        &&& forall|j: BufKey<P>| j != k ==> #[trigger] post.idle(j) == pre.idle(j)
        &&& if pre.idle(k).len() > 0 {
            &&& r is Ok
            &&& r->Ok_0.buf() == pre.idle(k).last()
            &&& post.idle(k) == pre.idle(k).drop_last()
            &&& post.created() == pre.created()
            &&& post.gets() == pre.gets() + 1
        } else {
            &&& post.idle(k) == pre.idle(k)
            &&& r is Ok ==> post.created() == pre.created() + 1 && post.gets() == pre.gets() + 1
            &&& r is Err ==> post.created() == pre.created() && post.gets() == pre.gets()
        }
        &&& r is Ok ==> r->Ok_0.key() == k && tags_of(r->Ok_0.buf()) == k
    }

    /// What giving a buffer back does: it joins the idle buffers of its key,
    /// tagged with that key, while there is room, and is freed otherwise.
    pub open spec fn release_spec(pre: Self, post: Self, k: BufKey<P>, buf: FrameBuffer<T, P>) -> bool {
        &&& post.wf()
        &&& post.capacity() == pre.capacity()
        &&& post.created() == pre.created()
        &&& post.gets() == pre.gets()
        &&& post.releases() == pre.releases() + 1
        &&& forall|j: BufKey<P>| j != k ==> #[trigger] post.idle(j) == pre.idle(j)
        &&& if pre.idle(k).len() < pre.capacity() {
            &&& post.idle(k) == pre.idle(k).push(stamped(buf, k))
            &&& post.freed() == pre.freed()
            &&& post.freed_buffers() == pre.freed_buffers()
        } else {
            &&& post.idle(k) == pre.idle(k)
            &&& post.freed() == pre.freed() + 1
            &&& post.freed_buffers() == pre.freed_buffers().insert(stamped(buf, k))
        }
    }

    /// A buffer of the given dimensions, stride and format: the idle buffer of
    /// that key that was given back last, or a new one from the factory.
    pub fn get(&mut self, width: u32, height: u32, stride: usize, format: P) -> (r: Result<
        PooledFrame<T, P>,
        VideoProcessingError,
    >)
        requires
            old(self).wf(),
        ensures
            Self::get_spec(*old(self), *final(self), buf_key(width, height, stride, format), r),
    {
        let key = BufKey { width, height, stride, format };
        let found = self.find(&key);
        if let Some(i) = found {
            if self.buckets[i].entries.len() > 0 {
                let ghost pre_buckets = self.buckets@;
                let ghost pre_entries = self.buckets@[i as int].entries@;
                let popped = self.buckets[i].entries.pop();
                assert(self.buckets@[i as int].key == key);
                assert(self.buckets@[i as int].entries@ =~= pre_entries.drop_last());
                assert(popped == Some(pre_entries.last()));
                match popped {
                    Some(buf) => {
                        proof {
                            let ghost pre_map = self.idle_map@;
                            assert(self.buckets@ =~= pre_buckets.update(i as int, self.buckets@[i as int]));
                            lemma_bucket_total_update(pre_buckets, i as int, self.buckets@[i as int]);
                            self.idle_map@ = self.idle_map@.insert(key, self.buckets@[i as int].entries@);
                            self.gets@ = self.gets@ + 1;
                            assert forall|j: int| 0 <= j < self.buckets@.len() implies #[trigger] self.idle_map@.contains_key(
                                self.buckets@[j].key,
                            ) && self.idle_map@[self.buckets@[j].key] == self.buckets@[j].entries@
                                && self.buckets@[j].entries@.len() <= self.capacity_per_key by {
                                assert(pre_map.contains_key(pre_buckets[j].key));
                                if j != i {
                                    assert(pre_buckets[j].key != key);
                                }
                            }
                            lemma_covers_insert(pre_map, pre_buckets, self.buckets@, key);
                        }
                        return Ok(PooledFrame { key, buf });
                    },
                    None => {},
                }
            }
        }
        let made = self.factory.create(width, height, stride, &format);
        match made {
            Ok(buf) => {
                proof {
                    self.created@ = self.created@ + 1;
                    self.gets@ = self.gets@ + 1;
                }
                Ok(PooledFrame { key, buf })
            },
            Err(e) => Err(e),
        }
    }

    /// Keeps `buf` idle under `key` while there is room, else frees it.
    fn give_back(&mut self, key: BufKey<P>, buf: FrameBuffer<T, P>)
        requires
            old(self).wf(),
        ensures
            Self::release_spec(*old(self), *final(self), key, buf),
    {
        let buf = FrameBuffer {
            width: key.width,
            height: key.height,
            stride: key.stride,
            format: key.format,
            inner: buf.inner,
        };
        let found = self.find(&key);
        proof {
            self.releases@ = self.releases@ + 1;
        }
        match found {
            Some(i) => {
                if self.buckets[i].entries.len() < self.capacity_per_key {
                    let ghost pre_buckets = self.buckets@;
                    let ghost pre_map = self.idle_map@;
                    self.buckets[i].entries.push(buf);
                    proof {
                        assert(self.buckets@ =~= pre_buckets.update(i as int, self.buckets@[i as int]));
                        lemma_bucket_total_update(pre_buckets, i as int, self.buckets@[i as int]);
                        self.idle_map@ = self.idle_map@.insert(key, self.buckets@[i as int].entries@);
                        assert forall|j: int| 0 <= j < self.buckets@.len() implies #[trigger] self.idle_map@.contains_key(
                            self.buckets@[j].key,
                        ) && self.idle_map@[self.buckets@[j].key] == self.buckets@[j].entries@
                            && self.buckets@[j].entries@.len() <= self.capacity_per_key by {
                            assert(pre_map.contains_key(pre_buckets[j].key));
                            if j != i {
                                assert(pre_buckets[j].key != key);
                            }
                        }
                        lemma_covers_insert(pre_map, pre_buckets, self.buckets@, key);
                    }
                } else {
                    let ghost g = buf;
                    let _ = self.factory.free(buf);
                    proof {
                        vstd::seq_lib::to_multiset_build(self.freed_log@, g);
                        self.freed@ = self.freed@ + 1;
                        self.freed_log@ = self.freed_log@.push(g);
                    }
                }
            },
            None => {
                if self.capacity_per_key > 0 {
                    let ghost pre_buckets = self.buckets@;
                    let ghost pre_map = self.idle_map@;
                    let entries = vec![buf];
                    let b = Bucket { key, entries };
                    self.buckets.push(b);
                    proof {
                        lemma_bucket_total_push(pre_buckets, b);
                        self.idle_map@ = self.idle_map@.insert(key, seq![buf]);
                        assert(self.buckets@[self.buckets@.len() - 1].entries@ =~= seq![buf]);
                        lemma_covers_insert(pre_map, pre_buckets, self.buckets@, key);
                        assert forall|j: int| 0 <= j < self.buckets@.len() implies #[trigger] self.idle_map@.contains_key(
                            self.buckets@[j].key,
                        ) && self.idle_map@[self.buckets@[j].key] == self.buckets@[j].entries@
                            && self.buckets@[j].entries@.len() <= self.capacity_per_key by {
                            if j < pre_buckets.len() {
                                assert(pre_map.contains_key(pre_buckets[j].key));
                            }
                        }
                    }
                } else {
                    let ghost g = buf;
                    let _ = self.factory.free(buf);
                    proof {
                        vstd::seq_lib::to_multiset_build(self.freed_log@, g);
                        self.freed@ = self.freed@ + 1;
                        self.freed_log@ = self.freed_log@.push(g);
                    }
                }
            },
        }
    }

    /// Frees every idle buffer of every key through the factory: each idle
    /// buffer is handed to it exactly once, and no other.
    pub fn free_idle(&mut self)
        requires
            old(self).wf(),
        ensures
            final(self).wf(),
            final(self).freed() == old(self).freed() + old(self).idle_count(),
            final(self).freed_buffers() == old(self).freed_buffers().add(old(self).idle_entries()),
            final(self).idle_entries() == Multiset::<FrameBuffer<T, P>>::empty(),
            final(self).idle_count() == 0,
            forall|k: BufKey<P>| #[trigger] final(self).idle(k).len() == 0,
            final(self).capacity() == old(self).capacity(),
            final(self).created() == old(self).created(),
            final(self).gets() == old(self).gets(),
            final(self).releases() == old(self).releases(),
    {
        let ghost freed0 = self.freed@;
        let ghost total0 = bucket_total(self.buckets@);
        let ghost m0 = self.freed_log@.to_multiset().add(flat(self.buckets@).to_multiset());
        while self.buckets.len() > 0
            invariant
                obeys_concrete_eq::<P>(),
                self.created@ + self.releases@ == self.freed@ + bucket_total(self.buckets@)
                    + self.gets@,
                self.freed@ + bucket_total(self.buckets@) == freed0 + total0,
                self.freed_log@.to_multiset().add(flat(self.buckets@).to_multiset()) == m0,
                self.capacity_per_key == old(self).capacity_per_key,
                self.created@ == old(self).created@,
                self.gets@ == old(self).gets@,
                self.releases@ == old(self).releases@,
            decreases self.buckets@.len(),
        {
            let ghost pre_buckets = self.buckets@;
            let popped = self.buckets.pop();
            assert(self.buckets@ =~= pre_buckets.drop_last());
            if let Some(b) = popped {
                assert(flat(pre_buckets) == flat(self.buckets@) + b.entries@);
                proof {
                    vstd::seq_lib::lemma_multiset_commutative(flat(self.buckets@), b.entries@);
                }
                let mut entries = b.entries;
                assert(self.freed_log@.to_multiset().add(flat(self.buckets@).to_multiset()).add(
                    entries@.to_multiset(),
                ) =~= m0);
                while entries.len() > 0
                    invariant
                        obeys_concrete_eq::<P>(),
                        self.created@ + self.releases@ == self.freed@ + bucket_total(self.buckets@)
                            + entries@.len() + self.gets@,
                        self.freed@ + bucket_total(self.buckets@) + entries@.len() == freed0 + total0,
                        self.freed_log@.to_multiset().add(flat(self.buckets@).to_multiset()).add(
                            entries@.to_multiset(),
                        ) == m0,
                        self.buckets@ == pre_buckets.drop_last(),
                        self.capacity_per_key == old(self).capacity_per_key,
                        self.created@ == old(self).created@,
                        self.gets@ == old(self).gets@,
                        self.releases@ == old(self).releases@,
                    decreases entries@.len(),
                {
                    let ghost pre_entries = entries@;
                    if let Some(e) = entries.pop() {
                        let ghost g = e;
                        assert(pre_entries =~= entries@.push(g));
                        proof {
                            vstd::seq_lib::to_multiset_build(entries@, g);
                        }
                        let _ = self.factory.free(e);
                        proof {
                            self.freed@ = self.freed@ + 1;
                            vstd::seq_lib::to_multiset_build(self.freed_log@, g);
                            self.freed_log@ = self.freed_log@.push(g);
                            assert(self.freed_log@.to_multiset().add(flat(self.buckets@).to_multiset()).add(
                                entries@.to_multiset(),
                            ) =~= m0);
                        }
                    }
                }
                assert(entries@.to_multiset() =~= Multiset::empty());
                assert(self.freed_log@.to_multiset().add(flat(self.buckets@).to_multiset()) =~= m0);
            }
            assert(self.buckets@.len() < pre_buckets.len());
        }
        proof {
            self.idle_map@ = Map::empty();
            assert(flat(self.buckets@) =~= Seq::<FrameBuffer<T, P>>::empty());
            assert(self.freed_log@.to_multiset() =~= m0);
        }
    }

    /// In every pool that `new`, `get`, `release` and `free_idle` produce, no
    /// key holds more idle buffers than the capacity, and the buffers created
    /// minus those freed are exactly those idle plus those handed out by `get`
    /// and not given back.
    pub proof fn lemma_accounting(&self)
        requires
            self.wf(),
        ensures
            forall|k: BufKey<P>| #[trigger] self.idle(k).len() <= self.capacity(),
            self.created() - self.freed() == self.idle_count() + (self.gets() - self.releases()),
    {
        assert forall|k: BufKey<P>| #[trigger] self.idle(k).len() <= self.capacity() by {
            if self.idle_map@.contains_key(k) {
                let i = choose|i: int| 0 <= i < self.buckets@.len() && self.buckets@[i].key == k;
                assert(self.idle_map@.contains_key(self.buckets@[i].key));
            }
        }
    }

    /// Asking for a key, giving the buffer back and asking for the same key
    /// again hands out the same buffer without creating a new one, as long as
    /// the capacity is at least one.
    pub proof fn lemma_reuse_after_release(
        p0: Self,
        p1: Self,
        p2: Self,
        p3: Self,
        k: BufKey<P>,
        h1: PooledFrame<T, P>,
        r2: Result<PooledFrame<T, P>, VideoProcessingError>,
    )
        requires
            p0.wf(),
            p0.capacity() >= 1,
            Self::get_spec(p0, p1, k, Ok(h1)),
            Self::release_spec(p1, p2, h1.key(), h1.buf()),
            Self::get_spec(p2, p3, k, r2),
        ensures
            r2 is Ok,
            r2->Ok_0.buf() == h1.buf(),
            p3.created() == p1.created(),
    {
        p0.lemma_accounting();
        assert(p1.idle(k).len() < p1.capacity());
        assert(p2.idle(k) == p1.idle(k).push(h1.buf()));
    }

    /// The position of the bucket of `key`, if there is one.
    fn find(&self, key: &BufKey<P>) -> (r: Option<usize>)
        requires
            self.wf(),
        ensures
            match r {
                Some(i) => i < self.buckets@.len() && self.buckets@[i as int].key == *key,
                None => !self.idle_map@.contains_key(*key),
            },
    {
        let mut i: usize = 0;
        while i < self.buckets.len()
            invariant
                self.wf(),
                0 <= i <= self.buckets@.len(),
                forall|j: int| 0 <= j < i ==> self.buckets@[j].key != *key,
            decreases self.buckets@.len() - i,
        {
            if same_key(&self.buckets[i].key, key) {
                return Some(i);
            }
            i = i + 1;
        }
        None
    }
}

} // verus!
