use vstd::prelude::*;
use std::collections::HashMap;
use vstd::utf8::encode_utf8;

verus! {

broadcast use vstd::std_specs::hash::group_hash_axioms;

/// The CRC-32 checksum that `crc32fast::hash` gives for these bytes.
pub uninterp spec fn crc32_of(bytes: Seq<u8>) -> u32;

/// Relies on `crc32fast::hash`: the CRC-32 (IEEE) checksum of the bytes,
/// which is zero for no bytes.
#[verifier::external_body]
fn crc32(bytes: &[u8]) -> (r: u32)
    ensures
        r == crc32_of(bytes@),
        bytes@.len() == 0 ==> r == 0,
{
    crc32fast::hash(bytes)
}

/// The hash of a device name: the checksum of its UTF-8 bytes, zero for no name.
pub open spec fn name_hash(name: Option<Seq<char>>) -> u32 {
    match name {
        Some(n) => crc32_of(encode_utf8(n)),
        None => 0,
    }
}

/// The cache key of a device: its type code in the high half, the hash of
/// its name in the low half, so that each pair has its own key.
pub open spec fn device_key_spec(device_type: u32, name: Option<Seq<char>>) -> u64 {
    (device_type as u64 * 0x1_0000_0000 + name_hash(name) as u64) as u64
}

pub open spec fn name_view(name: Option<&str>) -> Option<Seq<char>> {
    match name {
        Some(n) => Some(n@),
        None => None,
    }
}

/// The key under which the device of this type and name is cached; an
/// absent or empty name means the default device of the type.
pub fn device_key(device_type: u32, device_name: Option<&str>) -> (r: u64)
    ensures
        r == device_key_spec(device_type, name_view(device_name)),
        device_name is Some && device_name->0@.len() == 0 ==> r == device_type as u64
            * 0x1_0000_0000,
{
    let hash: u32 = match device_name {
        Some(n) => crc32(n.as_bytes()),
        None => 0,
    };
    device_type as u64 * 0x1_0000_0000 + hash as u64
}

/// What `get_or_create` does to the cache: an entry that is there is kept
/// and returned; a missing one is added only from what creation gave; no
/// other entry changes.
pub open spec fn get_or_create_spec<D>(
    pre: Map<u64, D>,
    post: Map<u64, D>,
    key: u64,
    r: Option<D>,
) -> bool {
    &&& pre.contains_key(key) ==> post == pre && r == Some(pre[key])
    &&& post.remove(key) == pre.remove(key)
    &&& match r {
        Some(d) => post.contains_key(key) && post[key] == d,
        None => !post.contains_key(key),
    }
}

/// Device contexts, created once per key and kept for the cache's lifetime.
pub struct HWDeviceCache<D> {
    devices: HashMap<u64, D>,
}

impl<D> HWDeviceCache<D> {
    pub closed spec fn view(&self) -> Map<u64, D> {
        self.devices@
    }

    /// An empty cache.
    pub fn new() -> (r: Self)
        ensures
            r.view() == Map::<u64, D>::empty(),
    {
        HWDeviceCache { devices: HashMap::new() }
    }

    /// How many devices are cached.
    pub fn len(&self) -> (r: usize)
        ensures
            r == self.view().len(),
    {
        self.devices.len()
    }

    /// Whether a device is cached under `key`.
    pub fn contains(&self, key: u64) -> (r: bool)
        ensures
            r == self.view().contains_key(key),
    {
        self.devices.contains_key(&key)
    }

    /// The device cached under `key`, if any.
    pub fn get(&self, key: u64) -> (r: Option<&D>)
        ensures
            match r {
                Some(d) => self.view().contains_key(key) && *d == self.view()[key],
                None => !self.view().contains_key(key),
            },
    {
        self.devices.get(&key)
    }

    /// The device of this type and name: the cached one if there is one,
    /// otherwise the one `create` makes, which is cached from then on. A
    /// cached device is never replaced, so no key ever gets a second context.
    pub fn get_or_create<F: FnOnce() -> Option<D>>(
        &mut self,
        device_type: u32,
        device_name: Option<&str>,
        create: F,
    ) -> (r: Option<&D>)
        requires
            create.requires(()),
        ensures
            get_or_create_spec(
                old(self).view(),
                final(self).view(),
                device_key_spec(device_type, name_view(device_name)),
                match r {
                    Some(d) => Some(*d),
                    None => None,
                },
            ),
            !old(self).view().contains_key(device_key_spec(device_type, name_view(device_name)))
                ==> create.ensures(
                (),
                match r {
                    Some(d) => Some(*d),
                    None => None,
                },
            ),
            !old(self).view().contains_key(device_key_spec(device_type, name_view(device_name)))
                && r is Some ==> final(self).view() == old(self).view().insert(
                device_key_spec(device_type, name_view(device_name)),
                *r->0,
            ),
    {
        let key = device_key(device_type, device_name);
        if !self.devices.contains_key(&key) {
            if let Some(dev) = create() {
                self.devices.insert(key, dev);
            }
        }
        proof {
            assert(self.devices@.remove(key) =~= old(self).devices@.remove(key));
        }
        self.devices.get(&key)
    }
}

/// A hardware configuration that a codec offers: the device type it runs on
/// and the pixel format it decodes to.
#[derive(Debug, Clone, Copy, PartialEq, Eq, Structural)]
pub struct HwConfig {
    pub device_type: u32,
    pub pix_fmt: i32,
}

/// The device type code that stands for no device.
pub const DEVICE_TYPE_NONE: u32 = 0;

/// How many configurations of a codec are looked at, at most.
pub const MAX_HW_CONFIGS: usize = 20;

/// Whether configuration `j` names a device.
pub open spec fn names_device(configs: Seq<Option<HwConfig>>, j: int) -> bool {
    configs[j] is Some && configs[j]->0.device_type != DEVICE_TYPE_NONE
}

/// Configuration `j` was passed over: its device was not cached, and
/// `create` made none for its type.
pub open spec fn skipped<D, F: Fn(u32) -> Option<D>>(
    cache: Map<u64, D>,
    configs: Seq<Option<HwConfig>>,
    j: int,
    name: Option<Seq<char>>,
    create: F,
) -> bool {
    &&& !cache.contains_key(device_key_spec(configs[j]->0.device_type, name))
    &&& create.ensures((configs[j]->0.device_type,), None)
}

impl<D> HWDeviceCache<D> {
    /// Finds a device for decoding: the first configuration from `index` on
    /// (among the first `MAX_HW_CONFIGS`) that names a device which is cached
    /// or that `create` makes. `None` means no hardware device, and the
    /// caller decodes in software. Cached devices are never replaced.
    pub fn init_device_for_decoding<F: Fn(u32) -> Option<D>>(
        &mut self,
        index: usize,
        configs: &[Option<HwConfig>],
        device_name: Option<&str>,
        create: F,
    ) -> (r: Option<(usize, HwConfig)>)
        requires
            forall|t: u32| create.requires((t,)),
        ensures
            forall|k: u64|
                old(self).view().contains_key(k) ==> #[trigger] final(self).view().contains_key(k)
                    && final(self).view()[k] == old(self).view()[k],
            match r {
                Some((i, c)) => {
                    let key = device_key_spec(c.device_type, name_view(device_name));
                    &&& index <= i < configs@.len()
                    &&& i < MAX_HW_CONFIGS
                    &&& configs@[i as int] == Some(c)
                    &&& c.device_type != DEVICE_TYPE_NONE
                    &&& final(self).view().contains_key(key)
                    &&& forall|j: int|
                        index <= j < i && names_device(configs@, j) ==> skipped(
                            old(self).view(),
                            configs@,
                            j,
                            name_view(device_name),
                            create,
                        )
                    &&& old(self).view().contains_key(key) ==> final(self).view() == old(
                        self,
                    ).view()
                    &&& !old(self).view().contains_key(key) ==> create.ensures(
                        (c.device_type,),
                        Some(final(self).view()[key]),
                    ) && final(self).view() == old(self).view().insert(
                        key,
                        final(self).view()[key],
                    )
                },
                None => {
                    &&& final(self).view() == old(self).view()
                    &&& forall|j: int|
                        index <= j < configs@.len() && j < MAX_HW_CONFIGS && names_device(
                            configs@,
                            j,
                        ) ==> skipped(old(self).view(), configs@, j, name_view(device_name), create)
                },
            },
    {
        let end = if configs.len() < MAX_HW_CONFIGS {
            configs.len()
        } else {
            MAX_HW_CONFIGS
        };
        let mut i: usize = index;
        while i < end
            invariant
                end <= configs@.len(),
                end <= MAX_HW_CONFIGS,
                index <= i || end <= i,
                forall|t: u32| create.requires((t,)),
                self.view() == old(self).view(),
                forall|j: int|
                    index <= j < i && j < end && names_device(configs@, j) ==> skipped(
                        old(self).view(),
                        configs@,
                        j,
                        name_view(device_name),
                        create,
                    ),
            decreases end - i,
        {
            if let Some(c) = configs[i] {
                if c.device_type != DEVICE_TYPE_NONE {
                    let t = c.device_type;
                    let key = device_key(t, device_name);
                    if !self.devices.contains_key(&key) {
                        if let Some(dev) = create(t) {
                            self.devices.insert(key, dev);
                            return Some((i, c));
                        }
                    } else {
                        return Some((i, c));
                    }
                }
            }
            i = i + 1;
        }
        None
    }
}

/// Whatever creation gives, asking twice for the same type and name yields
/// the entry of the first answer and leaves the cache as the first call left
/// it: a second context is never made for one key.
pub proof fn lemma_single_creation<D>(
    c0: Map<u64, D>,
    c1: Map<u64, D>,
    c2: Map<u64, D>,
    device_type: u32,
    name: Option<Seq<char>>,
    d1: D,
    r2: Option<D>,
)
    requires
        get_or_create_spec(c0, c1, device_key_spec(device_type, name), Some(d1)),
        get_or_create_spec(c1, c2, device_key_spec(device_type, name), r2),
    ensures
        c2 == c1,
        r2 == Some(d1),
{
}

/// Two devices whose types or name hashes differ are cached under different
/// keys, so asking for one never touches the other's entry; in particular
/// two names of one type whose hashes differ get two entries.
pub proof fn lemma_distinct_names<D>(
    c0: Map<u64, D>,
    c1: Map<u64, D>,
    t1: u32,
    n1: Option<Seq<char>>,
    t2: u32,
    n2: Option<Seq<char>>,
    r: Option<D>,
)
    requires
        t1 != t2 || name_hash(n1) != name_hash(n2),
        get_or_create_spec(c0, c1, device_key_spec(t1, n1), r),
    ensures
        device_key_spec(t1, n1) != device_key_spec(t2, n2),
        c1.contains_key(device_key_spec(t2, n2)) == c0.contains_key(device_key_spec(t2, n2)),
        c0.contains_key(device_key_spec(t2, n2)) ==> c1[device_key_spec(t2, n2)]
            == c0[device_key_spec(t2, n2)],
{
    let k1 = device_key_spec(t1, n1);
    let k2 = device_key_spec(t2, n2);
    assert(k1 != k2) by (nonlinear_arith)
        requires
            t1 != t2 || name_hash(n1) != name_hash(n2),
            k1 == t1 as u64 * 0x1_0000_0000 + name_hash(n1) as u64,
            k2 == t2 as u64 * 0x1_0000_0000 + name_hash(n2) as u64,
            name_hash(n1) < 0x1_0000_0000,
            name_hash(n2) < 0x1_0000_0000,
    ;
    assert(c1.remove(k1).contains_key(k2) == c1.contains_key(k2));
    assert(c0.remove(k1).contains_key(k2) == c0.contains_key(k2));
    if c0.contains_key(k2) {
        assert(c1.remove(k1)[k2] == c1[k2]);
        assert(c0.remove(k1)[k2] == c0[k2]);
    }
}

/// Asking for two names of one device type whose hashes differ, with both
/// creations succeeding, leaves two entries: each name's own device.
pub proof fn lemma_two_entries<D>(
    c0: Map<u64, D>,
    c1: Map<u64, D>,
    c2: Map<u64, D>,
    device_type: u32,
    n1: Option<Seq<char>>,
    n2: Option<Seq<char>>,
    d1: D,
    d2: D,
)
    requires
        name_hash(n1) != name_hash(n2),
        get_or_create_spec(c0, c1, device_key_spec(device_type, n1), Some(d1)),
        get_or_create_spec(c1, c2, device_key_spec(device_type, n2), Some(d2)),
    ensures
        device_key_spec(device_type, n1) != device_key_spec(device_type, n2),
        c2.contains_key(device_key_spec(device_type, n1)),
        c2[device_key_spec(device_type, n1)] == d1,
        c2.contains_key(device_key_spec(device_type, n2)),
        c2[device_key_spec(device_type, n2)] == d2,
{
    lemma_distinct_names(c1, c2, device_type, n2, device_type, n1, Some(d2));
}

} // verus!
