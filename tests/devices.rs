use gpu_video::{device_key, HWDeviceCache};
use std::cell::Cell;

#[test]
fn key_of_default_device_is_type() {
    assert_eq!(device_key(7, None), 7 << 32);
    assert_eq!(device_key(7, Some("")), 7 << 32);
}

#[test]
fn key_adds_crc_of_name() {
    assert_eq!(device_key(1, Some("abc")), (1 << 32) + 0x352441C2);
    assert_eq!(device_key(0, Some("123456789")), 0xCBF43926);
}

#[test]
fn same_type_and_name_created_once() {
    let made = Cell::new(0);
    let mut cache: HWDeviceCache<u32> = HWDeviceCache::new();
    let a = *cache.get_or_create(4, Some("gpu0"), || {
        made.set(made.get() + 1);
        Some(10)
    }).unwrap();
    let b = *cache.get_or_create(4, Some("gpu0"), || {
        made.set(made.get() + 1);
        Some(20)
    }).unwrap();
    assert_eq!((a, b), (10, 10));
    assert_eq!(made.get(), 1);
    assert_eq!(cache.len(), 1);
}

#[test]
fn different_names_get_distinct_entries() {
    let mut cache: HWDeviceCache<u32> = HWDeviceCache::new();
    cache.get_or_create(4, Some("gpu0"), || Some(1));
    cache.get_or_create(4, Some("gpu1"), || Some(2));
    cache.get_or_create(4, None, || Some(3));
    assert_eq!(cache.len(), 3);
    assert_eq!(cache.get(device_key(4, Some("gpu1"))), Some(&2));
    assert_eq!(cache.get(device_key(4, None)), Some(&3));
}

#[test]
fn failed_creation_is_retried_later() {
    let mut cache: HWDeviceCache<u32> = HWDeviceCache::new();
    assert_eq!(cache.get_or_create(2, None, || None), None);
    assert!(!cache.contains(device_key(2, None)));
    assert_eq!(cache.get_or_create(2, None, || Some(5)), Some(&5));
    assert!(cache.contains(2 << 32));
}

#[test]
fn types_and_names_never_share_a_key() {
    assert_ne!(device_key(2, None), device_key(1, Some("x")));
    assert_ne!(device_key(1, Some("gpu0")), device_key(1, Some("gpu1")));
}
