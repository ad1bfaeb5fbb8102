use bt_hci_darwin::address::{AddressKind, DeviceAddress};
use bt_hci_darwin::dedup::{DedupCache, DedupPolicy, FIFO_CAPACITY, SET_CAPACITY};

fn addr(n: u32) -> DeviceAddress {
    let b = n.to_le_bytes();
    DeviceAddress::public([b[0], b[1], b[2], b[3], 0x5a, 0xa5])
}

#[test]
fn capacities_are_the_documented_ones() {
    assert_eq!(FIFO_CAPACITY, 128);
    assert_eq!(SET_CAPACITY, 32);
    assert_eq!(DedupCache::new(DedupPolicy::Fifo).capacity(), 128);
    assert_eq!(DedupCache::new(DedupPolicy::FixedSet).capacity(), 32);
}

#[test]
fn policy_is_kept() {
    assert_eq!(DedupCache::new(DedupPolicy::Fifo).policy(), DedupPolicy::Fifo);
    assert_eq!(DedupCache::new(DedupPolicy::FixedSet).policy(), DedupPolicy::FixedSet);
}

#[test]
fn new_cache_has_seen_nothing() {
    for policy in [DedupPolicy::Fifo, DedupPolicy::FixedSet] {
        let cache = DedupCache::new(policy);
        assert!(!cache.seen(&addr(1)));
    }
}

#[test]
fn recorded_address_is_seen() {
    for policy in [DedupPolicy::Fifo, DedupPolicy::FixedSet] {
        let mut cache = DedupCache::new(policy);
        cache.record(&addr(1));
        assert!(cache.seen(&addr(1)));
        assert!(!cache.seen(&addr(2)));
    }
}

#[test]
fn kind_is_no_part_of_identity() {
    for policy in [DedupPolicy::Fifo, DedupPolicy::FixedSet] {
        let mut cache = DedupCache::new(policy);
        cache.record(&DeviceAddress::new([1, 2, 3, 4, 5, 6], AddressKind::Public));
        assert!(cache.seen(&DeviceAddress::new([1, 2, 3, 4, 5, 6], AddressKind::Random)));
        assert!(!cache.seen(&DeviceAddress::new([6, 5, 4, 3, 2, 1], AddressKind::Public)));
    }
}

#[test]
fn every_byte_of_the_address_counts() {
    for policy in [DedupPolicy::Fifo, DedupPolicy::FixedSet] {
        let mut cache = DedupCache::new(policy);
        cache.record(&DeviceAddress::public([0, 0, 0, 0, 0, 0]));
        for i in 0..6 {
            let mut raw = [0u8; 6];
            raw[i] = 1;
            assert!(!cache.seen(&DeviceAddress::public(raw)));
            raw[i] = 0x80;
            assert!(!cache.seen(&DeviceAddress::public(raw)));
        }
    }
}

#[test]
fn fifo_evicts_the_oldest_when_full() {
    let mut cache = DedupCache::new(DedupPolicy::Fifo);
    for n in 0..128 {
        cache.record(&addr(n));
    }
    for n in 0..128 {
        assert!(cache.seen(&addr(n)));
    }
    cache.record(&addr(128));
    assert!(cache.seen(&addr(128)));
    assert!(!cache.seen(&addr(0)));
    for n in 1..128 {
        assert!(cache.seen(&addr(n)));
    }
    cache.record(&addr(129));
    assert!(!cache.seen(&addr(1)));
    assert!(cache.seen(&addr(2)));
}

#[test]
fn fifo_keeps_an_address_for_a_capacity_of_newer_ones() {
    let mut cache = DedupCache::new(DedupPolicy::Fifo);
    cache.record(&addr(1000));
    for n in 0..127 {
        cache.record(&addr(n));
        assert!(cache.seen(&addr(1000)));
    }
    cache.record(&addr(127));
    assert!(!cache.seen(&addr(1000)));
}

#[test]
fn fifo_record_of_a_seen_address_changes_nothing() {
    let mut cache = DedupCache::new(DedupPolicy::Fifo);
    for n in 0..128 {
        cache.record(&addr(n));
    }
    cache.record(&addr(0));
    cache.record(&addr(64));
    for n in 0..128 {
        assert!(cache.seen(&addr(n)));
    }
    cache.record(&addr(500));
    assert!(!cache.seen(&addr(0)));
    assert!(cache.seen(&addr(1)));
}

#[test]
fn fifo_wraps_around_many_times() {
    let mut cache = DedupCache::new(DedupPolicy::Fifo);
    for n in 0..1000 {
        cache.record(&addr(n));
    }
    for n in 0..872 {
        assert!(!cache.seen(&addr(n)));
    }
    for n in 872..1000 {
        assert!(cache.seen(&addr(n)));
    }
}

#[test]
fn fixed_set_takes_nothing_once_full() {
    let mut cache = DedupCache::new(DedupPolicy::FixedSet);
    for n in 0..32 {
        cache.record(&addr(n));
    }
    cache.record(&addr(32));
    assert!(!cache.seen(&addr(32)));
    for n in 0..32 {
        assert!(cache.seen(&addr(n)));
    }
}

#[test]
fn fixed_set_keeps_what_it_has_for_good() {
    let mut cache = DedupCache::new(DedupPolicy::FixedSet);
    cache.record(&addr(7));
    for n in 100..400 {
        cache.record(&addr(n));
        assert!(cache.seen(&addr(7)));
    }
    assert!(cache.seen(&addr(130)));
    assert!(!cache.seen(&addr(131)));
}

#[test]
fn fixed_set_record_of_a_seen_address_takes_no_room() {
    let mut cache = DedupCache::new(DedupPolicy::FixedSet);
    for _ in 0..100 {
        cache.record(&addr(1));
    }
    for n in 2..33 {
        cache.record(&addr(n));
    }
    for n in 1..33 {
        assert!(cache.seen(&addr(n)));
    }
}
