use grafiska::{decode, encode, is_valid, Buffer, Image, Pool, ResourceHandle, ResourceState};

fn index_of(h: &Buffer) -> u16 {
    decode(h.id()).0
}

#[test]
fn encode_packs_unique_high_and_index_low() {
    assert_eq!(encode(3, 7), (7 << 16) | 3);
    assert_eq!(encode(0xFFFF, 0xFFFF), 0xFFFF_FFFF);
    assert_eq!(encode(0, 0), 0);
}

#[test]
fn decode_splits_index_and_unique() {
    assert_eq!(decode(0x0007_0003), (3, 7));
    assert_eq!(decode(0xFFFF_0001), (1, 0xFFFF));
}

#[test]
fn round_trip_on_sample_values() {
    for &(index, unique) in &[(0u16, 0u16), (1, 1), (65535, 0), (0, 65535), (1234, 4321), (65535, 65535)] {
        assert_eq!(decode(encode(index, unique)), (index, unique));
    }
}

#[test]
fn invalid_sentinel() {
    assert!(!is_valid(0));
    assert!(is_valid(1));
    assert_eq!(Buffer::default().id(), 0);
}

#[test]
fn new_pool_allocates_from_index_one() {
    let mut p: Pool<Buffer, u32> = Pool::new(4);
    let h = p.allocate().unwrap();
    assert_eq!(decode(h.id()), (1, 1));
    let h2 = p.allocate().unwrap();
    assert_eq!(decode(h2.id()), (2, 2));
}

#[test]
fn capacity_bound_exact() {
    for n in [1usize, 2, 5, 16] {
        let mut p: Pool<Buffer, u32> = Pool::new(n);
        for _ in 0..n {
            assert!(p.allocate().is_some());
        }
        assert!(p.allocate().is_none());
    }
}

#[test]
fn capacity_bound_largest() {
    let n = 65535usize;
    let mut p: Pool<Image, u8> = Pool::new(n);
    let mut count = 0usize;
    while let Some(h) = p.allocate() {
        assert_ne!(h.id(), 0);
        count += 1;
    }
    assert_eq!(count, n);
}

#[test]
fn try_new_rejects_bad_capacities() {
    assert!(Pool::<Buffer, u32>::try_new(0).is_none());
    assert!(Pool::<Buffer, u32>::try_new(65536).is_none());
    assert!(Pool::<Buffer, u32>::try_new(1).is_some());
    assert!(Pool::<Buffer, u32>::try_new(65535).is_some());
}

#[test]
fn free_list_fifo_reuse() {
    let n = 5usize;
    let mut p: Pool<Buffer, u32> = Pool::new(n);
    let hs: Vec<Buffer> = (0..n).map(|_| p.allocate().unwrap()).collect();
    assert!(p.allocate().is_none());
    for idx in [3u16, 1, 2] {
        let h = hs.iter().find(|h| index_of(h) == idx).unwrap();
        assert!(p.destroy(h).is_some());
    }
    let reused: Vec<u16> = (0..3).map(|_| index_of(&p.allocate().unwrap())).collect();
    assert_eq!(reused, vec![3, 1, 2]);
}

#[test]
fn dangling_handle_detected_after_reuse() {
    let mut p: Pool<Buffer, &str> = Pool::new(1);
    let h = p.allocate().unwrap();
    assert!(p.set_valid(&h, "first"));
    assert_eq!(p.lookup(&h), Some((ResourceState::Valid, Some(&"first"))));
    assert!(p.destroy(&h).is_some());
    assert_eq!(p.lookup(&h), None);
    let h2 = p.allocate().unwrap();
    assert_eq!(index_of(&h2), index_of(&h));
    assert_ne!(h2.id(), h.id());
    assert_eq!(p.lookup(&h), None);
    assert_eq!(p.lookup(&h2), Some((ResourceState::Alloc, None)));
    assert!(p.set_valid(&h2, "second"));
    assert_eq!(p.lookup(&h), None);
    assert_eq!(p.lookup_state(&h), None);
    assert_eq!(p.lookup(&h2), Some((ResourceState::Valid, Some(&"second"))));
}

#[test]
fn live_handles_are_distinct() {
    let mut p: Pool<Buffer, u32> = Pool::new(8);
    let mut live: Vec<Buffer> = Vec::new();
    for round in 0..20u32 {
        if round % 3 == 2 {
            let h = live.remove(0);
            assert!(p.destroy(&h).is_some());
        } else if let Some(h) = p.allocate() {
            live.push(h);
        }
        for (i, a) in live.iter().enumerate() {
            for b in &live[i + 1..] {
                assert_ne!(decode(a.id()), decode(b.id()));
            }
        }
    }
}

#[test]
fn lifecycle_states() {
    let mut p: Pool<Buffer, u32> = Pool::new(3);
    let a = p.allocate().unwrap();
    assert_eq!(p.lookup_state(&a), Some(ResourceState::Alloc));
    assert_eq!(p.lookup(&a), Some((ResourceState::Alloc, None)));
    assert!(p.set_valid(&a, 10));
    assert_eq!(p.lookup_state(&a), Some(ResourceState::Valid));
    assert_eq!(p.lookup(&a), Some((ResourceState::Valid, Some(&10))));
    assert!(!p.set_failed(&a, 11));
    let b = p.allocate().unwrap();
    assert!(p.set_failed(&b, 20));
    assert_eq!(p.lookup_state(&b), Some(ResourceState::Failed));
    assert!(!p.set_valid(&b, 21));
    assert_eq!(p.destroy(&a), Some(Some(10)));
    assert_eq!(p.destroy(&b), Some(Some(20)));
    assert_eq!(p.lookup_state(&a), None);
    // The never-used index 3 comes first, then the freed ones in order.
    let c = p.allocate().unwrap();
    assert_eq!(index_of(&c), 3);
    assert_eq!(p.lookup_state(&c), Some(ResourceState::Alloc));
    assert_eq!(p.destroy(&c), Some(None));
    assert_eq!(index_of(&p.allocate().unwrap()), index_of(&a));
    assert_eq!(index_of(&p.allocate().unwrap()), index_of(&b));
    assert_eq!(index_of(&p.allocate().unwrap()), 3);
}

#[test]
fn double_destroy_is_ignored() {
    let mut p: Pool<Buffer, u32> = Pool::new(2);
    let a = p.allocate().unwrap();
    assert_eq!(p.destroy(&a), Some(None));
    assert_eq!(p.destroy(&a), None);
    let b = p.allocate().unwrap();
    let c = p.allocate().unwrap();
    assert!(p.allocate().is_none());
    assert_ne!(decode(b.id()).0, decode(c.id()).0);
}

#[test]
fn lookup_mut_updates_payload() {
    let mut p: Pool<Buffer, u32> = Pool::new(2);
    let a = p.allocate().unwrap();
    assert_eq!(p.lookup_mut(&a), Some((ResourceState::Alloc, None)));
    assert!(p.set_valid(&a, 1));
    if let Some((ResourceState::Valid, Some(x))) = p.lookup_mut(&a) {
        *x = 42;
    } else {
        panic!("a valid resource resolves with its payload");
    }
    assert_eq!(p.lookup(&a), Some((ResourceState::Valid, Some(&42))));
    let stale = Buffer::with(a.id() + (1 << 16));
    assert!(p.lookup_mut(&stale).is_none());
}

#[test]
fn out_of_range_handle_is_rejected() {
    let p: Pool<Buffer, u32> = Pool::new(2);
    assert_eq!(p.lookup(&Buffer::with(encode(9, 1))), None);
    assert_eq!(p.lookup_state(&Buffer::with(0)), None);
}

#[test]
fn fresh_handle_resolves() {
    let mut p: Pool<Buffer, u32> = Pool::new(1);
    let h = p.allocate().unwrap();
    assert_eq!(p.lookup(&h), Some((ResourceState::Alloc, None)));
    let (index, unique) = decode(h.id());
    assert_eq!(p.lookup(&Buffer::with(encode(index, unique))), Some((ResourceState::Alloc, None)));
    assert_eq!(p.lookup(&Buffer::with(encode(index, unique + 1))), None);
}

#[test]
fn stale_handle_rejected_until_tag_wraps() {
    let mut p: Pool<Buffer, u32> = Pool::new(1);
    let h = p.allocate().unwrap();
    assert!(p.destroy(&h).is_some());
    for _ in 0..100 {
        let g = p.allocate().unwrap();
        assert_ne!(g.id(), h.id());
        assert_eq!(p.lookup(&h), None);
        assert!(p.lookup(&g).is_some());
        assert!(p.destroy(&g).is_some());
    }
}
