use libfsm_api::alloc_guard::AllocGuard;

#[test]
fn guard_detects_write_one_past_usable_region() {
    // 16 usable bytes with 8-byte canaries: 32 bytes reserved in all.
    let mut g = AllocGuard::malloc(8, 16).unwrap();
    assert_eq!(g.data_size(), 16);
    assert_eq!(g.data_offset(), 8);
    assert!(g.check());
    for i in 0..16 {
        g.write_data(i, 0xAA);
    }
    assert!(g.check());
    // the 17th byte lands on the back canary
    g.write_raw(8 + 16, 0xAA);
    assert!(!g.check());
}

#[test]
fn check_succeeds_immediately_after_construction() {
    let g = AllocGuard::malloc(4, 10).unwrap();
    assert!(g.check());
    let c = AllocGuard::calloc(4, 5, 2).unwrap();
    assert!(c.check());
}

#[test]
fn release_poisons_whole_region() {
    let g = AllocGuard::malloc(8, 16).unwrap();
    let region = g.free();
    assert_eq!(region.len(), 32);
    assert!(region.iter().all(|b| *b == 0x58));
}

#[test]
fn zero_guard_width_degrades_to_plain_allocation() {
    let mut g = AllocGuard::malloc(0, 4).unwrap();
    assert!(g.check());
    g.write_data(0, 1);
    assert!(g.check());
    assert_eq!(g.free().len(), 4);
}

#[test]
fn zero_sized_data_is_legal() {
    let g = AllocGuard::malloc(4, 0).unwrap();
    assert_eq!(g.data_size(), 0);
    assert!(g.check());
    assert_eq!(g.free().len(), 8);
}

#[test]
fn overflowing_total_allocates_nothing() {
    assert!(AllocGuard::malloc(usize::MAX, 1).is_none());
    assert!(AllocGuard::malloc(1, usize::MAX).is_none());
    assert!(AllocGuard::malloc(usize::MAX / 2 + 1, 0).is_none());
}

#[test]
fn calloc_zero_fills_and_checks_product() {
    let g = AllocGuard::calloc(2, 4, 3).unwrap();
    assert_eq!(g.data_size(), 12);
    for i in 0..12 {
        assert_eq!(g.read_data(i), 0);
    }
    assert!(g.check());
    assert!(AllocGuard::calloc(2, usize::MAX, 2).is_none());
}

#[test]
fn front_canary_corruption_detected() {
    let mut g = AllocGuard::malloc(2, 2).unwrap();
    g.write_raw(0, 0);
    assert!(!g.check());
}

#[test]
fn data_writes_round_trip() {
    let mut g = AllocGuard::malloc(3, 4).unwrap();
    g.write_data(0, 10);
    g.write_data(3, 20);
    assert_eq!(g.read_data(0), 10);
    assert_eq!(g.read_data(3), 20);
    assert!(g.check());
}
