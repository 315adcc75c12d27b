use libfsm_api::layout::{checked_next_power_of_two, is_power_of_two, AllocLayout};

#[test]
fn next_power_of_two_values() {
    assert_eq!(checked_next_power_of_two(0), Some(1));
    assert_eq!(checked_next_power_of_two(1), Some(1));
    assert_eq!(checked_next_power_of_two(3), Some(4));
    assert_eq!(checked_next_power_of_two(100), Some(128));
    assert_eq!(checked_next_power_of_two(1 << 62), Some(1 << 62));
    assert_eq!(checked_next_power_of_two((1usize << 63) + 1), None);
    assert_eq!(checked_next_power_of_two(usize::MAX), None);
}

#[test]
fn power_of_two_recognition() {
    assert!(is_power_of_two(1));
    assert!(is_power_of_two(2));
    assert!(is_power_of_two(64));
    assert!(!is_power_of_two(0));
    assert!(!is_power_of_two(48));
    assert!(!is_power_of_two(usize::MAX));
}

#[test]
fn layout_accepts_only_valid_pairs() {
    assert_eq!(
        AllocLayout::from_size_align(16, 8),
        Some(AllocLayout { size: 16, align: 8 })
    );
    assert_eq!(
        AllocLayout::from_size_align(0, 1),
        Some(AllocLayout { size: 0, align: 1 })
    );
    assert!(AllocLayout::from_size_align(16, 3).is_none());
    assert!(AllocLayout::from_size_align(16, 0).is_none());
    assert!(AllocLayout::from_size_align(usize::MAX, 1).is_none());
    assert!(AllocLayout::from_size_align(isize::MAX as usize, 1).is_some());
    // rounds up to one past isize::MAX
    assert!(AllocLayout::from_size_align(isize::MAX as usize - 6, 8).is_none());
}
