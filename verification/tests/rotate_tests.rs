use history_ring::rotate::{ConstructionError, RotateVec};

#[test]
fn window_after_one_tick() {
    // capacity 4, initial [10, 20, 30, 40]: advance once, write 50 at the
    // logical last position, and the window reads [20, 30, 40, 50].
    let mut b = RotateVec::new(vec![10u64, 20, 30, 40]);
    b.move_start();
    if let Some(slot) = b.get_mut(3) {
        *slot = 50;
    }
    let window: Vec<u64> = b.to_vec();
    assert_eq!(window, vec![20, 30, 40, 50]);
    assert_eq!(*b.index(0), 20);
    assert_eq!(*b.index(1), 30);
    assert_eq!(*b.index(2), 40);
    assert_eq!(*b.index(3), 50);
}

#[test]
fn capacity_one_keeps_its_value() {
    // capacity 1, initial [7]: advancing any number of times never changes
    // what index 0 reads, until a write overwrites it.
    let mut b = RotateVec::new(vec![7u64]);
    for _ in 0..13 {
        b.move_start();
        assert_eq!(*b.index(0), 7);
    }
    if let Some(slot) = b.get_mut(0) {
        *slot = 9;
    }
    assert_eq!(*b.index(0), 9);
}

#[test]
fn advancing_capacity_times_is_identity() {
    // rotation is cyclic with period capacity: after exactly capacity
    // advances the whole window reads as before.
    let mut b = RotateVec::new(vec![1u32, 2, 3, 4, 5]);
    b.move_start();
    b.move_start();
    let before = b.to_vec();
    for _ in 0..5 {
        b.move_start();
    }
    assert_eq!(b.to_vec(), before);
}

#[test]
fn get_mut_in_range_always_some() {
    let mut b = RotateVec::new(vec![0i64, 1, 2]);
    for i in 0..3 {
        assert!(b.get_mut(i).is_some());
    }
    for i in 3..10 {
        assert!(b.get_mut(i).is_none());
    }
    // a rejected index leaves the window unchanged
    assert_eq!(b.to_vec(), vec![0, 1, 2]);
}

#[test]
fn len_is_invariant() {
    let mut b = RotateVec::new(vec![4u8, 5, 6]);
    assert_eq!(b.len(), 3);
    assert!(!b.is_empty());
    b.move_start();
    assert_eq!(b.len(), 3);
    if let Some(slot) = b.get_mut(2) {
        *slot = 7;
    }
    assert_eq!(b.len(), 3);
}

#[test]
fn zero_capacity_is_rejected() {
    let empty: Vec<u64> = Vec::new();
    assert_eq!(RotateVec::try_new(empty).unwrap_err(), ConstructionError);
}

#[test]
fn try_new_accepts_populated_store() {
    let b = RotateVec::try_new(vec![3u64, 1, 4]).unwrap();
    assert_eq!(b.to_vec(), vec![3, 1, 4]);
    assert_eq!(b.len(), 3);
}
