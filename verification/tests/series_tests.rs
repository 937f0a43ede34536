use history_ring::rotate::RotateVec;
use history_ring::series::{record_tick, AccessError, SharedSeries};

#[test]
fn wrap_and_snapshot() {
    let h = SharedSeries::wrap(RotateVec::new(vec![1u64, 2, 3]));
    assert_eq!(h.snapshot(), Ok(vec![1, 2, 3]));
}

#[test]
fn one_tick_through_the_handle() {
    // the producer's whole update runs as one exclusive section
    let h = SharedSeries::wrap(RotateVec::new(vec![10u64, 20, 30, 40]));
    assert_eq!(h.push_sample(50), Ok(()));
    assert_eq!(h.snapshot(), Ok(vec![20, 30, 40, 50]));
}

#[test]
fn clones_share_one_buffer() {
    let h = SharedSeries::wrap(RotateVec::new(vec![0u64, 0]));
    let h2 = h.clone_handle();
    assert_eq!(h.push_sample(5), Ok(()));
    assert_eq!(h2.push_sample(6), Ok(()));
    assert_eq!(h.snapshot(), Ok(vec![5, 6]));
    assert_eq!(h2.snapshot(), Ok(vec![5, 6]));
}

#[test]
fn record_tick_matches_the_window_transition() {
    let b = RotateVec::new(vec![1u32, 2, 3]);
    let b = record_tick(b, 4);
    assert_eq!(b.to_vec(), vec![2, 3, 4]);
    let b = record_tick(b, 5);
    assert_eq!(b.to_vec(), vec![3, 4, 5]);
}

#[test]
fn with_mut_applies_the_update() {
    let h = SharedSeries::wrap(RotateVec::new(vec![9u64, 9]));
    assert_eq!(h.with_mut(|b| record_tick(b, 1)), Ok(()));
    assert_eq!(h.snapshot(), Ok(vec![9, 1]));
}

#[test]
fn with_ref_reads_without_mutating() {
    let h = SharedSeries::wrap(RotateVec::new(vec![4u64, 2]));
    let first = h.with_ref(|b| *b.index(0));
    assert_eq!(first, Ok(4));
    assert_eq!(h.snapshot(), Ok(vec![4, 2]));
}

#[test]
fn shared_sections_may_nest() {
    // two simultaneous readers are not in conflicting modes
    let h = SharedSeries::wrap(RotateVec::new(vec![8u64]));
    let h2 = h.clone_handle();
    let r = h.with_ref(move |_b| h2.with_ref(|b2| *b2.index(0)));
    assert_eq!(r, Ok(Ok(8)));
}

#[test]
fn reentrant_mutation_is_reported() {
    // a producer section is never observably split: while it is open, any
    // read or second mutation through another handle fails loudly
    let h = SharedSeries::wrap(RotateVec::new(vec![10u64, 20, 30, 40]));
    let reader = h.clone_handle();
    let writer = h.clone_handle();
    let r = h.with_mut(move |b| {
        let mut b = b;
        // mid-section: the window is rotated, the new sample not yet written
        b.move_start();
        assert_eq!(reader.snapshot(), Err(AccessError::ReentrantAccessViolation));
        assert_eq!(writer.push_sample(99), Err(AccessError::ReentrantAccessViolation));
        if let Some(slot) = b.get_mut(3) {
            *slot = 50;
        }
        b
    });
    assert_eq!(r, Ok(()));
    // the half-done state was never readable; the finished one is
    assert_eq!(h.snapshot(), Ok(vec![20, 30, 40, 50]));
}

#[test]
fn mutation_under_a_reader_is_reported() {
    let h = SharedSeries::wrap(RotateVec::new(vec![3u64]));
    let h2 = h.clone_handle();
    let r = h.with_ref(move |_b| h2.push_sample(4));
    assert_eq!(r, Ok(Err(AccessError::ReentrantAccessViolation)));
    assert_eq!(h.snapshot(), Ok(vec![3]));
}
