use body_metrics::metrics::body_tracker::{BodyTracker, PollEvent};

#[test]
fn handle_reads_zero_before_any_poll() {
    let tracker = BodyTracker::new(());
    let handle = tracker.handle();
    assert_eq!(handle.read(), 0);
    assert_eq!(tracker.bytes_read(), 0);
}

#[test]
fn handle_reads_the_sum_after_every_chunk() {
    let lengths: [usize; 4] = [5, 3, 0, 11];
    let mut tracker = BodyTracker::new(());
    let handle = tracker.handle();
    let mut sum = 0;
    for len in lengths {
        tracker.record(PollEvent::Chunk(len));
        sum += len;
        assert_eq!(handle.read(), sum);
        assert_eq!(tracker.bytes_read(), sum);
    }
    assert_eq!(handle.read(), 19);
    assert_eq!(tracker.bytes_read(), 19);
}

#[test]
fn only_chunks_are_counted() {
    let mut tracker = BodyTracker::new(());
    let handle = tracker.handle();
    tracker.record(PollEvent::Pending);
    tracker.record(PollEvent::Chunk(7));
    tracker.record(PollEvent::Pending);
    tracker.record(PollEvent::Failed);
    assert_eq!(handle.read(), 7);
    tracker.record(PollEvent::Chunk(2));
    tracker.record(PollEvent::End);
    assert_eq!(handle.read(), 9);
    assert_eq!(tracker.bytes_read(), 9);
}

#[test]
fn an_error_is_not_counted() {
    let mut tracker = BodyTracker::new(());
    let handle = tracker.handle();
    tracker.record(PollEvent::Failed);
    assert_eq!(handle.read(), 0);
}

#[test]
fn empty_body_reads_zero_at_every_point() {
    let mut tracker = BodyTracker::new(());
    let before = tracker.handle();
    assert_eq!(before.read(), 0);
    tracker.record(PollEvent::End);
    assert_eq!(before.read(), 0);
    let after = tracker.handle();
    assert_eq!(after.read(), 0);
    drop(tracker);
    assert_eq!(before.read(), 0);
    assert_eq!(after.read(), 0);
}

#[test]
fn clones_of_a_handle_report_the_same_value() {
    let mut tracker = BodyTracker::new(());
    let first = tracker.handle();
    let early = first.clone();
    tracker.record(PollEvent::Chunk(4));
    let middle = first.clone();
    tracker.record(PollEvent::Chunk(6));
    tracker.record(PollEvent::End);
    let late = early.clone();
    let fresh = tracker.handle();
    for handle in [&first, &early, &middle, &late, &fresh] {
        assert_eq!(handle.read(), 10);
    }
}

#[test]
fn handle_outlives_the_tracker() {
    let mut tracker = BodyTracker::new(vec![1u8, 2, 3]);
    let handle = tracker.handle();
    tracker.record(PollEvent::Chunk(3));
    drop(tracker);
    assert_eq!(handle.read(), 3);
}

#[test]
fn handle_does_not_touch_the_body() {
    let mut tracker = BodyTracker::new(vec![1u8, 2, 3]);
    let _handle = tracker.handle();
    tracker.record(PollEvent::Chunk(3));
    assert_eq!(tracker.body_ref(), &vec![1u8, 2, 3]);
    tracker.body_mut().push(4);
    assert_eq!(tracker.body_ref(), &vec![1u8, 2, 3, 4]);
}

#[test]
fn trackers_do_not_share_a_counter() {
    let mut one = BodyTracker::new(());
    let mut other = BodyTracker::new(());
    let handle_one = one.handle();
    let handle_other = other.handle();
    one.record(PollEvent::Chunk(1));
    other.record(PollEvent::Chunk(20));
    assert_eq!(handle_one.read(), 1);
    assert_eq!(handle_other.read(), 20);
}

#[test]
fn counter_wraps_around() {
    let mut tracker = BodyTracker::new(());
    let handle = tracker.handle();
    tracker.record(PollEvent::Chunk(usize::MAX));
    assert_eq!(handle.read(), usize::MAX);
    tracker.record(PollEvent::Chunk(2));
    assert_eq!(handle.read(), 1);
    assert_eq!(tracker.bytes_read(), 1);
}

#[test]
fn the_tracker_reads_what_its_handles_read() {
    let mut tracker = BodyTracker::new(());
    let handle = tracker.handle();
    for len in [2usize, 3, 1] {
        tracker.record(PollEvent::Chunk(len));
        assert_eq!(tracker.bytes_read(), handle.read());
    }
    tracker.record(PollEvent::End);
    assert_eq!(tracker.bytes_read(), 6);
    assert_eq!(handle.read(), 6);
}

#[test]
fn a_handle_beside_its_tracker_reads_the_count() {
    let mut tracker = BodyTracker::new(());
    let handle = tracker.handle();
    assert_eq!(handle.read_of(&tracker), 0);
    tracker.record(PollEvent::Chunk(2));
    assert_eq!(handle.read_of(&tracker), 2);
    tracker.record(PollEvent::Chunk(3));
    assert_eq!(handle.read_of(&tracker), 5);
    tracker.record(PollEvent::Pending);
    tracker.record(PollEvent::Failed);
    assert_eq!(handle.read_of(&tracker), 5);
    tracker.record(PollEvent::Chunk(1));
    tracker.record(PollEvent::End);
    let clone = handle.clone();
    let late = tracker.handle();
    assert_eq!(handle.read_of(&tracker), 6);
    assert_eq!(clone.read_of(&tracker), 6);
    assert_eq!(late.read_of(&tracker), 6);
    assert_eq!(handle.read(), 6);
    assert_eq!(tracker.bytes_read(), 6);
}

#[test]
fn a_handle_beside_its_tracker_reads_a_wrapped_count() {
    let mut tracker = BodyTracker::new(());
    let handle = tracker.handle();
    tracker.record(PollEvent::Chunk(usize::MAX));
    tracker.record(PollEvent::Chunk(5));
    assert_eq!(handle.read_of(&tracker), 4);
}
