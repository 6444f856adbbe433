use rpos::hrt::{HRTEntry, HRTQueue, Timespec, DURATION_1_MS};

#[test]
fn to_nano_exact_value() {
    let t = Timespec { sec: 1, nsec: 500 };
    assert_eq!(t.to_nano(), 1_000_000_500);

    let neg = Timespec { sec: -1, nsec: 0 };
    assert_eq!(neg.to_nano(), -1_000_000_000);
}

#[test]
fn from_secs_has_zero_nsec() {
    let t = Timespec::from_secs(7);
    assert_eq!(t.sec, 7);
    assert_eq!(t.nsec, 0);
    assert_eq!(t.to_nano(), 7_000_000_000);
}

#[test]
fn timespec_arithmetic() {
    let a = Timespec { sec: 2, nsec: 300 };
    let b = Timespec { sec: 1, nsec: 200 };

    let sum = a.add_ts(b);
    assert_eq!(sum.sec, 3);
    assert_eq!(sum.nsec, 500);

    let diff = a.sub_ts(b);
    assert_eq!(diff.sec, 1);
    assert_eq!(diff.nsec, 100);

    let shifted = a.add_nanos(1_000);
    assert_eq!(shifted.sec, 2);
    assert_eq!(shifted.nsec, 1_300);
}

#[test]
fn timespec_ordering_by_total_nanos() {
    // unnormalized instants compare by total nanoseconds, not field-wise
    let a = Timespec { sec: 0, nsec: 2_000_000_000 };
    let b = Timespec { sec: 1, nsec: 0 };
    assert!(a > b);
    assert!(b < a);

    let c = Timespec { sec: 1, nsec: 1_000_000_000 };
    let d = Timespec { sec: 2, nsec: 0 };
    assert_eq!(c.partial_cmp(&d), Some(std::cmp::Ordering::Equal));
    assert!(c >= d);
    assert!(c <= d);
}

#[test]
fn hrt_fires_in_deadline_order() {
    // enqueue A at 3s and B at 5s, out of order; pops follow deadlines
    let mut q: HRTQueue<&str> = HRTQueue::new();
    q.add(HRTEntry::new(Timespec::from_secs(5), "B"));
    q.add(HRTEntry::new(Timespec::from_secs(3), "A"));

    // at 1s neither is due
    assert!(q.pop_due(Timespec::from_secs(1)).is_none());

    // at 3.1s only A fires
    let t3_1 = Timespec { sec: 3, nsec: 100_000_000 };
    let fired = q.pop_due(t3_1).unwrap();
    assert_eq!(fired.callback, "A");
    assert!(q.pop_due(t3_1).is_none());

    // at 5.1s B fires as well
    let t5_1 = Timespec { sec: 5, nsec: 100_000_000 };
    let fired = q.pop_due(t5_1).unwrap();
    assert_eq!(fired.callback, "B");
    assert!(q.pop_due(t5_1).is_none());
}

#[test]
fn hrt_equal_deadlines_keep_insertion_order() {
    let mut q: HRTQueue<u32> = HRTQueue::new();
    let d = Timespec::from_secs(2);
    q.add(HRTEntry::new(d, 1));
    q.add(HRTEntry::new(d, 2));
    q.add(HRTEntry::new(d, 3));

    let now = Timespec::from_secs(2);
    assert_eq!(q.pop_due(now).unwrap().callback, 1);
    assert_eq!(q.pop_due(now).unwrap().callback, 2);
    assert_eq!(q.pop_due(now).unwrap().callback, 3);
}

#[test]
fn hrt_add_wakes_worker_only_for_new_head() {
    let mut q: HRTQueue<u32> = HRTQueue::new();
    // first entry of an empty queue is the head
    assert!(q.add(HRTEntry::new(Timespec::from_secs(4), 1)));
    // a later deadline does not move the head
    assert!(!q.add(HRTEntry::new(Timespec::from_secs(6), 2)));
    // an equal deadline goes after the head
    assert!(!q.add(HRTEntry::new(Timespec::from_secs(4), 3)));
    // a strictly earlier deadline becomes the new head
    assert!(q.add(HRTEntry::new(Timespec::from_secs(1), 4)));
}

#[test]
fn hrt_next_sleep_durations() {
    let mut q: HRTQueue<u32> = HRTQueue::new();
    let now = Timespec::from_secs(10);

    // empty queue: scan again after one millisecond
    assert_eq!(q.next_sleep(now), DURATION_1_MS);

    // head half a millisecond away: sleep exactly the remainder
    q.add(HRTEntry::new(Timespec { sec: 10, nsec: 500_000 }, 1));
    assert_eq!(q.next_sleep(now), 500_000);

    // head already due: no sleep
    assert_eq!(q.next_sleep(Timespec::from_secs(11)), 0);

    // head far away: the sleep is capped at one millisecond
    let mut far: HRTQueue<u32> = HRTQueue::new();
    far.add(HRTEntry::new(Timespec::from_secs(20), 1));
    assert_eq!(far.next_sleep(now), DURATION_1_MS);
}
