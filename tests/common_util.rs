use xkb_keys::common_util::{
    strip_access_key, ClickCounter, Counter, Point, SharedQueue, MULTI_CLICK_INTERVAL_MS,
};

#[test]
fn strip_access_key_removes_markers() {
    assert_eq!(strip_access_key("E&xit"), "Exit");
    assert_eq!(strip_access_key("&File"), "File");
    assert_eq!(strip_access_key("Save && Quit"), "Save & Quit");
    assert_eq!(strip_access_key("A&&&B"), "A&B");
    assert_eq!(strip_access_key("&&&&"), "&&");
    assert_eq!(strip_access_key("trailing&"), "trailing");
    assert_eq!(strip_access_key(""), "");
    assert_eq!(strip_access_key("Gr&üße"), "Grüße");
}

#[test]
fn counter_counts_up_from_one() {
    let mut c = Counter::new();
    let mut last = 0u64;
    for i in 1..=100u64 {
        let v = c.next();
        assert_eq!(v, i);
        assert!(v > last);
        last = v;
    }
    assert_eq!(c.next_nonzero(), 101);
    assert_eq!(c.next(), 102);
}

#[test]
fn click_counter_runs_and_resets() {
    let mut cc = ClickCounter::default();
    assert_eq!(cc.count_for_click_at(0, Point::new(0, 0)), 1);
    assert_eq!(cc.count_for_click_at(100, Point::new(1, 0)), 2);
    assert_eq!(cc.count_for_click_at(150, Point::new(100, 0)), 1);
}

#[test]
fn click_counter_resets_after_interval() {
    let mut cc = ClickCounter::new(MULTI_CLICK_INTERVAL_MS, 5);
    assert_eq!(cc.count_for_click_at(0, Point::new(3, 4)), 1);
    assert_eq!(cc.count_for_click_at(500, Point::new(3, 4)), 2);
    assert_eq!(cc.count_for_click_at(1001, Point::new(3, 4)), 1);
    // exactly on the distance threshold still continues the run
    assert_eq!(cc.count_for_click_at(1002, Point::new(6, 8)), 2);
    assert_eq!(cc.count_for_click_at(1003, Point::new(6, 14)), 1);
}

#[test]
fn click_counter_settings_apply() {
    let mut cc = ClickCounter::new(500, 5);
    cc.set_interval_ms(50);
    assert_eq!(cc.count_for_click_at(0, Point::new(0, 0)), 1);
    assert_eq!(cc.count_for_click_at(60, Point::new(0, 0)), 1);
    cc.set_distance(0);
    assert_eq!(cc.count_for_click_at(61, Point::new(0, 0)), 2);
    assert_eq!(cc.count_for_click_at(62, Point::new(0, 1)), 1);
}

#[test]
fn click_counter_saturates_at_255() {
    let mut cc = ClickCounter::default();
    let mut last = 0u8;
    for i in 0..1000u64 {
        last = cc.count_for_click_at(i, Point::new(7, 7));
    }
    assert_eq!(last, 255);
}

#[test]
fn click_counter_extreme_positions() {
    let mut cc = ClickCounter::new(500, u32::MAX);
    assert_eq!(cc.count_for_click_at(0, Point::new(i32::MIN, i32::MIN)), 1);
    assert_eq!(cc.count_for_click_at(1, Point::new(i32::MAX, i32::MAX)), 1);
    assert_eq!(cc.count_for_click_at(2, Point::new(i32::MAX, 0)), 2);
}

#[test]
fn click_counter_with_clock() {
    let mut cc = ClickCounter::default();
    assert_eq!(cc.count_for_click(Point::new(0, 0)), 1);
}

#[test]
fn shared_queue_wake_signal() {
    let mut q: SharedQueue<u32> = SharedQueue::new();
    assert!(q.enqueue(1));
    assert!(!q.enqueue(2));
    assert_eq!(q.try_dequeue(), Some(1));
    assert!(!q.enqueue(3));
    assert_eq!(q.try_dequeue(), Some(2));
    assert_eq!(q.try_dequeue(), Some(3));
    assert_eq!(q.try_dequeue(), None);
    assert_eq!(q.len(), 0);
    assert!(q.enqueue(4));
    assert!(!q.enqueue(5));
    assert_eq!(q.len(), 2);
}

#[test]
fn shared_queue_empty_poll_rearms() {
    let mut q: SharedQueue<&str> = SharedQueue::new();
    assert_eq!(q.try_dequeue(), None);
    assert_eq!(q.try_dequeue(), None);
    assert!(q.enqueue("a"));
    assert_eq!(q.try_dequeue(), Some("a"));
    // drained but not yet polled empty: a wake is still pending
    assert!(!q.enqueue("b"));
    assert_eq!(q.try_dequeue(), Some("b"));
    assert_eq!(q.try_dequeue(), None);
    assert!(q.enqueue("c"));
}
