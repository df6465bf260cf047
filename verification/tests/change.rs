use sitegen::change::{ChangeBatch, ChangeDetector, DEBOUNCE_MILLIS};

fn paths(batch: &ChangeBatch) -> Vec<String> {
    batch.paths().clone()
}

#[test]
fn debounce_window_is_fifty_milliseconds() {
    assert_eq!(DEBOUNCE_MILLIS, 50);
}

#[test]
fn empty_batch_is_never_made() {
    assert!(ChangeBatch::new(Vec::new()).is_none());
}

#[test]
fn batch_keeps_paths_in_order() {
    let batch = ChangeBatch::new(vec!["a.md".to_string(), "b.md".to_string()]).unwrap();
    assert_eq!(batch.len(), 2);
    assert_eq!(batch.first_path(), "a.md");
    assert_eq!(paths(&batch), vec!["a.md".to_string(), "b.md".to_string()]);
}

#[test]
fn new_detector_has_no_deadline() {
    let mut detector = ChangeDetector::new(DEBOUNCE_MILLIS);
    assert_eq!(detector.window(), 50);
    assert_eq!(detector.deadline(), None);
    assert!(detector.poll(1_000).is_none());
}

#[test]
fn burst_of_ten_events_is_one_batch() {
    let mut detector = ChangeDetector::new(DEBOUNCE_MILLIS);
    let mut delivered = 0;
    for i in 0..10u64 {
        let at = 100 + 10 * i;
        if detector.record(format!("post-{}.md", i), at).is_some() {
            delivered += 1;
        }
        // a poll in the middle of the burst hands out nothing
        if detector.poll(at + 5).is_some() {
            delivered += 1;
        }
    }
    assert_eq!(delivered, 0);
    assert_eq!(detector.deadline(), Some(190 + 50));
    assert!(detector.poll(239).is_none());
    let batch = detector.poll(240).expect("the burst has paused for a window");
    assert_eq!(batch.len(), 10);
    assert_eq!(batch.first_path(), "post-0.md");
    assert_eq!(paths(&batch)[9], "post-9.md");
    assert_eq!(detector.deadline(), None);
    assert!(detector.poll(10_000).is_none());
}

#[test]
fn spaced_events_are_one_batch_each() {
    let mut detector = ChangeDetector::new(DEBOUNCE_MILLIS);
    let mut batches: Vec<Vec<String>> = Vec::new();
    for i in 0..5u64 {
        let at = 1_000 + 60 * i;
        if let Some(batch) = detector.record(format!("page-{}.hbs", i), at) {
            batches.push(paths(&batch));
        }
    }
    if let Some(batch) = detector.poll(1_000 + 60 * 4 + 50) {
        batches.push(paths(&batch));
    }
    assert_eq!(
        batches,
        vec![
            vec!["page-0.hbs".to_string()],
            vec!["page-1.hbs".to_string()],
            vec!["page-2.hbs".to_string()],
            vec!["page-3.hbs".to_string()],
            vec!["page-4.hbs".to_string()],
        ]
    );
}

#[test]
fn spaced_events_with_timely_polls_are_one_batch_each() {
    let mut detector = ChangeDetector::new(DEBOUNCE_MILLIS);
    let mut batches = 0;
    for i in 0..4u64 {
        let at = 500 * i;
        assert!(detector.record("style.scss".to_string(), at).is_none());
        let deadline = detector.deadline().unwrap();
        assert_eq!(deadline, at + 50);
        let batch = detector.poll(deadline).unwrap();
        assert_eq!(paths(&batch), vec!["style.scss".to_string()]);
        batches += 1;
    }
    assert_eq!(batches, 4);
}

#[test]
fn continuous_writes_delay_delivery() {
    let mut detector = ChangeDetector::new(DEBOUNCE_MILLIS);
    // one write every 49 ms for five seconds: the window never passes
    let mut at = 0;
    while at < 5_000 {
        assert!(detector.record("big.md".to_string(), at).is_none());
        assert!(detector.poll(at + 48).is_none());
        at += 49;
    }
    let last = at - 49;
    assert!(detector.poll(last + 49).is_none());
    let batch = detector.poll(last + 50).unwrap();
    assert_eq!(batch.len(), 103);
}

#[test]
fn event_exactly_a_window_later_opens_a_new_batch() {
    let mut detector = ChangeDetector::new(DEBOUNCE_MILLIS);
    assert!(detector.record("a".to_string(), 10).is_none());
    assert!(detector.record("b".to_string(), 59).is_none());
    let closed = detector.record("c".to_string(), 109).unwrap();
    assert_eq!(paths(&closed), vec!["a".to_string(), "b".to_string()]);
    let rest = detector.poll(159).unwrap();
    assert_eq!(paths(&rest), vec!["c".to_string()]);
}

#[test]
fn deadline_saturates_at_the_end_of_the_clock() {
    let mut detector = ChangeDetector::new(DEBOUNCE_MILLIS);
    assert!(detector.record("late".to_string(), u64::MAX - 10).is_none());
    assert_eq!(detector.deadline(), Some(u64::MAX));
    assert!(detector.poll(u64::MAX).is_none());
}

#[test]
fn clock_set_back_counts_as_no_time_passed() {
    let mut detector = ChangeDetector::new(DEBOUNCE_MILLIS);
    assert!(detector.record("a".to_string(), 1_000).is_none());
    assert!(detector.poll(900).is_none());
    assert!(detector.record("b".to_string(), 900).is_none());
    assert_eq!(detector.deadline(), Some(950));
    let batch = detector.poll(950).unwrap();
    assert_eq!(batch.len(), 2);
}

#[test]
fn zero_window_closes_at_once() {
    let mut detector = ChangeDetector::new(0);
    assert!(detector.record("a".to_string(), 5).is_none());
    assert_eq!(detector.deadline(), Some(5));
    let first = detector.record("b".to_string(), 5).unwrap();
    assert_eq!(paths(&first), vec!["a".to_string()]);
    let second = detector.poll(5).unwrap();
    assert_eq!(paths(&second), vec!["b".to_string()]);
}
