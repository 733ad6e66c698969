use stale_sweep::scan::{classify_entries, is_old, select_old, Entry};
use stale_sweep::threshold::compute_threshold;
use stale_sweep::Error;

#[test]
fn zero_duration_keeps_now() {
    assert_eq!(compute_threshold(1000, 0).unwrap(), 1000);
}

#[test]
fn positive_duration_moves_strictly_back() {
    let now: u128 = 10_000_000_000;
    let t = compute_threshold(now, 1).unwrap();
    assert_eq!(t, 9_000_000_000);
    assert!(t < now);
}

#[test]
fn underflow_is_time_subtraction_error() {
    match compute_threshold(5, 1) {
        Err(Error::TimeSubtractionError) => {}
        other => panic!("expected TimeSubtractionError, got {:?}", other),
    }
}

#[test]
fn strictly_earlier_is_old_equal_is_not() {
    assert!(is_old(99, 100));
    assert!(!is_old(100, 100));
    assert!(!is_old(101, 100));
}

#[test]
fn classification_keeps_order_and_flags() {
    let entries = vec![
        Entry { name: "fresh".to_string(), modified_nanos: 500 },
        Entry { name: "stale".to_string(), modified_nanos: 10 },
        Entry { name: "boundary".to_string(), modified_nanos: 100 },
    ];
    let classified = classify_entries(entries, 100);
    assert_eq!(classified.len(), 3);
    assert_eq!(classified[0].0.name, "fresh");
    assert!(!classified[0].1);
    assert_eq!(classified[1].0.name, "stale");
    assert!(classified[1].1);
    assert_eq!(classified[2].0.name, "boundary");
    assert!(!classified[2].1);
}

#[test]
fn selection_keeps_exactly_the_old_in_order() {
    let entries = vec![
        Entry { name: "a".to_string(), modified_nanos: 1 },
        Entry { name: "b".to_string(), modified_nanos: 200 },
        Entry { name: "c".to_string(), modified_nanos: 2 },
    ];
    let old = select_old(classify_entries(entries, 100));
    assert_eq!(old.len(), 2);
    assert_eq!(old[0].name, "a");
    assert_eq!(old[1].name, "c");
}

#[test]
fn nothing_old_selects_nothing() {
    let entries = vec![Entry { name: "a".to_string(), modified_nanos: 100 }];
    let old = select_old(classify_entries(entries, 100));
    assert!(old.is_empty());
}
