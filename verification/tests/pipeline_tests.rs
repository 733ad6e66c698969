use stale_sweep::pipeline::{answer_confirms, Event, Pipeline, ScanFailure};
use stale_sweep::scan::Entry;
use stale_sweep::Error;

const DAY_NANOS: u128 = 86_400_000_000_000;

#[test]
fn only_the_exact_single_y_confirms() {
    assert!(answer_confirms("y"));
    assert!(!answer_confirms("Y"));
    assert!(!answer_confirms("yes"));
    assert!(!answer_confirms(""));
    assert!(!answer_confirms(" y"));
    assert!(!answer_confirms("y "));
    assert!(!answer_confirms("n"));
}

#[test]
fn old_entry_removed_fresh_entry_kept_count_reported() {
    let now: u128 = 20000 * DAY_NANOS;
    let st = Pipeline::AwaitingArgs;
    let st = st.step(Event::ArgsRead {
        path: "/tmp/target".to_string(),
        duration_text: "30d".to_string(),
    });
    assert!(matches!(st, Pipeline::AwaitingClock { ref duration_secs, .. } if *duration_secs == 30 * 86400));
    let st = st.step(Event::ClockRead { now_nanos: now });
    assert!(
        matches!(st, Pipeline::AwaitingAnswer { ref threshold_nanos, .. } if *threshold_nanos == now - 30 * DAY_NANOS)
    );
    let st = st.step(Event::AnswerRead { line: "y".to_string() });
    assert!(matches!(st, Pipeline::AwaitingScan { .. }));
    let entries = vec![
        Entry { name: "a.txt".to_string(), modified_nanos: now - 40 * DAY_NANOS },
        Entry { name: "b.txt".to_string(), modified_nanos: now - DAY_NANOS },
    ];
    let st = st.step(Event::ScanCompleted { outcome: Ok(entries) });
    match &st {
        Pipeline::Removing { pending, next } => {
            assert_eq!(pending.len(), 1);
            assert_eq!(pending[0].name, "a.txt");
            assert_eq!(*next, 0);
        }
        other => panic!("expected the removal stage, got {:?}", state_name(other)),
    }
    let st = st.step(Event::RemovalAttempted { removed: true });
    match st {
        Pipeline::Finished { removed } => assert_eq!(removed, 1),
        other => panic!("expected Finished, got {:?}", state_name(&other)),
    }
}

#[test]
fn declining_cancels_with_no_removals() {
    let st = Pipeline::AwaitingAnswer { path: "/tmp/target".to_string(), threshold_nanos: 5 };
    let st = st.step(Event::AnswerRead { line: "n".to_string() });
    assert!(matches!(st, Pipeline::Failed { error: Error::Cancelled }));
}

#[test]
fn malformed_duration_fails_before_any_later_stage() {
    let st = Pipeline::AwaitingArgs;
    let st = st.step(Event::ArgsRead {
        path: "/tmp/target".to_string(),
        duration_text: "abc".to_string(),
    });
    match st {
        Pipeline::Failed { error: Error::InvalidArgument { name } } => {
            assert_eq!(name, "duration")
        }
        other => panic!("expected InvalidArgument, got {:?}", state_name(&other)),
    }
}

#[test]
fn unreadable_target_fails_with_the_directory_name() {
    let st = Pipeline::AwaitingScan { path: "/no/such/dir".to_string(), threshold_nanos: 5 };
    let st = st.step(Event::ScanCompleted { outcome: Err(ScanFailure::DirUnreadable) });
    match st {
        Pipeline::Failed { error: Error::ReadDirError { dirname } } => {
            assert_eq!(dirname, "/no/such/dir")
        }
        other => panic!("expected ReadDirError, got {:?}", state_name(&other)),
    }
}

#[test]
fn unreadable_entry_and_metadata_failures() {
    let st = Pipeline::AwaitingScan { path: "p".to_string(), threshold_nanos: 5 };
    let st = st.step(Event::ScanCompleted { outcome: Err(ScanFailure::EntryUnreadable) });
    assert!(matches!(st, Pipeline::Failed { error: Error::ReadDirEntryError }));

    let st = Pipeline::AwaitingScan { path: "p".to_string(), threshold_nanos: 5 };
    let st = st.step(Event::ScanCompleted { outcome: Err(ScanFailure::MetadataUnavailable) });
    assert!(matches!(st, Pipeline::Failed { error: Error::ReadFileError }));
}

#[test]
fn empty_scan_finishes_with_zero_removed() {
    let st = Pipeline::AwaitingScan { path: "p".to_string(), threshold_nanos: 5 };
    let st = st.step(Event::ScanCompleted { outcome: Ok(Vec::new()) });
    assert!(matches!(st, Pipeline::Finished { removed: 0 }));
}

#[test]
fn failed_removal_stops_with_the_filename() {
    let pending = vec![
        Entry { name: "one".to_string(), modified_nanos: 0 },
        Entry { name: "two".to_string(), modified_nanos: 0 },
        Entry { name: "three".to_string(), modified_nanos: 0 },
    ];
    let st = Pipeline::Removing { pending, next: 0 };
    let st = st.step(Event::RemovalAttempted { removed: true });
    assert!(matches!(st, Pipeline::Removing { ref next, .. } if *next == 1));
    let st = st.step(Event::RemovalAttempted { removed: false });
    match st {
        Pipeline::Failed { error: Error::DeleteFailed { filename } } => {
            assert_eq!(filename, "two")
        }
        other => panic!("expected DeleteFailed, got {:?}", state_name(&other)),
    }
}

#[test]
fn excessive_duration_underflows_the_clock() {
    let st = Pipeline::AwaitingClock { path: "p".to_string(), duration_secs: 2 * 86400 };
    let st = st.step(Event::ClockRead { now_nanos: DAY_NANOS });
    assert!(matches!(st, Pipeline::Failed { error: Error::TimeSubtractionError }));
}

fn state_name(s: &Pipeline) -> &'static str {
    match s {
        Pipeline::AwaitingArgs => "AwaitingArgs",
        Pipeline::AwaitingClock { .. } => "AwaitingClock",
        Pipeline::AwaitingAnswer { .. } => "AwaitingAnswer",
        Pipeline::AwaitingScan { .. } => "AwaitingScan",
        Pipeline::Removing { .. } => "Removing",
        Pipeline::Finished { .. } => "Finished",
        Pipeline::Failed { .. } => "Failed",
    }
}
