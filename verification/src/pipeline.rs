use vstd::prelude::*;
use vstd::string::StrSliceExecFns;
use crate::duration::{duration_parses, duration_secs_value, parse_duration};
use crate::errors::Error;
use crate::scan::{classify_entries, select_old, spec_classify, spec_is_old, spec_select_old, Entry};
use crate::scan::lemma_not_old_never_selected;
use crate::threshold::{compute_threshold, duration_nanos};

verus! {

/// Why a scan failed, as the surrounding binary observed it.
pub enum ScanFailure {
    /// The target path could not be opened for listing.
    DirUnreadable,
    /// A directory entry within the listing could not be read.
    EntryUnreadable,
    /// Metadata or the modified time was unavailable for an entry.
    MetadataUnavailable,
}

/// One outside observation handed to the pipeline: the command-line
/// arguments, the clock, the prompt answer, the scan's outcome, or the
/// outcome of one removal attempt.
pub enum Event {
    /// The two required arguments were read.
    ArgsRead { path: String, duration_text: String },
    /// The wall clock was read, in nanoseconds since the epoch.
    ClockRead { now_nanos: u128 },
    /// One line of standard input was read at the confirmation prompt.
    AnswerRead { line: String },
    /// The listing of the target's immediate children completed, or failed.
    ScanCompleted { outcome: Result<Vec<Entry>, ScanFailure> },
    /// The removal of the entry next in the queue was attempted; `removed`
    /// says whether the entry is gone.
    RemovalAttempted { removed: bool },
}

/// The linear control flow of the sweeper. Each state waits for exactly one
/// observation; `Finished` and `Failed` wait for none, so a failure at any
/// stage is final and no later stage runs after it.
pub enum Pipeline {
    /// Waiting for the command-line arguments.
    AwaitingArgs,
    /// Arguments parsed; waiting for the clock.
    AwaitingClock { path: String, duration_secs: u64 },
    /// Cutoff computed; waiting for the answer to the confirmation prompt.
    AwaitingAnswer { path: String, threshold_nanos: u128 },
    /// Confirmed; waiting for the scan of the target's immediate children.
    AwaitingScan { path: String, threshold_nanos: u128 },
    /// Removing the queued old entries one at a time, in order; `next` is
    /// the index of the entry whose removal is to be attempted, and also
    /// the count of entries already removed.
    Removing { pending: Vec<Entry>, next: usize },
    /// Every queued entry was removed; `removed` is the count to report.
    Finished { removed: usize },
    /// The run failed; nothing further happens.
    Failed { error: Error },
}

impl Pipeline {
    /// The one observation a state waits for. Final states expect none.
    pub open spec fn expects(self, event: Event) -> bool {
        match self {
            Pipeline::AwaitingArgs => event is ArgsRead,
            Pipeline::AwaitingClock { .. } => event is ClockRead,
            Pipeline::AwaitingAnswer { .. } => event is AnswerRead,
            Pipeline::AwaitingScan { .. } => event is ScanCompleted,
            Pipeline::Removing { pending, next } => event is RemovalAttempted && next
                < pending@.len(),
            Pipeline::Finished { .. } => false,
            Pipeline::Failed { .. } => false,
        }
    }
}

/// How one observation advances the pipeline: `r` is the state after
/// `event` hits state `s`. Each stage's clause pins `r`.
pub open spec fn step_rel(s: Pipeline, event: Event, r: Pipeline) -> bool {
    &&& (s matches Pipeline::AwaitingArgs ==> (event matches Event::ArgsRead {
        path,
        duration_text,
    } ==> {
        &&& duration_parses(duration_text@) ==> r == (Pipeline::AwaitingClock {
            path,
            duration_secs: duration_secs_value(duration_text@) as u64,
        })
        &&& !duration_parses(duration_text@) ==> (r matches Pipeline::Failed { error }
            && error matches Error::InvalidArgument { name } && name@ == "duration"@)
    }))
    &&& (s matches Pipeline::AwaitingClock { path, duration_secs } ==> (event
        matches Event::ClockRead { now_nanos } ==> {
        &&& duration_nanos(duration_secs) <= now_nanos ==> r == (Pipeline::AwaitingAnswer {
            path,
            threshold_nanos: (now_nanos - duration_nanos(duration_secs)) as u128,
        })
        &&& duration_nanos(duration_secs) > now_nanos ==> r == (Pipeline::Failed {
            error: Error::TimeSubtractionError,
        })
    }))
    &&& (s matches Pipeline::AwaitingAnswer { path, threshold_nanos } ==> (event
        matches Event::AnswerRead { line } ==> {
        &&& line@ == "y"@ ==> r == (Pipeline::AwaitingScan { path, threshold_nanos })
        &&& line@ != "y"@ ==> r == (Pipeline::Failed { error: Error::Cancelled })
    }))
    &&& (s matches Pipeline::AwaitingScan { path, threshold_nanos } ==> (event
        matches Event::ScanCompleted { outcome } ==> {
        &&& (outcome matches Ok(entries) ==> {
            let queued = spec_select_old(spec_classify(entries@, threshold_nanos));
            &&& queued.len() == 0 ==> r == (Pipeline::Finished { removed: 0 })
            &&& queued.len() > 0 ==> (r matches Pipeline::Removing { pending, next } && pending@
                == queued && next == 0)
        })
        &&& (outcome matches Err(failure) ==> {
            &&& failure is DirUnreadable ==> r == (Pipeline::Failed {
                error: Error::ReadDirError { dirname: path },
            })
            &&& failure is EntryUnreadable ==> r == (Pipeline::Failed {
                error: Error::ReadDirEntryError,
            })
            &&& failure is MetadataUnavailable ==> r == (Pipeline::Failed {
                error: Error::ReadFileError,
            })
        })
    }))
    &&& (s matches Pipeline::Removing { pending, next } ==> (event
        matches Event::RemovalAttempted { removed } ==> {
        &&& (removed && next + 1 < pending@.len()) ==> r == (Pipeline::Removing {
            pending,
            next: (next + 1) as usize,
        })
        &&& (removed && next + 1 >= pending@.len()) ==> r == (Pipeline::Finished {
            removed: pending@.len() as usize,
        })
        &&& (!removed && next < pending@.len()) ==> (r matches Pipeline::Failed { error }
            && error matches Error::DeleteFailed { filename } && filename@ == pending@[
            next as int].name@)
    }))
}

/// Decides the confirmation gate: only the exact single character `y`
/// confirms; every other line, including case variants and longer words,
/// cancels.
pub fn answer_confirms(line: &str) -> (r: bool)
    ensures
        r <==> line@ == "y"@,
{
    proof {
        reveal_strlit("y");
    }
    let n = line.unicode_len();
    if n != 1 {
        proof {
            assert(line@ != "y"@);
        }
        false
    } else {
        let c = line.get_char(0);
        if c as u32 == 121 {
            proof {
                assert(line@ =~= "y"@);
            }
            true
        } else {
            proof {
                assert(line@ != "y"@) by {
                    if line@ == "y"@ {
                        assert(line@[0] == 'y');
                    }
                }
            }
            false
        }
    }
}

impl Pipeline {
    /// Advances the pipeline by one observation. The stages run in the
    /// fixed order parse, threshold, confirm, scan, delete; the first error
    /// at any stage moves to `Failed`, which expects nothing further.
    pub fn step(self, event: Event) -> (r: Pipeline)
        requires
            self.expects(event),
        ensures
            step_rel(self, event, r),
    {
        match self {
            Pipeline::AwaitingArgs => match event {
                Event::ArgsRead { path, duration_text } => {
                    match parse_duration(duration_text.as_str()) {
                        Ok(secs) => Pipeline::AwaitingClock { path, duration_secs: secs },
                        Err(error) => Pipeline::Failed { error },
                    }
                },
                _ => {
                    proof {
                        assert(false);
                    }
                    Pipeline::AwaitingArgs
                },
            },
            Pipeline::AwaitingClock { path, duration_secs } => match event {
                Event::ClockRead { now_nanos } => {
                    match compute_threshold(now_nanos, duration_secs) {
                        Ok(threshold_nanos) => Pipeline::AwaitingAnswer { path, threshold_nanos },
                        Err(_) => Pipeline::Failed { error: Error::TimeSubtractionError },
                    }
                },
                _ => {
                    proof {
                        assert(false);
                    }
                    Pipeline::AwaitingArgs
                },
            },
            Pipeline::AwaitingAnswer { path, threshold_nanos } => match event {
                Event::AnswerRead { line } => {
                    if answer_confirms(line.as_str()) {
                        Pipeline::AwaitingScan { path, threshold_nanos }
                    } else {
                        Pipeline::Failed { error: Error::Cancelled }
                    }
                },
                _ => {
                    proof {
                        assert(false);
                    }
                    Pipeline::AwaitingArgs
                },
            },
            Pipeline::AwaitingScan { path, threshold_nanos } => match event {
                Event::ScanCompleted { outcome } => match outcome {
                    Ok(entries) => {
                        let classified = classify_entries(entries, threshold_nanos);
                        let queued = select_old(classified);
                        if queued.len() == 0 {
                            Pipeline::Finished { removed: 0 }
                        } else {
                            Pipeline::Removing { pending: queued, next: 0 }
                        }
                    },
                    Err(failure) => match failure {
                        ScanFailure::DirUnreadable => Pipeline::Failed {
                            error: Error::ReadDirError { dirname: path },
                        },
                        ScanFailure::EntryUnreadable => Pipeline::Failed {
                            error: Error::ReadDirEntryError,
                        },
                        ScanFailure::MetadataUnavailable => Pipeline::Failed {
                            error: Error::ReadFileError,
                        },
                    },
                },
                _ => {
                    proof {
                        assert(false);
                    }
                    Pipeline::AwaitingArgs
                },
            },
            Pipeline::Removing { pending, next } => match event {
                Event::RemovalAttempted { removed } => {
                    if removed {
                        let len = pending.len();
                        let next2 = next + 1;
                        if next2 < len {
                            Pipeline::Removing { pending, next: next2 }
                        } else {
                            Pipeline::Finished { removed: pending.len() }
                        }
                    } else {
                        let filename = pending[next].name.clone();
                        Pipeline::Failed { error: Error::DeleteFailed { filename } }
                    }
                },
                _ => {
                    proof {
                        assert(false);
                    }
                    Pipeline::AwaitingArgs
                },
            },
            Pipeline::Finished { .. } => {
                proof {
                    assert(false);
                }
                Pipeline::AwaitingArgs
            },
            Pipeline::Failed { .. } => {
                proof {
                    assert(false);
                }
                Pipeline::AwaitingArgs
            },
        }
    }
}

/// A failed pipeline is absorbing: it expects no further observation, so
/// no later stage — neither scanning nor deleting — runs after a failure.
pub proof fn lemma_failed_is_absorbing(error: Error, event: Event)
    ensures
        !(Pipeline::Failed { error }.expects(event)),
{
}

/// A malformed duration argument halts the pipeline at parsing, with
/// `InvalidArgument` naming the duration argument, before any stage that
/// could touch the filesystem is reached.
pub proof fn lemma_invalid_duration_halts(
    path: String,
    duration_text: String,
    r: Pipeline,
)
    requires
        !duration_parses(duration_text@),
        step_rel(Pipeline::AwaitingArgs, Event::ArgsRead { path, duration_text }, r),
    ensures
        r matches Pipeline::Failed { error } && error matches Error::InvalidArgument { name }
            && name@ == "duration"@,
        forall|e2: Event| !r.expects(e2),
{
}

/// Any answer other than the exact single character `y` cancels the run:
/// the pipeline fails with `Cancelled` and expects nothing further, so no
/// deletion is attempted.
pub proof fn lemma_non_confirmation_cancels(
    path: String,
    threshold_nanos: u128,
    line: String,
    r: Pipeline,
)
    requires
        line@ != "y"@,
        step_rel(
            Pipeline::AwaitingAnswer { path, threshold_nanos },
            Event::AnswerRead { line },
            r,
        ),
    ensures
        r == (Pipeline::Failed { error: Error::Cancelled }),
        forall|e2: Event| !r.expects(e2),
{
}

/// A target that cannot be listed fails the scan with `ReadDirError`
/// carrying the directory's name, and the pipeline stops there.
pub proof fn lemma_unreadable_dir_halts(
    path: String,
    threshold_nanos: u128,
    r: Pipeline,
)
    requires
        step_rel(
            Pipeline::AwaitingScan { path, threshold_nanos },
            Event::ScanCompleted { outcome: Err(ScanFailure::DirUnreadable) },
            r,
        ),
    ensures
        r matches Pipeline::Failed { error } && error matches Error::ReadDirError { dirname }
            && dirname@ == path@,
        forall|e2: Event| !r.expects(e2),
{
}

/// After a successful scan, every entry queued for removal is old: an entry
/// whose modified time is at or after the cutoff is never queued.
pub proof fn lemma_scan_queues_only_old(
    path: String,
    threshold_nanos: u128,
    entries: Vec<Entry>,
    r: Pipeline,
    e: Entry,
)
    requires
        step_rel(
            Pipeline::AwaitingScan { path, threshold_nanos },
            Event::ScanCompleted { outcome: Ok(entries) },
            r,
        ),
        !spec_is_old(e.modified_nanos, threshold_nanos),
    ensures
        r matches Pipeline::Removing { pending, .. } ==> !pending@.contains(e),
{
    lemma_not_old_never_selected(entries@, threshold_nanos, e);
}

/// Only the confirmed pipeline expects a scan outcome: the directory is
/// listed after the prompt is answered, never before confirmation and never
/// after a failure.
pub proof fn lemma_scan_needs_confirmation(s: Pipeline, event: Event)
    requires
        event is ScanCompleted,
        s.expects(event),
    ensures
        s is AwaitingScan,
{
}

/// Only the removal stage expects a removal outcome: deletion is attempted
/// only for entries a successful scan queued as old.
pub proof fn lemma_removal_needs_queue(s: Pipeline, event: Event)
    requires
        event is RemovalAttempted,
        s.expects(event),
    ensures
        s is Removing,
{
}

/// The pipeline state after a sequence of observations, each a legal step
/// from the state before it.
pub open spec fn chain(s: Pipeline, events: Seq<Event>, r: Pipeline) -> bool
    decreases events.len(),
{
    if events.len() == 0 {
        r == s
    } else {
        exists|m: Pipeline| #[trigger] step_rel(s, events[0], m) && chain(m, events.skip(1), r)
    }
}

/// When every queued entry is removed successfully, one attempt per entry,
/// the pipeline finishes and the count it reports is exactly the number of
/// entries removed: the whole queue.
pub proof fn lemma_successful_removals_counted(
    pending: Vec<Entry>,
    next: usize,
    events: Seq<Event>,
    r: Pipeline,
)
    requires
        next < pending@.len(),
        events.len() == pending@.len() - next,
        forall|i: int|
            0 <= i < events.len() ==> events[i] == (Event::RemovalAttempted { removed: true }),
        chain(Pipeline::Removing { pending, next }, events, r),
    ensures
        r == (Pipeline::Finished { removed: pending@.len() as usize }),
    decreases events.len(),
{
    let m = choose|m: Pipeline|
        #[trigger] step_rel(Pipeline::Removing { pending, next }, events[0], m) && chain(
            m,
            events.skip(1),
            r,
        );
    assert(events[0] == (Event::RemovalAttempted { removed: true }));
    vstd::std_specs::vec::axiom_spec_len(&pending);
    if next + 1 < pending@.len() {
        assert(m == (Pipeline::Removing { pending, next: (next + 1) as usize }));
        lemma_successful_removals_counted(pending, (next + 1) as usize, events.skip(1), r);
    } else {
        assert(m == (Pipeline::Finished { removed: pending@.len() as usize }));
        assert(events.skip(1).len() == 0);
    }
}

/// Deletion is fail-fast: after any run of successful removals, the first
/// failed attempt halts the pipeline with `DeleteFailed` naming the entry
/// that failed, and nothing further is expected — later queued entries are
/// not attempted.
pub proof fn lemma_first_failure_halts(
    pending: Vec<Entry>,
    next: usize,
    events: Seq<Event>,
    r: Pipeline,
)
    requires
        next < pending@.len(),
        events.len() >= 1,
        next + events.len() <= pending@.len(),
        forall|i: int|
            0 <= i < events.len() - 1 ==> events[i] == (Event::RemovalAttempted {
                removed: true,
            }),
        events.last() == (Event::RemovalAttempted { removed: false }),
        chain(Pipeline::Removing { pending, next }, events, r),
    ensures
        r matches Pipeline::Failed { error } && error matches Error::DeleteFailed { filename }
            && filename@ == pending@[next + events.len() - 1].name@,
        forall|e2: Event| !r.expects(e2),
    decreases events.len(),
{
    let m = choose|m: Pipeline|
        #[trigger] step_rel(Pipeline::Removing { pending, next }, events[0], m) && chain(
            m,
            events.skip(1),
            r,
        );
    vstd::std_specs::vec::axiom_spec_len(&pending);
    if events.len() == 1 {
        assert(events[0] == (Event::RemovalAttempted { removed: false }));
        assert(r == m);
    } else {
        assert(events[0] == (Event::RemovalAttempted { removed: true }));
        assert(next + 1 < pending@.len());
        assert(m == (Pipeline::Removing { pending, next: (next + 1) as usize }));
        assert(events.skip(1).last() == (Event::RemovalAttempted { removed: false }));
        lemma_first_failure_halts(pending, (next + 1) as usize, events.skip(1), r);
    }
}

} // verus!
