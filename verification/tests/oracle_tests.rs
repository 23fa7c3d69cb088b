//! The decisions of the fork oracle.
use sanitization::oracle::{
    deadline_passed, exit_status, fork_role, page_granule, range_absent_by_region, supervise, Abandon, ChildWatch,
    ForkRole, PageAnswer, PageScan, Poll, PollAction, RangeError, Reap, SubprocessPoll,
    Supervision, WatchPhase, CHILD_TIMEOUT_SECS, EINTR, ENOMEM, SUBPROCESS_TIMEOUT_SECS,
};
use sanitization::pages::{page_start, pages_for};

const ABSENT: PageAnswer = PageAnswer {
    result: -1,
    errno: ENOMEM,
};

/// Five seconds in nanoseconds, and one nanosecond less.
const CHILD_LATE: u128 = 5_000_000_000;
const CHILD_EARLY: u128 = 4_999_999_999;

fn poll(result: i32, status: i32, errno: i32, elapsed_nanos: u128) -> Poll {
    Poll {
        result,
        status,
        errno,
        elapsed_nanos,
    }
}

#[test]
fn range_has_to_consist_of_pages() {
    assert_eq!(page_granule(8192, 4096, 4096), Ok(4096));
    assert_eq!(page_granule(8192, 0, 4096), Ok(4096));
    assert_eq!(page_granule(8192, 4096, 0), Err(RangeError::NoPageSize));
    assert_eq!(page_granule(8192, 4096, -1), Err(RangeError::NoPageSize));
    assert_eq!(page_granule(8193, 4096, 4096), Err(RangeError::BaseNotAligned));
    assert_eq!(page_granule(8192, 4095, 4096), Err(RangeError::LengthNotAligned));
}

#[test]
fn pages_round() {
    assert_eq!(page_start(8191, 4096), 4096);
    assert_eq!(page_start(8192, 4096), 8192);
    assert_eq!(page_start(7, 10), 0);
    assert_eq!(pages_for(0, 4096), 0);
    assert_eq!(pages_for(1, 4096), 1);
    assert_eq!(pages_for(4096, 4096), 1);
    assert_eq!(pages_for(4097, 4096), 2);
    assert_eq!(pages_for(usize::MAX, 1), usize::MAX);
    assert_eq!(pages_for(usize::MAX, 2), usize::MAX / 2 + 1);
}

#[test]
fn every_page_is_asked_about() {
    let mut scan = PageScan::new(8192, 3 * 4096, 4096);
    assert_eq!(scan.next_page(), Some(8192));
    scan.record(PageAnswer { result: 0, errno: 0 });
    assert_eq!(scan.next_page(), Some(12288));
    scan.record(ABSENT);
    assert_eq!(scan.next_page(), Some(16384));
    scan.record(ABSENT);
    assert_eq!(scan.next_page(), None);
    assert!(!scan.range_absent());
}

#[test]
fn absent_range_has_no_page() {
    let mut scan = PageScan::new(usize::MAX - 4095, 2 * 4096, 4096);
    scan.record(ABSENT);
    assert_eq!(scan.next_page(), Some(0), "addresses wrap");
    scan.record(ABSENT);
    assert_eq!(scan.next_page(), None);
    assert!(scan.range_absent());
    let empty = PageScan::new(8192, 0, 4096);
    assert_eq!(empty.next_page(), None);
    assert!(empty.range_absent());
    let mut ragged = PageScan::new(0, 4097, 4096);
    ragged.record(ABSENT);
    assert_eq!(ragged.next_page(), Some(4096));
    ragged.record(PageAnswer {
        result: -1,
        errno: EINTR,
    });
    assert_eq!(ragged.next_page(), None);
    assert!(!ragged.range_absent());
}

#[test]
fn region_query_decides() {
    assert!(range_absent_by_region(1, 0, 8192, 4096));
    assert!(range_absent_by_region(0, 12288, 8192, 4096));
    assert!(!range_absent_by_region(0, 12287, 8192, 4096));
    assert!(!range_absent_by_region(0, 8192, 8192, 4096));
    assert!(!range_absent_by_region(5, u64::MAX, 8192, 4096));
}

#[test]
fn fork_tells_who_goes_on() {
    assert_eq!(fork_role(-1), ForkRole::Failed);
    assert_eq!(fork_role(0), ForkRole::Child);
    assert_eq!(fork_role(77), ForkRole::Parent);
    assert_eq!(exit_status(true), 0);
    assert_eq!(exit_status(false), 1);
}

#[test]
fn clean_exit_alone_proves_absence() {
    let mut watch = ChildWatch::new(77);
    assert_eq!(watch.polled(poll(0, 0, 0, CHILD_EARLY)), PollAction::Pause);
    assert_eq!(watch.polled(poll(-1, 0, EINTR, CHILD_EARLY)), PollAction::Pause);
    assert_eq!(watch.phase, WatchPhase::Polling);
    assert_eq!(watch.polled(poll(77, 0, 0, CHILD_LATE)), PollAction::Report(true));
    assert_eq!(watch.phase, WatchPhase::Answered(true));

    let mut watch = ChildWatch::new(77);
    assert_eq!(
        watch.polled(poll(77, 256, 0, CHILD_EARLY)),
        PollAction::Report(false)
    );
    assert_eq!(watch.phase, WatchPhase::Answered(false));
}

#[test]
fn wait_error_gives_the_child_up() {
    let mut watch = ChildWatch::new(77);
    assert_eq!(watch.polled(poll(-1, 0, 10, CHILD_EARLY)), PollAction::Kill);
    assert_eq!(watch.phase, WatchPhase::Reaping(Abandon::WaitFailed));
    assert_eq!(
        watch.reaped(Reap {
            result: -1,
            errno: EINTR
        }),
        None
    );
    assert_eq!(watch.phase, WatchPhase::Reaping(Abandon::WaitFailed));
    assert_eq!(
        watch.reaped(Reap {
            result: 77,
            errno: EINTR
        }),
        Some(Abandon::WaitFailed)
    );
    assert_eq!(watch.phase, WatchPhase::Abandoned(Abandon::WaitFailed));
    assert_eq!(Abandon::WaitFailed.message(), "native child wait failed");
}

#[test]
fn deadline_gives_the_child_up() {
    let mut watch = ChildWatch::new(77);
    assert_eq!(watch.polled(poll(-1, 0, EINTR, CHILD_LATE)), PollAction::Kill);
    assert_eq!(watch.phase, WatchPhase::Reaping(Abandon::TimedOut));
    assert_eq!(
        watch.reaped(Reap {
            result: -1,
            errno: 10
        }),
        Some(Abandon::TimedOut)
    );
    assert_eq!(
        Abandon::TimedOut.message(),
        "native child timed out and was reaped"
    );
}

#[test]
fn subprocess_is_supervised() {
    let late: u128 = 30_000_000_000;
    let early: u128 = 29_999_999_999;
    let exited = SubprocessPoll::Exited { success: true };
    assert_eq!(supervise(exited, late), Supervision::Passed);
    let failed = SubprocessPoll::Exited { success: false };
    assert_eq!(supervise(failed, early), Supervision::Failed);
    assert_eq!(supervise(SubprocessPoll::Running, early), Supervision::Pause);
    assert_eq!(supervise(SubprocessPoll::Running, late), Supervision::Kill);
    assert_eq!(supervise(SubprocessPoll::Unknown, early), Supervision::Kill);
}

#[test]
fn deadline_counts_from_the_limit_on() {
    assert!(!deadline_passed(CHILD_EARLY, CHILD_TIMEOUT_SECS));
    assert!(deadline_passed(CHILD_LATE, CHILD_TIMEOUT_SECS));
    assert!(!deadline_passed(CHILD_LATE, SUBPROCESS_TIMEOUT_SECS));
    assert!(deadline_passed(30_000_000_000, SUBPROCESS_TIMEOUT_SECS));
    assert!(deadline_passed(0, 0));
    assert!(!deadline_passed(0, u64::MAX));
    assert!(!deadline_passed(u64::MAX as u128 * 1_000_000_000 - 1, u64::MAX));
    assert!(deadline_passed(u128::MAX, u64::MAX));
}
