//! What the decisions of the fork oracle come to.
//!
//! As elsewhere, `call_ensures` ties a law's result to the call's arguments.
//! Limits and error codes stand here as the numbers that they are.
use vstd::prelude::*;

use crate::oracle::{
    Abandon,
    ChildWatch,
    ForkRole,
    PageAnswer,
    PageScan,
    Poll,
    PollAction,
    RangeError,
    Reap,
    SubprocessPoll,
    Supervision,
    WatchPhase,
};

verus! {

/// The time limits: five seconds for a child, thirty for a subprocess, and ten
/// milliseconds between two polls.
pub proof fn law_time_limits()
    ensures
        crate::oracle::CHILD_TIMEOUT_SECS == 5,
        crate::oracle::SUBPROCESS_TIMEOUT_SECS == 30,
        crate::oracle::POLL_INTERVAL_MILLIS == 10,
{
}

/// A time limit has been reached exactly if no time is left: the seconds of the
/// limit, in nanoseconds, have gone by.
pub proof fn law_deadline_is_inclusive(elapsed: u128, limit: u64, r: bool)
    requires
        call_ensures(crate::oracle::deadline_passed, (elapsed, limit), r),
    ensures
        r <==> limit * 1_000_000_000 - elapsed <= 0,
{
}

/// A limit that has been reached stays reached, and so are all shorter ones.
pub proof fn law_deadline_stays_passed(
    elapsed: u128,
    limit: u64,
    later: u128,
    shorter: u64,
    r: bool,
    s: bool,
)
    requires
        call_ensures(crate::oracle::deadline_passed, (elapsed, limit), r),
        call_ensures(crate::oracle::deadline_passed, (later, shorter), s),
        elapsed <= later,
        shorter <= limit,
    ensures
        r ==> s,
{
}

/// A range is taken exactly if it starts and ends at pages of the given size,
/// which is then the granule. The first of the three that fails is named.
pub proof fn law_granule_divides_the_range(
    base: usize,
    len: usize,
    page: i32,
    r: Result<usize, RangeError>,
)
    requires
        call_ensures(crate::oracle::page_granule, (base, len, page), r),
    ensures
        r == Err::<usize, RangeError>(RangeError::NoPageSize) <==> page <= 0,
        r matches Ok(granule) ==> granule == page,
        page > 0 ==> {
            let starts = base as int % page as int == 0;
            let ends = (base + len) as int % page as int == 0;
            &&& r is Ok <==> starts && ends
            &&& r == Err::<usize, RangeError>(RangeError::BaseNotAligned) <==> !starts
            &&& r == Err::<usize, RangeError>(RangeError::LengthNotAligned) <==> starts && !ends
        },
{
    if page > 0 && base as int % page as int == 0 {
        let p = page as int;
        let k = base as int / p;
        vstd::arithmetic::div_mod::lemma_fundamental_div_mod(base as int, p);
        assert(base + len == p * k + len);
        vstd::arithmetic::div_mod::lemma_mod_multiples_vanish(k, len as int, p);
    }
}

/// A page is absent exactly if the query failed with the error that it leaves on
/// a hole.
pub proof fn law_page_is_absent_by_its_answer(answer: PageAnswer, r: bool)
    requires
        call_ensures(PageAnswer::is_absent, (&answer,), r),
    ensures
        r <==> answer.result == -1 && answer.errno == 12,
        r == answer.absent(),
{
}

/// A new scan is about the range that it was given and has no answer yet.
pub proof fn law_scan_starts_empty(base: usize, len: usize, page: usize, scan: PageScan)
    requires
        call_ensures(PageScan::new, (base, len, page), scan),
    ensures
        scan@.base == base,
        scan@.len == len,
        scan@.page == page,
        scan@.answers.len() == 0,
        scan.wf(),
{
}

/// Any range may be scanned, by any page size, and any answer to a region query
/// may be judged whose range ends at an address.
pub proof fn law_any_range_may_be_asked_about(
    base: usize,
    len: usize,
    page: usize,
    result: i32,
    found: u64,
    start: u64,
    size: u64,
)
    ensures
        page > 0 ==> call_requires(PageScan::new, (base, len, page)),
        start + size <= u64::MAX || result != 0 ==> call_requires(
            crate::oracle::range_absent_by_region,
            (result, found, start, size),
        ),
{
}

/// A scan keeps every answer, in order, and stays with its range.
pub proof fn law_scan_keeps_every_answer(scan: &mut PageScan, answer: PageAnswer, r: ())
    requires
        call_ensures(PageScan::record, (scan, answer), r),
    ensures
        final(scan)@.base == old(scan)@.base,
        final(scan)@.len == old(scan)@.len,
        final(scan)@.page == old(scan)@.page,
        final(scan)@.answers.len() == old(scan)@.answers.len() + 1,
        forall|i: int|
            0 <= i < old(scan)@.answers.len() ==> final(scan)@.answers[i] == old(scan)@.answers[i],
        final(scan)@.answers[old(scan)@.answers.len() as int] == answer,
        final(scan).wf(),
{
}

/// A scan asks about the pages one after the other, from the base on, with
/// addresses that wrap, as long as a page starts inside the range; and it ends
/// once none does.
pub proof fn law_scan_asks_page_by_page(scan: PageScan, r: Option<usize>)
    requires
        call_ensures(PageScan::next_page, (&scan,), r),
        scan.wf(),
    ensures
        r is Some <==> scan@.answers.len() * scan@.page < scan@.len,
        r matches Some(address) ==> (address - scan@.base - scan@.answers.len() * scan@.page) % (
        usize::MAX + 1) == 0,
{
    let n = scan@.answers.len();
    let p = scan@.page as nat;
    let count = crate::pages::page_count(scan@.len as nat, p);
    scan.lemma_answers_fit();
    crate::pages::lemma_page_count(scan@.len as nat, p, n);
    crate::pages::lemma_page_count_holds(scan@.len as nat, p);
    if n * p >= scan@.len && n != count {
        assert(n * p >= count * p + p) by (nonlinear_arith)
            requires
                n >= count + 1,
        ;
    }
    let m = usize::MAX + 1;
    let x = scan@.base + n * p;
    vstd::arithmetic::div_mod::lemma_fundamental_div_mod(x, m);
    vstd::arithmetic::div_mod::lemma_mod_multiples_basic(-(x / m), m);
    assert(-(x / m) * m == -(m * (x / m))) by (nonlinear_arith);
}

/// A range of which every page was found absent is absent, however many pages it
/// has and wherever it lies.
pub proof fn law_absent_pages_make_an_absent_range(scan: PageScan, r: bool)
    requires
        call_ensures(PageScan::range_absent, (&scan,), r),
        forall|i: int|
            0 <= i < scan@.answers.len() ==> (#[trigger] scan@.answers[i]).result == -1
                && scan@.answers[i].errno == 12,
    ensures
        r,
        scan@.all_absent(),
{
}

/// One page that is not found absent is enough: the range is not absent.
pub proof fn law_one_page_left_is_not_absent(scan: PageScan, i: int, r: bool)
    requires
        call_ensures(PageScan::range_absent, (&scan,), r),
        0 <= i < scan@.answers.len(),
        scan@.answers[i].result != -1 || scan@.answers[i].errno != 12,
    ensures
        !r,
{
    assert(!scan@.answers[i].absent());
}

/// A scan can be carried through: while it names a page an answer may be
/// recorded, and once it names none the verdict may be asked for.
pub proof fn law_scan_can_be_carried_through(
    scan: &mut PageScan,
    answer: PageAnswer,
    r: Option<usize>,
)
    requires
        old(scan).wf(),
        call_ensures(PageScan::next_page, (&*old(scan),), r),
    ensures
        call_requires(PageScan::next_page, (&*old(scan),)),
        r is Some ==> call_requires(PageScan::record, (scan, answer)),
        r is None ==> call_requires(PageScan::range_absent, (&*old(scan),)),
{
}

/// A region query shows a range to be absent exactly if there is no region at or
/// after its start, or if the one that was found begins no earlier than the
/// range ends.
pub proof fn law_region_must_lie_behind(result: i32, found: u64, base: u64, len: u64, r: bool)
    requires
        call_ensures(crate::oracle::range_absent_by_region, (result, found, base, len), r),
    ensures
        result == 1 ==> r,
        result == 0 ==> (r <==> found - base >= len),
        result != 0 && result != 1 ==> !r,
{
}

/// A fork's negative answer is a failure, zero is the child's, and any other is
/// the parent's.
pub proof fn law_fork_roles(pid: i32, r: ForkRole)
    requires
        call_ensures(crate::oracle::fork_role, (pid,), r),
    ensures
        r == ForkRole::Failed <==> pid < 0,
        r == ForkRole::Child <==> pid == 0,
        r == ForkRole::Parent <==> pid > 0,
{
}

/// The child exits with zero for an absent range and with one for any other.
pub proof fn law_exit_status_tells(absent: bool, r: i32)
    requires
        call_ensures(crate::oracle::exit_status, (absent,), r),
    ensures
        absent ==> r == 0,
        !absent ==> r == 1,
{
}

/// A watch begins by polling for the child that it was given.
pub proof fn law_watch_begins_by_polling(child: i32, r: ChildWatch)
    requires
        call_ensures(ChildWatch::new, (child,), r),
    ensures
        r.child == child,
        r.phase == WatchPhase::Polling,
{
}

/// A poll that saw the child exit is its answer, whatever the time: absent for
/// status zero and for no other. Short of that, a wait that failed for anything
/// but a signal, or else the limit of five seconds, has the child killed; and
/// otherwise the parent pauses.
pub proof fn law_poll_decides(watch: &mut ChildWatch, poll: Poll, r: PollAction)
    requires
        call_ensures(ChildWatch::polled, (watch, poll), r),
    ensures
        ({
            let exited = poll.result == old(watch).child;
            let broken = !exited && poll.result == -1 && poll.errno != 4;
            let late = !exited && !broken && poll.elapsed_nanos >= 5_000_000_000;
            &&& final(watch).child == old(watch).child
            &&& exited && poll.status == 0 <==> r == PollAction::Report(true)
            &&& exited && poll.status != 0 <==> r == PollAction::Report(false)
            &&& broken || late <==> r == PollAction::Kill
            &&& !exited && !broken && !late <==> r == PollAction::Pause
            &&& exited <==> final(watch).phase == WatchPhase::Answered(poll.status == 0)
            &&& broken <==> final(watch).phase == WatchPhase::Reaping(Abandon::WaitFailed)
            &&& late <==> final(watch).phase == WatchPhase::Reaping(Abandon::TimedOut)
            &&& r == PollAction::Pause <==> final(watch).phase == WatchPhase::Polling
        }),
{
}

/// A killed child is waited for until a wait is not interrupted by a signal.
/// Then it is gone, and why it was given up is the answer.
pub proof fn law_reaping_waits_out_signals(
    watch: &mut ChildWatch,
    reap: Reap,
    reason: Abandon,
    r: Option<Abandon>,
)
    requires
        call_ensures(ChildWatch::reaped, (watch, reap), r),
        old(watch).phase == WatchPhase::Reaping(reason),
    ensures
        final(watch).child == old(watch).child,
        reap.result == -1 && reap.errno == 4 ==> r is None && *final(watch) == *old(watch),
        reap.result != -1 || reap.errno != 4 ==> r == Some(reason) && final(watch).phase
            == WatchPhase::Abandoned(reason),
{
}

/// The watch can be carried through: it may poll while it polls, and reap once
/// it has given the child up.
pub proof fn law_watch_can_be_carried_through(
    watch: &mut ChildWatch,
    poll: Poll,
    reap: Reap,
    reason: Abandon,
)
    ensures
        old(watch).phase == WatchPhase::Polling ==> call_requires(
            ChildWatch::polled,
            (watch, poll),
        ),
        old(watch).phase == WatchPhase::Reaping(reason) ==> call_requires(
            ChildWatch::reaped,
            (watch, reap),
        ),
{
}

/// A run of polls is a run of these calls: the phase that the run has come to is
/// the phase that the watch is in.
pub proof fn law_watched_follows_polls(
    watch: &mut ChildWatch,
    before: Seq<Poll>,
    poll: Poll,
    r: PollAction,
)
    requires
        call_ensures(ChildWatch::polled, (watch, poll), r),
        crate::oracle::watched(old(watch).child, before) == WatchPhase::Polling,
    ensures
        crate::oracle::watched(old(watch).child, before.push(poll)) == final(watch).phase,
{
    assert(before.push(poll).drop_last() =~= before);
}

/// The child's answer reaches the parent through the exit status: the parent
/// reports an absent range exactly if the child found one.
pub proof fn law_answer_survives_the_exit(
    watch: &mut ChildWatch,
    absent: bool,
    status: i32,
    poll: Poll,
    r: PollAction,
)
    requires
        call_ensures(crate::oracle::exit_status, (absent,), status),
        call_ensures(ChildWatch::polled, (watch, poll), r),
        poll.result == old(watch).child,
        poll.status == 0 <==> status == 0,
    ensures
        r == PollAction::Report(absent),
{
}

/// A subprocess that has exited is judged by its exit, whatever the time. One
/// that runs has thirty seconds, and one that cannot be asked has none.
pub proof fn law_supervision_decides(poll: SubprocessPoll, elapsed: u128, r: Supervision)
    requires
        call_ensures(crate::oracle::supervise, (poll, elapsed), r),
    ensures
        r == Supervision::Passed <==> poll == (SubprocessPoll::Exited { success: true }),
        r == Supervision::Failed <==> poll == (SubprocessPoll::Exited { success: false }),
        r == Supervision::Pause <==> poll == SubprocessPoll::Running && elapsed < 30_000_000_000,
        r == Supervision::Kill <==> poll == SubprocessPoll::Unknown || (poll
            == SubprocessPoll::Running && elapsed >= 30_000_000_000),
{
}

/// The two reasons to give a child up have words of their own.
pub proof fn law_reasons_are_told_apart(
    a: Abandon,
    b: Abandon,
    r: &'static str,
    s: &'static str,
)
    requires
        call_ensures(Abandon::message, (&a,), r),
        call_ensures(Abandon::message, (&b,), s),
    ensures
        r@ == s@ <==> a == b,
{
    reveal_strlit("native child wait failed");
    reveal_strlit("native child timed out and was reaped");
    if r@ == s@ {
        assert(r@.len() == s@.len());
    }
}

} // verus!
