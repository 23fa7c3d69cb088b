//! The fork oracle: is a memory range absent from a forked child?
//!
//! The child asks the system about the range, page by page or region by
//! region, and exits with the answer. The parent polls for the exit, kills and
//! reaps a child that it cannot wait for or that takes too long, and takes
//! nothing but a clean exit as proof of absence. This module holds what is
//! decided on the way; the system calls belong to its caller.
use vstd::prelude::*;

verus! {

/// The error code of a call that a signal interrupted.
pub const EINTR: i32 = 4;

/// The error code of a residency query on a range that is not mapped.
pub const ENOMEM: i32 = 12;

/// The answer of a region query that found no region at or after the address.
pub const KERN_INVALID_ADDRESS: i32 = 1;

/// The answer of a region query that found one.
pub const KERN_SUCCESS: i32 = 0;

/// How long the parent polls before it gives the child up.
pub const CHILD_TIMEOUT_SECS: u64 = 5;

/// How long a supervised subprocess may run.
pub const SUBPROCESS_TIMEOUT_SECS: u64 = 30;

/// The pause between two polls.
pub const POLL_INTERVAL_MILLIS: u64 = 10;

/// A time limit of `timeout_secs` seconds has been reached: the limit itself
/// counts.
pub open spec fn past_deadline(elapsed_nanos: u128, timeout_secs: u64) -> bool {
    elapsed_nanos >= timeout_secs * 1_000_000_000
}

/// Whether a time limit of `timeout_secs` seconds has been reached.
pub fn deadline_passed(elapsed_nanos: u128, timeout_secs: u64) -> (r: bool)
    ensures
        r == past_deadline(elapsed_nanos, timeout_secs),
{
    elapsed_nanos >= timeout_secs as u128 * 1_000_000_000
}

/// Why a range cannot be put to the oracle.
#[derive(Clone, Copy, PartialEq, Eq, Debug, Structural)]
pub enum RangeError {
    /// The system gave no page size.
    NoPageSize,
    /// The range does not start at a page.
    BaseNotAligned,
    /// The range does not end at a page.
    LengthNotAligned,
}

/// The page size to ask the oracle by, if the range consists of whole pages.
pub fn page_granule(base: usize, len: usize, page: i32) -> (r: Result<usize, RangeError>)
    ensures
        r == if page <= 0 {
            Err::<usize, RangeError>(RangeError::NoPageSize)
        } else if base as int % page as int != 0 {
            Err::<usize, RangeError>(RangeError::BaseNotAligned)
        } else if len as int % page as int != 0 {
            Err::<usize, RangeError>(RangeError::LengthNotAligned)
        } else {
            Ok::<usize, RangeError>(page as usize)
        },
        r matches Ok(granule) ==> granule == page,
{
    if page <= 0 {
        return Err(RangeError::NoPageSize);
    }
    let granule = page as usize;
    if base % granule != 0 {
        Err(RangeError::BaseNotAligned)
    } else if len % granule != 0 {
        Err(RangeError::LengthNotAligned)
    } else {
        Ok(granule)
    }
}

/// The answer to a residency query on one page.
#[derive(Clone, Copy, PartialEq, Eq, Debug, Structural)]
pub struct PageAnswer {
    /// What the query returned.
    pub result: i32,
    /// The error code that it left.
    pub errno: i32,
}

impl PageAnswer {
    /// The page is not mapped: the query failed, and for this reason.
    pub open spec fn absent(self) -> bool {
        self.result == -1 && self.errno == ENOMEM
    }

    /// Whether the page is not mapped.
    pub fn is_absent(&self) -> (r: bool)
        ensures
            r == self.absent(),
    {
        self.result == -1 && self.errno == ENOMEM
    }
}

/// What a scan is about and the answers it has, in the order of the pages.
pub struct ScanView {
    pub base: usize,
    pub len: usize,
    pub page: usize,
    pub answers: Seq<PageAnswer>,
}

impl ScanView {
    /// Every page has an answer.
    pub open spec fn complete(self) -> bool {
        self.answers.len() == crate::pages::page_count(self.len as nat, self.page as nat)
    }

    /// Where the page that is asked about next starts. Addresses wrap.
    pub open spec fn next_address(self) -> usize {
        ((self.base + self.answers.len() * self.page) % (usize::MAX + 1)) as usize
    }

    /// Every answer so far says that its page is not mapped.
    pub open spec fn all_absent(self) -> bool {
        forall|i: int| 0 <= i < self.answers.len() ==> (#[trigger] self.answers[i]).absent()
    }
}

/// A scan of a range, page by page. Every page is asked about, whatever the
/// pages before it answered. The scan allocates nothing, so a forked child can
/// run it.
pub struct PageScan {
    base: usize,
    len: usize,
    page: usize,
    offset: usize,
    absent: bool,
    answers: Ghost<Seq<PageAnswer>>,
}

impl View for PageScan {
    type V = ScanView;

    closed spec fn view(&self) -> ScanView {
        ScanView { base: self.base, len: self.len, page: self.page, answers: self.answers@ }
    }
}

/// A sum of two words wraps at most once.
proof fn lemma_wrap(x: int, m: int)
    requires
        0 <= x < 2 * m,
    ensures
        x % m == if x < m {
            x
        } else {
            x - m
        },
{
    if x < m {
        vstd::arithmetic::div_mod::lemma_small_mod(x as nat, m as nat);
    } else {
        vstd::arithmetic::div_mod::lemma_mod_add_multiples_vanish(x - m, m);
        vstd::arithmetic::div_mod::lemma_small_mod((x - m) as nat, m as nat);
    }
}

impl PageScan {
    /// The offset and the verdict so far agree with the answers.
    pub closed spec fn wf(&self) -> bool {
        &&& self.page > 0
        &&& self.answers@.len() <= crate::pages::page_count(self.len as nat, self.page as nat)
        &&& self.offset == if self.answers@.len() * self.page < self.len {
            self.answers@.len() * self.page
        } else {
            self.len as int
        }
        &&& self.absent == self@.all_absent()
    }

    /// A scan has no more answers than its range has pages.
    pub proof fn lemma_answers_fit(&self)
        requires
            self.wf(),
        ensures
            self@.page > 0,
            self@.answers.len() * self@.page < self@.len + self@.page,
    {
        let count = crate::pages::page_count(self.len as nat, self.page as nat);
        crate::pages::lemma_page_count_holds(self.len as nat, self.page as nat);
        assert(self.answers@.len() * self.page <= count * self.page) by (nonlinear_arith)
            requires
                self.answers@.len() <= count,
                self.page > 0,
        ;
    }

    /// A scan of `len` bytes at `base` that has asked nothing yet.
    pub fn new(base: usize, len: usize, page: usize) -> (r: PageScan)
        requires
            page > 0,
        ensures
            r.wf(),
            r@ == (ScanView { base, len, page, answers: Seq::empty() }),
    {
        PageScan { base, len, page, offset: 0, absent: true, answers: Ghost(Seq::empty()) }
    }

    /// The address of the page to ask about next; none once all have answered.
    pub fn next_page(&self) -> (r: Option<usize>)
        requires
            self.wf(),
        ensures
            r == if self@.complete() {
                None::<usize>
            } else {
                Some(self@.next_address())
            },
    {
        proof {
            crate::pages::lemma_page_count(self.len as nat, self.page as nat, self.answers@.len());
            lemma_wrap(self.base as int + self.offset, usize::MAX + 1);
        }
        if self.offset < self.len {
            Some(self.base.wrapping_add(self.offset))
        } else {
            None
        }
    }

    /// Takes the answer for the page that [`PageScan::next_page`] names.
    pub fn record(&mut self, answer: PageAnswer)
        requires
            old(self).wf(),
            !old(self)@.complete(),
        ensures
            final(self).wf(),
            final(self)@ == (ScanView {
                answers: old(self)@.answers.push(answer),
                ..old(self)@
            }),
    {
        let ghost before = self@;
        let ghost k = self.answers@.len();
        proof {
            crate::pages::lemma_page_count(self.len as nat, self.page as nat, k);
            crate::pages::lemma_page_count(self.len as nat, self.page as nat, k + 1);
            assert((k + 1) * self.page == k * self.page + self.page) by (nonlinear_arith);
        }
        self.absent = self.absent && answer.is_absent();
        self.offset = if self.len - self.offset > self.page {
            self.offset + self.page
        } else {
            self.len
        };
        self.answers = Ghost(self.answers@.push(answer));
        proof {
            let after = self@;
            if after.all_absent() {
                assert forall|i: int| 0 <= i < before.answers.len() implies (
                #[trigger] before.answers[i]).absent() by {
                    assert(after.answers[i].absent());
                }
                assert(after.answers[k as int].absent());
            }
        }
    }

    /// Whether the whole range is absent: no page of it is mapped.
    pub fn range_absent(&self) -> (r: bool)
        requires
            self.wf(),
            self@.complete(),
        ensures
            r == self@.all_absent(),
    {
        self.absent
    }
}

/// Whether the `len` bytes at `base` are absent, by a region query at `base`.
/// The query finds the region that holds the address or the next one after it:
/// the range is absent if there is none, or if what was found lies behind it.
pub fn range_absent_by_region(result: i32, found: u64, base: u64, len: u64) -> (r: bool)
    requires
        result == KERN_SUCCESS ==> base + len <= u64::MAX,
    ensures
        r == (result == KERN_INVALID_ADDRESS || (result == KERN_SUCCESS && found >= base + len)),
{
    result == KERN_INVALID_ADDRESS || (result == KERN_SUCCESS && found >= base + len)
}

/// Who goes on after a fork.
#[derive(Clone, Copy, PartialEq, Eq, Debug, Structural)]
pub enum ForkRole {
    /// There was no fork.
    Failed,
    /// The child, which is to answer.
    Child,
    /// The parent, which is to wait.
    Parent,
}

/// Who the caller of a fork is, by what the fork returned.
pub fn fork_role(pid: i32) -> (r: ForkRole)
    ensures
        r == if pid < 0 {
            ForkRole::Failed
        } else if pid == 0 {
            ForkRole::Child
        } else {
            ForkRole::Parent
        },
{
    if pid < 0 {
        ForkRole::Failed
    } else if pid == 0 {
        ForkRole::Child
    } else {
        ForkRole::Parent
    }
}

/// The status that the child exits with: zero for an absent range alone.
pub open spec fn exit_code(absent: bool) -> i32 {
    if absent {
        0
    } else {
        1
    }
}

/// The status that the child exits with: zero for an absent range alone.
pub fn exit_status(absent: bool) -> (r: i32)
    ensures
        r == exit_code(absent),
{
    if absent {
        0
    } else {
        1
    }
}

/// Why a child was given up.
#[derive(Clone, Copy, PartialEq, Eq, Debug, Structural)]
pub enum Abandon {
    /// Waiting for it failed.
    WaitFailed,
    /// It took too long.
    TimedOut,
}

impl Abandon {
    /// The reason in words.
    pub open spec fn text(self) -> Seq<char> {
        match self {
            Abandon::WaitFailed => "native child wait failed"@,
            Abandon::TimedOut => "native child timed out and was reaped"@,
        }
    }

    /// The reason in words, for a message.
    pub fn message(&self) -> (r: &'static str)
        ensures
            r@ == self.text(),
    {
        match self {
            Abandon::WaitFailed => "native child wait failed",
            Abandon::TimedOut => "native child timed out and was reaped",
        }
    }
}

/// How far the parent is with its child.
#[derive(Clone, Copy, PartialEq, Eq, Debug, Structural)]
pub enum WatchPhase {
    /// The child runs; ask for its exit and pause.
    Polling,
    /// The child has been killed; wait for it to go.
    Reaping(Abandon),
    /// The child has answered whether the range is absent.
    Answered(bool),
    /// The child is gone without an answer.
    Abandoned(Abandon),
}

/// What the parent does after a poll.
#[derive(Clone, Copy, PartialEq, Eq, Debug, Structural)]
pub enum PollAction {
    /// Report whether the range is absent.
    Report(bool),
    /// Kill the child and reap it.
    Kill,
    /// Pause and poll again.
    Pause,
}

/// What a poll came back with.
#[derive(Clone, Copy, PartialEq, Eq, Debug, Structural)]
pub struct Poll {
    /// What the wait call returned.
    pub result: i32,
    /// The exit status that it stored.
    pub status: i32,
    /// The error code that it left.
    pub errno: i32,
    /// The nanoseconds since the watch began.
    pub elapsed_nanos: u128,
}

/// What a blocking wait for a killed child came back with.
#[derive(Clone, Copy, PartialEq, Eq, Debug, Structural)]
pub struct Reap {
    /// What the wait call returned.
    pub result: i32,
    /// The error code that it left.
    pub errno: i32,
}

impl Poll {
    /// The phase that the poll leads to. An exit is an answer, even past the
    /// deadline, and the answer is "absent" for status zero alone. A wait that
    /// failed for anything but a signal gives the child up, and so does the
    /// deadline.
    pub open spec fn leads_to(self, child: i32) -> WatchPhase {
        if self.result == child {
            WatchPhase::Answered(self.status == 0)
        } else if self.result == -1 && self.errno != EINTR {
            WatchPhase::Reaping(Abandon::WaitFailed)
        } else if past_deadline(self.elapsed_nanos, CHILD_TIMEOUT_SECS) {
            WatchPhase::Reaping(Abandon::TimedOut)
        } else {
            WatchPhase::Polling
        }
    }
}

impl Reap {
    /// The wait has to be made again: a signal interrupted it.
    pub open spec fn interrupted(self) -> bool {
        self.result == -1 && self.errno == EINTR
    }
}

/// The phase that a run of polls ends in: a poll counts only while the parent
/// still polls.
pub open spec fn watched(child: i32, polls: Seq<Poll>) -> WatchPhase
    decreases polls.len(),
{
    if polls.len() == 0 {
        WatchPhase::Polling
    } else {
        match watched(child, polls.drop_last()) {
            WatchPhase::Polling => polls.last().leads_to(child),
            phase => phase,
        }
    }
}

/// The parent's watch over one child.
#[derive(Clone, Copy, PartialEq, Eq, Debug, Structural)]
pub struct ChildWatch {
    pub child: i32,
    pub phase: WatchPhase,
}

impl ChildWatch {
    /// A watch over a child that has just been forked.
    pub fn new(child: i32) -> (r: ChildWatch)
        ensures
            r == (ChildWatch { child, phase: WatchPhase::Polling }),
    {
        ChildWatch { child, phase: WatchPhase::Polling }
    }

    /// Takes what a poll came back with and says what to do next.
    pub fn polled(&mut self, poll: Poll) -> (r: PollAction)
        requires
            old(self).phase == WatchPhase::Polling,
        ensures
            *final(self) == (ChildWatch { phase: poll.leads_to(old(self).child), ..*old(self) }),
            r == match final(self).phase {
                WatchPhase::Answered(absent) => PollAction::Report(absent),
                WatchPhase::Polling => PollAction::Pause,
                _ => PollAction::Kill,
            },
    {
        if poll.result == self.child {
            let absent = poll.status == 0;
            self.phase = WatchPhase::Answered(absent);
            PollAction::Report(absent)
        } else if poll.result == -1 && poll.errno != EINTR {
            self.phase = WatchPhase::Reaping(Abandon::WaitFailed);
            PollAction::Kill
        } else if deadline_passed(poll.elapsed_nanos, CHILD_TIMEOUT_SECS) {
            self.phase = WatchPhase::Reaping(Abandon::TimedOut);
            PollAction::Kill
        } else {
            PollAction::Pause
        }
    }

    /// Takes what a wait for the killed child came back with. The reason for
    /// giving it up is the answer once it is gone; until then, wait again.
    pub fn reaped(&mut self, reap: Reap) -> (r: Option<Abandon>)
        requires
            old(self).phase is Reaping,
        ensures
            final(self).child == old(self).child,
            reap.interrupted() ==> r is None && final(self).phase == old(self).phase,
            !reap.interrupted() ==> r == Some(old(self).phase->Reaping_0) && final(self).phase
                == WatchPhase::Abandoned(old(self).phase->Reaping_0),
    {
        if reap.result == -1 && reap.errno == EINTR {
            return None;
        }
        match self.phase {
            WatchPhase::Reaping(reason) => {
                self.phase = WatchPhase::Abandoned(reason);
                Some(reason)
            },
            _ => None,
        }
    }
}

/// What is known of a supervised subprocess.
#[derive(Clone, Copy, PartialEq, Eq, Debug, Structural)]
pub enum SubprocessPoll {
    /// It has exited, with success or without.
    Exited { success: bool },
    /// It runs.
    Running,
    /// It could not be asked.
    Unknown,
}

/// What to do about a supervised subprocess.
#[derive(Clone, Copy, PartialEq, Eq, Debug, Structural)]
pub enum Supervision {
    /// It is done and went well.
    Passed,
    /// It is done and failed.
    Failed,
    /// Pause and ask again.
    Pause,
    /// Kill it, reap it and fail.
    Kill,
}

/// Decides about a supervised subprocess: an exit counts whatever the time, and
/// only a running one is given the time until the deadline.
pub fn supervise(poll: SubprocessPoll, elapsed_nanos: u128) -> (r: Supervision)
    ensures
        r == match poll {
            SubprocessPoll::Exited { success } => if success {
                Supervision::Passed
            } else {
                Supervision::Failed
            },
            SubprocessPoll::Running => if past_deadline(elapsed_nanos, SUBPROCESS_TIMEOUT_SECS) {
                Supervision::Kill
            } else {
                Supervision::Pause
            },
            SubprocessPoll::Unknown => Supervision::Kill,
        },
{
    match poll {
        SubprocessPoll::Exited { success: true } => Supervision::Passed,
        SubprocessPoll::Exited { success: false } => Supervision::Failed,
        SubprocessPoll::Running => if deadline_passed(elapsed_nanos, SUBPROCESS_TIMEOUT_SECS) {
            Supervision::Kill
        } else {
            Supervision::Pause
        },
        SubprocessPoll::Unknown => Supervision::Kill,
    }
}

} // verus!
