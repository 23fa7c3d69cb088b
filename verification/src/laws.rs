//! What holds of the probe, the owners and the oracle as a whole.
use vstd::prelude::*;

use crate::oracle::{Poll, ScanView, WatchPhase};
use crate::policy::{
    ForkPolicy,
    ProtectionControl,
    ProtectionRequest,
    ProtectionState,
    Requirement,
    TargetOs,
};
use crate::probe::Observation;
use crate::setup::{NativeOutcomes, OwnerKind, RollbackState, Setup};
use crate::trace::Call;

verus! {

/// An observation that is not armed ignores the backend.
pub proof fn law_inactive_ignores_backend(
    state: Observation,
    control: ProtectionControl,
    address: usize,
    len: usize,
)
    requires
        !state.active,
    ensures
        !state.injects(control),
        state.after_fail(control) == state,
        state.after_mapped(address, len) == state,
        state.after_writable(address, len) == state,
        state.after_cleared() == state,
        state.after_unmapped() == state,
{
}

/// Only the armed control is made to fail, and coming to a control leaves no
/// other trace than that the armed one was reached.
pub proof fn law_injection_is_exact(
    failure: Option<ProtectionControl>,
    state: Observation,
    control: ProtectionControl,
)
    ensures
        Observation::armed(failure).injects(control) == (failure == Some(control)),
        state.injects(control) ==> state.after_fail(control).hit,
        !state.injects(control) ==> state.after_fail(control) == state,
        (Observation { hit: state.hit, ..state.after_fail(control) }) == state,
{
}

/// The books stay balanced: after any call in any order, the mappings made are
/// the mappings given back and the live one, as long as the counter of the
/// mappings is not full.
pub proof fn law_books_stay_balanced(state: Observation, call: Call)
    requires
        state.balanced(),
        crate::trace::has_room(state, call),
    ensures
        Observation::blank().balanced(),
        crate::trace::step(state, call).balanced(),
{
}

/// Only a live mapping has a writable region, after any call in any order but a
/// report of a writable region where nothing is mapped.
pub proof fn law_writable_stays_in_mapping(state: Observation, call: Call)
    requires
        state.nested(),
        call is Writable ==> state.mapping is Some,
    ensures
        Observation::blank().nested(),
        crate::trace::step(state, call).nested(),
{
}

/// Whatever calls were made since the observation was blank: without a probe
/// it is blank still or again, and a hit means that a probe watches and has a
/// failure armed.
pub proof fn law_unarmed_is_blank(calls: Seq<Call>)
    ensures
        !crate::trace::run(calls).active ==> crate::trace::run(calls) == Observation::blank(),
        crate::trace::run(calls).hit ==> crate::trace::run(calls).active && crate::trace::run(
            calls,
        ).failure is Some,
    decreases calls.len(),
{
    if calls.len() > 0 {
        law_unarmed_is_blank(calls.drop_last());
        law_tidiness_is_kept(crate::trace::run(calls.drop_last()), calls.last());
    }
}

/// No call makes a tidy observation untidy.
pub proof fn law_tidiness_is_kept(state: Observation, call: Call)
    requires
        state.tidy(),
    ensures
        crate::trace::step(state, call).tidy(),
{
}

/// One call on states that are the same but for addresses and lengths.
proof fn lemma_addresses_stay_inside_step(
    a: Observation,
    b: Observation,
    x: Call,
    y: Call,
    rename: spec_fn(usize) -> usize,
)
    requires
        crate::trace::injective(rename),
        crate::trace::same_but_addresses(a, b, rename),
        crate::trace::alike(x, y, rename),
    ensures
        crate::trace::reply(a, x) == crate::trace::reply(b, y),
        crate::trace::same_but_addresses(
            crate::trace::step(a, x),
            crate::trace::step(b, y),
            rename,
        ),
{
    match (x, y) {
        (Call::BeforeUnmap { base, .. }, Call::BeforeUnmap { base: other, .. }) => {
            assert(a.live_at(base) == b.live_at(other));
        },
        (Call::Unmapped { base, .. }, Call::Unmapped { base: other, .. }) => {
            assert(a.live_at(base) == b.live_at(other));
        },
        _ => {},
    }
}

/// No address and no length flows into an answer: two runs that are the same but
/// for the lengths and for a renaming of the addresses that keeps them apart,
/// and that before each unmap either both find zeros or both do not, get the
/// same answers to every call, and end with the same counters.
pub proof fn law_addresses_stay_inside(
    a: Seq<Call>,
    b: Seq<Call>,
    rename: spec_fn(usize) -> usize,
)
    requires
        crate::trace::injective(rename),
        a.len() == b.len(),
        forall|i: int|
            0 <= i < a.len() ==> crate::trace::alike(#[trigger] a[i], #[trigger] b[i], rename),
    ensures
        crate::trace::replies(a) == crate::trace::replies(b),
        crate::trace::same_but_addresses(crate::trace::run(a), crate::trace::run(b), rename),
    decreases a.len(),
{
    if a.len() > 0 {
        let front_a = a.drop_last();
        let front_b = b.drop_last();
        assert forall|i: int| 0 <= i < front_a.len() implies crate::trace::alike(
            #[trigger] front_a[i],
            #[trigger] front_b[i],
            rename,
        ) by {
            assert(front_a[i] == a[i] && front_b[i] == b[i]);
        }
        law_addresses_stay_inside(front_a, front_b, rename);
        assert(a.last() == a[a.len() - 1] && b.last() == b[a.len() - 1]);
        lemma_addresses_stay_inside_step(
            crate::trace::run(front_a),
            crate::trace::run(front_b),
            a.last(),
            b.last(),
            rename,
        );
    }
}

/// An observation passes exactly when nothing is live, the expected number of
/// mappings was made and given back, the expected number of writable regions
/// was zeroed, and the injected failure, if there is one, was reached.
pub proof fn law_passing_means_cleaned_up(state: Observation, maps: usize, cleared: usize)
    ensures
        state.verdict(maps, cleared) is None <==> {
            &&& state.mapping is None
            &&& state.maps == maps
            &&& state.unmaps == maps
            &&& state.cleared == cleared
            &&& state.hit == (state.failure is Some)
        },
{
}

/// An allocation is granted, or exactly one control refuses it.
pub proof fn law_one_control_refuses(setup: Setup, a: ProtectionControl, b: ProtectionControl)
    ensures
        setup.ready() ==> !setup.refused_by(a),
        setup.refused_by(a) && setup.refused_by(b) ==> a == b,
        !setup.ready() ==> exists|control: ProtectionControl| setup.refused_by(control),
{
    reveal(Setup::ready);
    if setup.refused_by(a) && setup.refused_by(b) {
        reveal(Setup::reached);
        if crate::setup::stage(a) < crate::setup::stage(b) {
            assert(!setup.blocks(a));
        }
        if crate::setup::stage(b) < crate::setup::stage(a) {
            assert(!setup.blocks(b));
        }
    }
    if !setup.ready() {
        setup.lemma_turns();
        assert(setup.refused_by(ProtectionControl::Canary) || setup.refused_by(
            ProtectionControl::Mapping,
        ) || setup.refused_by(ProtectionControl::GuardPages) || setup.refused_by(
            ProtectionControl::DumpExclusion,
        ) || setup.refused_by(ProtectionControl::ForkPolicy) || setup.refused_by(
            ProtectionControl::CachePolicy,
        ) || setup.refused_by(ProtectionControl::MemoryLock));
    }
}

/// A required control that does not come into force refuses the allocation. The
/// error names it, there is never anything to unlock, and the mapping is given
/// back if it had been made.
pub proof fn law_required_failure_refuses(setup: Setup, control: ProtectionControl)
    requires
        setup.reached(control),
        setup.requirement(control) == Requirement::Required,
        setup.attempt(control) != ProtectionState::Established,
    ensures
        !setup.ready(),
        setup.refused_by(control),
        setup.error(control).failure.control == control,
        setup.error(control).rollback.unlock == RollbackState::NotNeeded,
        setup.error(control).rollback.unmap == if control == ProtectionControl::Canary || control
            == ProtectionControl::Mapping {
            RollbackState::NotNeeded
        } else {
            crate::setup::step_state(setup.native.unmap)
        },
{
    setup.lemma_refused(Observation::blank(), control);
}

/// A failure injected into a control that a refusal comes from is reached, and
/// the refused allocation passes the check: a mapping that was made is given
/// back, and what had become writable of it is zeroed before.
pub proof fn law_injected_refusal_passes_check(
    kind: OwnerKind,
    native: NativeOutcomes,
    capacity: usize,
    request: ProtectionRequest,
    control: ProtectionControl,
)
    requires
        Setup::observed_by(
            Observation::armed(Some(control)),
            kind,
            native,
            capacity,
            request,
        ).refused_by(control),
    ensures
        ({
            let start = Observation::armed(Some(control));
            let setup = Setup::observed_by(start, kind, native, capacity, request);
            let mapped = control != ProtectionControl::Canary && control
                != ProtectionControl::Mapping;
            let opened = mapped && (kind == OwnerKind::Locked || control
                != ProtectionControl::GuardPages);
            setup.seen_cleaned(start).verdict(
                if mapped {
                    1
                } else {
                    0
                },
                if opened {
                    1
                } else {
                    0
                },
            ) is None
        }),
{
    let start = Observation::armed(Some(control));
    let setup = Setup::observed_by(start, kind, native, capacity, request);
    setup.lemma_refused(start, control);
    setup.lemma_turns();
}

/// Under the strict request, on a system that grants all that it has, an
/// injected failure refuses the allocation at that very control, whichever it
/// is of those that the request requires.
pub proof fn law_strict_injection_refuses(
    kind: OwnerKind,
    os: TargetOs,
    page: usize,
    base: usize,
    capacity: usize,
    control: ProtectionControl,
)
    requires
        crate::setup::mapped_bytes(kind, capacity as nat, page as nat) <= isize::MAX,
        control != ProtectionControl::CachePolicy,
        control == ProtectionControl::DumpExclusion ==> os == TargetOs::Linux,
        control == ProtectionControl::GuardPages ==> kind == OwnerKind::Guarded,
    ensures
        Setup::observed_by(
            Observation::armed(Some(control)),
            kind,
            NativeOutcomes::granting(os, page, base),
            capacity,
            crate::policy::strict_request(kind == OwnerKind::Guarded, os),
        ).refused_by(control),
{
    Setup::observed_by(
        Observation::armed(Some(control)),
        kind,
        NativeOutcomes::granting(os, page, base),
        capacity,
        crate::policy::strict_request(kind == OwnerKind::Guarded, os),
    ).lemma_turns();
}

/// A lock that the system refuses comes too late for the mapping and before the
/// fill: the allocation is refused by the lock, and it is cleaned up in full.
pub proof fn law_refused_lock_cleans_up(
    kind: OwnerKind,
    native: NativeOutcomes,
    capacity: usize,
    request: ProtectionRequest,
)
    requires
        Setup::observed_by(
            Observation::armed(None),
            kind,
            native,
            capacity,
            request,
        ).refused_by(ProtectionControl::MemoryLock),
    ensures
        ({
            let start = Observation::armed(None);
            let setup = Setup::observed_by(start, kind, native, capacity, request);
            &&& !setup.ready()
            &&& setup.error(ProtectionControl::MemoryLock).rollback.unmap
                == crate::setup::step_state(native.unmap)
            &&& setup.seen_cleaned(start).verdict(1, 1) is None
        }),
{
    let start = Observation::armed(None);
    let setup = Setup::observed_by(start, kind, native, capacity, request);
    setup.lemma_refused(start, ProtectionControl::MemoryLock);
    setup.lemma_turns();
}

/// A granted owner, once released, and a granted setup whose fill failed pass
/// the check alike: one mapping, given back, zeroed before. With a failure
/// injected, that holds if its control had its turn (and was only preferred, or
/// the setup would not have been granted).
pub proof fn law_granted_lifecycle_passes_check(
    kind: OwnerKind,
    native: NativeOutcomes,
    capacity: usize,
    request: ProtectionRequest,
    failure: Option<ProtectionControl>,
)
    requires
        ({
            let start = Observation::armed(failure);
            let setup = Setup::observed_by(start, kind, native, capacity, request);
            &&& setup.ready()
            &&& failure matches Some(control) ==> setup.tried(control)
        }),
    ensures
        ({
            let start = Observation::armed(failure);
            let setup = Setup::observed_by(start, kind, native, capacity, request);
            &&& setup.seen(start).after_cleared().after_unmapped().verdict(1, 1) is None
            &&& setup.seen_cleaned(start).verdict(1, 1) is None
        }),
{
    let start = Observation::armed(failure);
    let setup = Setup::observed_by(start, kind, native, capacity, request);
    setup.lemma_granted(start);
}

/// The owner that a granted setup makes is the one that the observer sees, so it
/// can be released under that observer.
pub proof fn law_granted_owner_is_watched(
    start: Observation,
    kind: OwnerKind,
    native: NativeOutcomes,
    capacity: usize,
    request: ProtectionRequest,
    len: usize,
    filled: Seq<u8>,
)
    requires
        ({
            let setup = Setup::observed_by(start, kind, native, capacity, request);
            setup.ready() && setup.placed() && setup.watchable(start) && setup.cleanable(start)
        }),
        filled.len() == capacity,
        len <= capacity,
    ensures
        ({
            let setup = Setup::observed_by(start, kind, native, capacity, request);
            let owner = crate::mapped::granted_secret(setup, len, filled);
            &&& owner.wf()
            &&& owner.watched_by(setup.seen(start))
            &&& owner.secret() == filled.take(len as int)
        }),
{
    let setup = Setup::observed_by(start, kind, native, capacity, request);
    let owner = crate::mapped::granted_secret(setup, len, filled);
    setup.lemma_granted(start);
    setup.lemma_live(start, 7);
    setup.lemma_turns();
    crate::pages::lemma_page_count_holds(capacity as nat, native.page as nat);
    assert(owner.secret() =~= filled.take(len as int));
}

/// On a system that grants all that it has, the strict request is granted, and
/// the report says what is in force. It satisfies the request unless the
/// mapping layer has no dump exclusion: a preferred control that is not in
/// force counts.
pub proof fn law_strict_request_is_reported_truthfully(
    kind: OwnerKind,
    os: TargetOs,
    page: usize,
    base: usize,
    capacity: usize,
)
    requires
        crate::setup::mapped_bytes(kind, capacity as nat, page as nat) <= isize::MAX,
    ensures
        ({
            let request = crate::policy::strict_request(kind == OwnerKind::Guarded, os);
            let setup = Setup::observed_by(
                Observation::armed(None),
                kind,
                NativeOutcomes::granting(os, page, base),
                capacity,
                request,
            );
            let report = setup.report();
            &&& setup.ready()
            &&& report.covers(request) == (os != TargetOs::MacOs)
            &&& report.mapping == ProtectionState::Established
            &&& report.memory_lock == ProtectionState::Established
            &&& report.canary == ProtectionState::Established
            &&& kind == OwnerKind::Guarded ==> report.guard_pages == ProtectionState::Established
            &&& report.fork.policy == ForkPolicy::Exclude
            &&& report.fork.state == ProtectionState::Established
            &&& report.dump_exclusion == match os {
                TargetOs::MacOs => ProtectionState::Unsupported,
                TargetOs::Linux => ProtectionState::Established,
            }
        }),
{
    let request = crate::policy::strict_request(kind == OwnerKind::Guarded, os);
    let setup = Setup::observed_by(
        Observation::armed(None),
        kind,
        NativeOutcomes::granting(os, page, base),
        capacity,
        request,
    );
    setup.lemma_turns();
}

/// A preferred control refuses nothing, and what became of it stays visible in
/// the report of the owner, which then does not satisfy the request.
pub proof fn law_preferred_failure_stays_visible(setup: Setup, control: ProtectionControl)
    requires
        setup.requirement(control) == Requirement::Preferred,
        setup.ready(),
    ensures
        !setup.blocks(control),
        setup.state_of(control) == setup.attempt(control),
        setup.attempt(control) != ProtectionState::Established ==> !setup.report().covers(
            setup.request,
        ),
{
    setup.lemma_turns();
}

/// A granted owner covers the request exactly when no control that was asked
/// for is degraded.
pub proof fn law_report_covers_undegraded(setup: Setup)
    requires
        setup.ready(),
        setup.kind == OwnerKind::Guarded || setup.request.guard_pages == Requirement::NotRequested,
    ensures
        setup.report().covers(setup.request) <==> (forall|control: ProtectionControl|
            setup.requirement(control) == Requirement::Preferred ==> #[trigger] setup.attempt(
                control,
            ) == ProtectionState::Established),
{
    setup.lemma_turns();
    if setup.report().covers(setup.request) {
        assert forall|control: ProtectionControl|
            setup.requirement(control) == Requirement::Preferred implies #[trigger] setup.attempt(
            control,
        ) == ProtectionState::Established by {
            assert(setup.state_of(control) == setup.attempt(control));
        }
    } else {
        assert(exists|control: ProtectionControl|
            setup.requirement(control) == Requirement::Preferred && #[trigger] setup.attempt(
                control,
            ) != ProtectionState::Established) by {
            let attempts = (
                setup.attempt(ProtectionControl::Canary),
                setup.attempt(ProtectionControl::GuardPages),
                setup.attempt(ProtectionControl::DumpExclusion),
                setup.attempt(ProtectionControl::ForkPolicy),
                setup.attempt(ProtectionControl::CachePolicy),
                setup.attempt(ProtectionControl::MemoryLock),
            );
        }
    }
}

/// The data pages are whole pages that hold the capacity, with less than a page
/// to spare, and a locked owner has all of them locked. In a guarded owner that
/// is the mapping without its two guard pages.
pub proof fn law_boundary_accounting(setup: Setup)
    requires
        setup.placed(),
        setup.ready(),
    ensures
        ({
            let report = setup.report();
            let page = setup.native.page;
            &&& report.page_granule == page
            &&& report.mapped_bytes == setup.mapped_bytes()
            &&& report.mapped_bytes as int % page as int == 0
            &&& setup.locks() ==> {
                &&& setup.capacity <= report.locked_bytes < setup.capacity + page
                &&& report.locked_bytes as int % page as int == 0
                &&& report.locked_bytes == match setup.kind {
                    OwnerKind::Guarded => report.mapped_bytes - 2 * page,
                    OwnerKind::Locked => report.mapped_bytes as int,
                }
            }
            &&& !setup.locks() ==> report.locked_bytes == 0
        }),
{
    let page = setup.native.page as int;
    setup.lemma_granted(Observation::blank());
    crate::pages::lemma_page_count_holds(setup.capacity as nat, setup.native.page as nat);
    if setup.kind == OwnerKind::Guarded {
        vstd::arithmetic::div_mod::lemma_mod_multiples_vanish(
            2,
            setup.data_bytes() as int,
            page,
        );
        assert(setup.mapped_bytes() == page * 2 + setup.data_bytes());
    }
}

/// One page that is mapped, or that the query could not tell about, is enough to
/// reject the absence of a range.
pub proof fn law_present_page_rejects_absence(scan: ScanView, i: int)
    requires
        0 <= i < scan.answers.len(),
        scan.answers[i].result != -1 || scan.answers[i].errno != crate::oracle::ENOMEM,
    ensures
        !scan.all_absent(),
{
    assert(!scan.answers[i].absent());
}

/// Nothing but a clean exit proves absence: the parent reports it only after a
/// poll that saw this child exit with status zero, and nothing before that poll
/// had ended the watch.
pub proof fn law_absence_needs_clean_exit(child: i32, polls: Seq<Poll>)
    requires
        crate::oracle::watched(child, polls) == WatchPhase::Answered(true),
    ensures
        exists|i: int|
            0 <= i < polls.len() && (#[trigger] polls[i]).result == child && polls[i].status == 0
                && crate::oracle::watched(child, polls.take(i)) == WatchPhase::Polling,
    decreases polls.len(),
{
    if polls.len() > 0 {
        let front = polls.drop_last();
        if crate::oracle::watched(child, front) == WatchPhase::Polling {
            let i = polls.len() - 1;
            assert(polls.take(i) =~= front);
            assert(polls[i] == polls.last());
        } else {
            law_absence_needs_clean_exit(child, front);
            let i = choose|i: int|
                0 <= i < front.len() && (#[trigger] front[i]).result == child && front[i].status
                    == 0 && crate::oracle::watched(child, front.take(i)) == WatchPhase::Polling;
            assert(front.take(i) =~= polls.take(i));
            assert(polls[i] == front[i]);
        }
    }
}

/// The deadline ends the polling, and so does a wait that failed for anything
/// but a signal.
pub proof fn law_polling_ends(poll: Poll, child: i32)
    requires
        crate::oracle::past_deadline(poll.elapsed_nanos, crate::oracle::CHILD_TIMEOUT_SECS) || (
        poll.result == -1 && poll.errno != crate::oracle::EINTR),
    ensures
        poll.leads_to(child) != WatchPhase::Polling,
{
}

/// The child's answer reaches the parent: where the system hands on whether the
/// exit status was zero, the parent reports what the child found.
pub proof fn law_answer_reaches_parent(absent: bool, poll: Poll, child: i32)
    requires
        poll.result == child,
        (poll.status == 0) == (crate::oracle::exit_code(absent) == 0),
    ensures
        poll.leads_to(child) == WatchPhase::Answered(absent),
{
}

} // verus!
