//! What the calls of the probe and of the backend come to, field by field.
//!
//! As elsewhere, `call_ensures` ties a law's result to the call's arguments.
use vstd::prelude::*;

use crate::policy::ProtectionControl;
use crate::probe::{Observation, Probe, Violation};
use crate::trace::{Call, Reply};

verus! {

/// Before anyone watches there is nothing: no probe, no failure, no mapping,
/// no count.
pub proof fn law_default_is_empty(r: Observation)
    requires
        call_ensures(<Observation as Default>::default, (), r),
    ensures
        !r.active && r.failure is None && !r.hit,
        r.mapping is None && r.writable is None,
        r.maps == 0 && r.unmaps == 0 && r.cleared == 0,
        r == Observation::blank(),
{
}

/// A probe is started if and only if none is watching. It watches from an empty
/// book on, with the failure that it was given. A refused start changes nothing.
pub proof fn law_start_arms_an_empty_book(
    state: &mut Observation,
    failure: Option<ProtectionControl>,
    r: Result<Probe, Violation>,
)
    requires
        call_ensures(Probe::start, (state, failure), r),
    ensures
        old(state).active ==> r == Err::<Probe, Violation>(Violation::AlreadyActive)
            && *final(state) == *old(state),
        !old(state).active ==> {
            &&& r is Ok
            &&& final(state).active
            &&& final(state).failure == failure
            &&& !final(state).hit
            &&& final(state).mapping is None
            &&& final(state).writable is None
            &&& final(state).maps == 0
            &&& final(state).unmaps == 0
            &&& final(state).cleared == 0
        },
{
}

/// A dropped probe leaves nothing behind.
pub proof fn law_drop_empties_the_book(probe: Probe, state: &mut Observation, r: ())
    requires
        call_ensures(Probe::drop, (probe, state), r),
    ensures
        !final(state).active && final(state).failure is None && !final(state).hit,
        final(state).mapping is None && final(state).writable is None,
        final(state).maps == 0 && final(state).unmaps == 0 && final(state).cleared == 0,
{
}

/// A check passes exactly if the injected failure, and none but an injected
/// one, was reached, as many mappings were made and given back as expected, as
/// many regions were found zeroed as expected, and nothing is live. Otherwise it
/// names the first of these that does not hold.
pub proof fn law_check_names_the_first_fault(
    probe: Probe,
    state: Observation,
    maps: usize,
    cleared: usize,
    r: Result<(), Violation>,
)
    requires
        call_ensures(Probe::check, (&probe, &state, maps, cleared), r),
    ensures
        ({
            let injection = state.hit == (state.failure is Some);
            let made = state.maps == maps;
            let given_back = state.unmaps == maps;
            let zeroed = state.cleared == cleared;
            let gone = state.mapping is None;
            &&& r is Ok <==> injection && made && given_back && zeroed && gone
            &&& r == Err::<(), Violation>(Violation::Injection) <==> !injection
            &&& r == Err::<(), Violation>(Violation::MapCount) <==> injection && !made
            &&& r == Err::<(), Violation>(Violation::UnmapCount) <==> injection && made
                && !given_back
            &&& r == Err::<(), Violation>(Violation::ClearedCount) <==> injection && made
                && given_back && !zeroed
            &&& r == Err::<(), Violation>(Violation::LiveMapping) <==> injection && made
                && given_back && zeroed && !gone
        }),
{
}

/// A control is made to fail exactly if a probe watches and has armed that
/// control, and then the hit is noted. Nothing else changes, and a hit is never
/// forgotten.
pub proof fn law_fail_hits_the_armed_control(
    state: &mut Observation,
    control: ProtectionControl,
    r: bool,
)
    requires
        call_ensures(crate::probe::fail, (state, control), r),
    ensures
        r <==> old(state).active && old(state).failure == Some(control),
        final(state).hit == (old(state).hit || r),
        final(state).active == old(state).active,
        final(state).failure == old(state).failure,
        final(state).mapping == old(state).mapping,
        final(state).writable == old(state).writable,
        final(state).maps == old(state).maps,
        final(state).unmaps == old(state).unmaps,
        final(state).cleared == old(state).cleared,
{
}

/// An armed observation takes one mapping at a time: it notes its place and its
/// length and counts it, and turns a second one away.
pub proof fn law_mapped_takes_one_at_a_time(
    state: &mut Observation,
    base: usize,
    len: usize,
    r: Result<(), Violation>,
)
    requires
        call_ensures(crate::probe::mapped, (state, base, len), r),
        old(state).maps < usize::MAX,
    ensures
        !old(state).active ==> r is Ok && *final(state) == *old(state),
        old(state).active && old(state).mapping is Some ==> r == Err::<(), Violation>(
            Violation::SecondMapping,
        ) && *final(state) == *old(state),
        old(state).active && old(state).mapping is None ==> {
            &&& r is Ok
            &&& final(state).mapping == Some((base, len))
            &&& final(state).maps == old(state).maps + 1
            &&& final(state).active
            &&& final(state).failure == old(state).failure
            &&& final(state).hit == old(state).hit
            &&& final(state).writable == old(state).writable
            &&& final(state).unmaps == old(state).unmaps
            &&& final(state).cleared == old(state).cleared
        },
{
}

/// An armed observation notes the region that became writable last, and nothing
/// else.
pub proof fn law_writable_notes_the_region(
    state: &mut Observation,
    data: usize,
    len: usize,
    r: (),
)
    requires
        call_ensures(crate::probe::writable, (state, data, len), r),
    ensures
        !old(state).active ==> *final(state) == *old(state),
        old(state).active ==> final(state).writable == Some((data, len)),
        final(state).active == old(state).active,
        final(state).failure == old(state).failure,
        final(state).hit == old(state).hit,
        final(state).mapping == old(state).mapping,
        final(state).maps == old(state).maps,
        final(state).unmaps == old(state).unmaps,
        final(state).cleared == old(state).cleared,
{
}

/// One byte that is not zero, wherever it stands in the writable region, is
/// enough: the region is not counted as zeroed, and nothing changes.
pub proof fn law_any_byte_left_is_not_cleared(
    state: &mut Observation,
    base: usize,
    len: usize,
    bytes: &[u8],
    i: int,
    r: Result<(), Violation>,
)
    requires
        call_ensures(crate::probe::before_unmap, (state, base, bytes), r),
        old(state).active,
        old(state).mapping == Some((base, len)),
        old(state).writable is Some,
        0 <= i < bytes@.len(),
        bytes@[i] != 0,
    ensures
        r == Err::<(), Violation>(Violation::NotCleared),
        *final(state) == *old(state),
{
}

/// A writable region that holds nothing but zeros is counted once, and nothing
/// else changes.
pub proof fn law_zeroed_region_is_counted(
    state: &mut Observation,
    base: usize,
    len: usize,
    bytes: &[u8],
    r: Result<(), Violation>,
)
    requires
        call_ensures(crate::probe::before_unmap, (state, base, bytes), r),
        old(state).active,
        old(state).mapping == Some((base, len)),
        old(state).writable is Some,
        old(state).cleared < usize::MAX,
        forall|i: int| 0 <= i < bytes@.len() ==> bytes@[i] == 0,
    ensures
        r is Ok,
        final(state).cleared == old(state).cleared + 1,
        final(state).active,
        final(state).failure == old(state).failure,
        final(state).hit == old(state).hit,
        final(state).mapping == old(state).mapping,
        final(state).writable == old(state).writable,
        final(state).maps == old(state).maps,
        final(state).unmaps == old(state).unmaps,
{
}

/// Where there is no writable region, where nobody watches, and where the base
/// is not that of the live mapping, the bytes are not looked at and nothing is
/// counted. A base that is not the live one is turned away.
pub proof fn law_bytes_count_for_the_live_region_alone(
    state: &mut Observation,
    base: usize,
    bytes: &[u8],
    r: Result<(), Violation>,
)
    requires
        call_ensures(crate::probe::before_unmap, (state, base, bytes), r),
    ensures
        !old(state).active ==> r is Ok && *final(state) == *old(state),
        old(state).active && old(state).mapping is None ==> r == Err::<(), Violation>(
            Violation::ForeignBase,
        ) && *final(state) == *old(state),
        forall|live: usize, len: usize|
            old(state).active && old(state).mapping == Some((live, len)) && live != base ==> r
                == Err::<(), Violation>(Violation::ForeignBase) && *final(state) == *old(state),
        forall|len: usize|
            old(state).active && old(state).mapping == Some((base, len))
                && old(state).writable is None ==> r is Ok && *final(state) == *old(state),
{
}

/// An armed observation counts a mapping as given back exactly if it is the
/// live one and the system has taken it; then neither it nor its region is live
/// any more. Else nothing changes, and the fault is named.
pub proof fn law_unmapped_closes_the_live_mapping(
    state: &mut Observation,
    base: usize,
    success: bool,
    r: Result<(), Violation>,
)
    requires
        call_ensures(crate::probe::unmapped, (state, base, success), r),
        old(state).unmaps < usize::MAX,
    ensures
        !old(state).active ==> r is Ok && *final(state) == *old(state),
        old(state).active && old(state).mapping is None ==> r == Err::<(), Violation>(
            Violation::ForeignBase,
        ) && *final(state) == *old(state),
        forall|live: usize, len: usize|
            old(state).active && old(state).mapping == Some((live, len)) && live != base ==> r
                == Err::<(), Violation>(Violation::ForeignBase) && *final(state) == *old(state),
        forall|len: usize|
            old(state).active && old(state).mapping == Some((base, len)) && !success ==> r
                == Err::<(), Violation>(Violation::UnmapFailed) && *final(state) == *old(state),
        forall|len: usize|
            old(state).active && old(state).mapping == Some((base, len)) && success ==> {
                &&& r is Ok
                &&& final(state).mapping is None
                &&& final(state).writable is None
                &&& final(state).unmaps == old(state).unmaps + 1
                &&& final(state).active
                &&& final(state).failure == old(state).failure
                &&& final(state).hit == old(state).hit
                &&& final(state).maps == old(state).maps
                &&& final(state).cleared == old(state).cleared
            },
{
}

/// The backend can report to a watching observation whatever it has mapped, as
/// long as no counter is full: no report is barred that the backend may have to
/// make.
pub proof fn law_backend_may_always_report(
    state: &mut Observation,
    base: usize,
    len: usize,
    bytes: &[u8],
    success: bool,
    control: ProtectionControl,
    failure: Option<ProtectionControl>,
)
    requires
        old(state).maps < usize::MAX,
        old(state).unmaps < usize::MAX,
        old(state).cleared < usize::MAX,
        old(state).writable matches Some((_, size)) ==> bytes@.len() == size,
    ensures
        call_requires(Probe::start, (state, failure)),
        call_requires(crate::probe::fail, (state, control)),
        call_requires(crate::probe::mapped, (state, base, len)),
        call_requires(crate::probe::writable, (state, base, len)),
        call_requires(crate::probe::before_unmap, (state, base, bytes)),
        call_requires(crate::probe::unmapped, (state, base, success)),
{
}

/// Without a probe every report may be made, even with full counters.
pub proof fn law_unwatched_backend_is_free(
    state: &mut Observation,
    base: usize,
    len: usize,
    bytes: &[u8],
    success: bool,
)
    requires
        !old(state).active,
    ensures
        call_requires(crate::probe::mapped, (state, base, len)),
        call_requires(crate::probe::before_unmap, (state, base, bytes)),
        call_requires(crate::probe::unmapped, (state, base, success)),
{
}

/// A run of calls is a run of these calls: what a step answers and leaves is
/// what starting a probe answers and leaves.
pub proof fn law_trace_follows_start(
    state: &mut Observation,
    failure: Option<ProtectionControl>,
    r: Result<Probe, Violation>,
)
    requires
        call_ensures(Probe::start, (state, failure), r),
    ensures
        ({
            let call = Call::Start { failure };
            &&& crate::trace::step(*old(state), call) == *final(state)
            &&& crate::trace::reply(*old(state), call) == match r {
                Ok(_) => Reply::Holds(Ok(())),
                Err(violation) => Reply::Holds(Err(violation)),
            }
        }),
{
}

/// What a step answers and leaves is what the injection answers and leaves.
pub proof fn law_trace_follows_fail(state: &mut Observation, control: ProtectionControl, r: bool)
    requires
        call_ensures(crate::probe::fail, (state, control), r),
    ensures
        crate::trace::step(*old(state), (Call::Fail { control })) == *final(state),
        crate::trace::reply(*old(state), (Call::Fail { control })) == Reply::Fails(r),
{
}

/// What a step answers and leaves is what a mapping answers and leaves.
pub proof fn law_trace_follows_mapped(
    state: &mut Observation,
    base: usize,
    len: usize,
    r: Result<(), Violation>,
)
    requires
        call_ensures(crate::probe::mapped, (state, base, len), r),
    ensures
        crate::trace::step(*old(state), (Call::Mapped { base, len })) == *final(state),
        crate::trace::reply(*old(state), (Call::Mapped { base, len })) == Reply::Holds(r),
{
}

/// What a step leaves is what a writable region leaves.
pub proof fn law_trace_follows_writable(
    state: &mut Observation,
    data: usize,
    len: usize,
    r: (),
)
    requires
        call_ensures(crate::probe::writable, (state, data, len), r),
    ensures
        crate::trace::step(*old(state), (Call::Writable { data, len })) == *final(state),
{
}

/// What a step answers and leaves is what an unmap that is about to happen
/// answers and leaves.
pub proof fn law_trace_follows_before_unmap(
    state: &mut Observation,
    base: usize,
    bytes: &[u8],
    r: Result<(), Violation>,
)
    requires
        call_ensures(crate::probe::before_unmap, (state, base, bytes), r),
    ensures
        crate::trace::step(*old(state), (Call::BeforeUnmap { base, bytes: bytes@ })) == *final(state),
        crate::trace::reply(*old(state), (Call::BeforeUnmap { base, bytes: bytes@ }))
            == Reply::Holds(r),
{
}

/// What a step answers and leaves is what an unmap answers and leaves.
pub proof fn law_trace_follows_unmapped(
    state: &mut Observation,
    base: usize,
    success: bool,
    r: Result<(), Violation>,
)
    requires
        call_ensures(crate::probe::unmapped, (state, base, success), r),
    ensures
        crate::trace::step(*old(state), (Call::Unmapped { base, success })) == *final(state),
        crate::trace::reply(*old(state), (Call::Unmapped { base, success })) == Reply::Holds(r),
{
}

/// What a step answers is what a check answers, and it leaves all as it is.
pub proof fn law_trace_follows_check(
    probe: Probe,
    state: Observation,
    maps: usize,
    cleared: usize,
    r: Result<(), Violation>,
)
    requires
        call_ensures(Probe::check, (&probe, &state, maps, cleared), r),
    ensures
        crate::trace::step(state, (Call::Check { maps, cleared })) == state,
        crate::trace::reply(state, (Call::Check { maps, cleared })) == Reply::Holds(r),
{
}

/// What a step leaves is what dropping the probe leaves.
pub proof fn law_trace_follows_drop(probe: Probe, state: &mut Observation, r: ())
    requires
        call_ensures(Probe::drop, (probe, state), r),
    ensures
        crate::trace::step(*old(state), Call::Drop) == *final(state),
{
}

/// Each expectation has words of its own: who reads a message knows what went
/// wrong.
pub proof fn law_messages_tell_faults_apart(
    a: Violation,
    b: Violation,
    r: &'static str,
    s: &'static str,
)
    requires
        call_ensures(Violation::message, (&a,), r),
        call_ensures(Violation::message, (&b,), s),
    ensures
        r@ == s@ <==> a == b,
{
    reveal_strlit("no other probe is active");
    reveal_strlit("no other mapping is live");
    reveal_strlit("base of the live mapping");
    reveal_strlit("complete writable region cleared");
    reveal_strlit("native unmap completed");
    reveal_strlit("injection reached");
    reveal_strlit("mapping count");
    reveal_strlit("successful cleanup count");
    reveal_strlit("zero-before-unmap observations");
    reveal_strlit("no live allocation remains");
    let x = a.text();
    let y = b.text();
    if x == y {
        assert(x.len() == y.len() && x[0] == y[0] && x[3] == y[3] && x[9] == y[9]);
    }
}

} // verus!
