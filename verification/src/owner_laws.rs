//! What setting an owner up, reading it and releasing it come to.
//!
//! A law about a call takes the call's arguments and its result as inputs, tied
//! together by `call_ensures`: it holds of everything that the call can return.
//! The laws speak of what was asked for and of what the system answered, field
//! by field. `rounded` is always the capacity in whole pages: the multiple of
//! the page size that holds it with less than a page to spare.
use vstd::prelude::*;

use crate::mapped::{
    GuardedSecretVec,
    LockedSecretVec,
    ProtectedSecretFillError,
    SecretLengthError,
};
use crate::policy::{
    ProtectionControl,
    ProtectionReport,
    ProtectionRequest,
    ProtectionState,
    Requirement,
};
use crate::probe::{Observation, Probe, Violation};
use crate::setup::{NativeOutcomes, Outcome, OwnerKind, Rollback, RollbackState, Setup};

verus! {

/// For every control that has its turn, is asked for and is not made to fail:
/// it is established exactly if the system's own answer for that control is
/// that it was applied. (A mapping has to be of a size that can be had, and an
/// owner without guard pages has none.)
pub proof fn law_established_is_the_systems_answer(setup: Setup, control: ProtectionControl)
    requires
        setup.reached(control),
        setup.injected != Some(control),
    ensures
        control == ProtectionControl::Canary && setup.request.canary != Requirement::NotRequested
            ==> (setup.report().canary == ProtectionState::Established <==> setup.native.canary
            == Outcome::Applied),
        control == ProtectionControl::Mapping ==> (setup.report().mapping
            == ProtectionState::Established ==> setup.native.mapping == Outcome::Applied),
        control == ProtectionControl::GuardPages && setup.kind == OwnerKind::Guarded ==> (
        setup.report().guard_pages == ProtectionState::Established <==> setup.native.guard_pages
            == Outcome::Applied),
        control == ProtectionControl::GuardPages && setup.kind == OwnerKind::Locked
            ==> setup.report().guard_pages != ProtectionState::Established,
        control == ProtectionControl::DumpExclusion && setup.request.dump_exclusion
            != Requirement::NotRequested ==> (setup.report().dump_exclusion
            == ProtectionState::Established <==> setup.native.dump_exclusion == Outcome::Applied),
        control == ProtectionControl::ForkPolicy && setup.request.fork.requirement
            != Requirement::NotRequested ==> (setup.report().fork.state
            == ProtectionState::Established <==> setup.native.fork == Outcome::Applied),
        control == ProtectionControl::CachePolicy && setup.request.cache_policy
            != Requirement::NotRequested ==> (setup.report().cache_policy
            == ProtectionState::Established <==> setup.native.cache_policy == Outcome::Applied),
        control == ProtectionControl::MemoryLock && setup.request.memory_lock
            != Requirement::NotRequested ==> (setup.report().memory_lock
            == ProtectionState::Established <==> setup.native.memory_lock == Outcome::Applied),
        setup.report().fork.policy == setup.request.fork.policy,
{
}

/// The allocation is granted only if the system applied every control that is
/// required.
pub proof fn law_grant_needs_the_systems_answers(setup: Setup)
    requires
        setup.ready(),
    ensures
        setup.native.mapping == Outcome::Applied,
        setup.kind == OwnerKind::Guarded ==> setup.native.guard_pages == Outcome::Applied,
        setup.kind == OwnerKind::Locked ==> setup.request.guard_pages != Requirement::Required,
        setup.request.canary == Requirement::Required ==> setup.native.canary == Outcome::Applied,
        setup.request.dump_exclusion == Requirement::Required ==> setup.native.dump_exclusion
            == Outcome::Applied,
        setup.request.fork.requirement == Requirement::Required ==> setup.native.fork
            == Outcome::Applied,
        setup.request.cache_policy == Requirement::Required ==> setup.native.cache_policy
            == Outcome::Applied,
        setup.request.memory_lock == Requirement::Required ==> setup.native.memory_lock
            == Outcome::Applied,
{
    setup.lemma_turns();
}

/// A guarded owner is refused exactly if a required control does not come into force,
/// because it is made to fail or because the system did not answer that it was
/// applied; and the refusal names the first such control. The mapping and
/// the guard pages are always required.
pub proof fn law_guarded_refusal_is_the_first_failure<E, F: FnOnce(&mut [u8]) -> Result<usize, E>>(
    state: &mut Observation,
    native: &NativeOutcomes,
    pages: &mut [u8],
    capacity: usize,
    request: ProtectionRequest,
    fill: F,
    r: Result<GuardedSecretVec, ProtectedSecretFillError<E>>,
    rounded: nat,
)
    requires
        call_ensures(
            GuardedSecretVec::try_from_capacity_with_protection::<E, F>,
            (state, native, pages, capacity, request, fill),
            r,
        ),
        native.page > 0,
        rounded as int % native.page as int == 0,
        capacity <= rounded < capacity + native.page,
    ensures
        ({
            let injected = if old(state).active {
                old(state).failure
            } else {
                None
            };
            let canary = request.canary != Requirement::Required || (native.canary
                == Outcome::Applied && injected != Some(ProtectionControl::Canary));
            let mapping = native.mapping == Outcome::Applied && injected != Some(
                ProtectionControl::Mapping,
            ) && rounded + 2 * native.page <= isize::MAX;
            let guards = native.guard_pages == Outcome::Applied && injected != Some(
                ProtectionControl::GuardPages,
            );
            let dump = request.dump_exclusion != Requirement::Required || (native.dump_exclusion
                == Outcome::Applied && injected != Some(ProtectionControl::DumpExclusion));
            let fork = request.fork.requirement != Requirement::Required || (native.fork
                == Outcome::Applied && injected != Some(ProtectionControl::ForkPolicy));
            let cache = request.cache_policy != Requirement::Required || (native.cache_policy
                == Outcome::Applied && injected != Some(ProtectionControl::CachePolicy));
            let lock = request.memory_lock != Requirement::Required || (native.memory_lock
                == Outcome::Applied && injected != Some(ProtectionControl::MemoryLock));
            &&& (r matches Err(ProtectedSecretFillError::Protection(_))) == !(canary && mapping
                && guards && dump && fork && cache && lock)
            &&& r matches Err(ProtectedSecretFillError::Protection(error))
                ==> error.failure.control == if !canary {
                ProtectionControl::Canary
            } else if !mapping {
                ProtectionControl::Mapping
            } else if !guards {
                ProtectionControl::GuardPages
            } else if !dump {
                ProtectionControl::DumpExclusion
            } else if !fork {
                ProtectionControl::ForkPolicy
            } else if !cache {
                ProtectionControl::CachePolicy
            } else {
                ProtectionControl::MemoryLock
            }
        }),
{
    let setup = Setup::observed_by(
        *state,
        OwnerKind::Guarded,
        *native,
        capacity,
        request,
    );
    setup.lemma_turns();
    crate::policy_laws::lemma_rounded(capacity, native.page, rounded);
}

/// The report of a guarded owner, or of its refusal, says of each control what became
/// of it, and no better: `shown` is what it says of `control`, `asked` how
/// strongly that was asked for, and `answer` what the system answered.
pub proof fn law_guarded_report_is_truthful<E, F: FnOnce(&mut [u8]) -> Result<usize, E>>(
    state: &mut Observation,
    native: &NativeOutcomes,
    pages: &mut [u8],
    capacity: usize,
    request: ProtectionRequest,
    fill: F,
    r: Result<GuardedSecretVec, ProtectedSecretFillError<E>>,
    rounded: nat,
    report: ProtectionReport,
    control: ProtectionControl,
    asked: Requirement,
    answer: Outcome,
    shown: ProtectionState,
)
    requires
        call_ensures(
            GuardedSecretVec::try_from_capacity_with_protection::<E, F>,
            (state, native, pages, capacity, request, fill),
            r,
        ),
        native.page > 0,
        rounded as int % native.page as int == 0,
        capacity <= rounded < capacity + native.page,
        match r {
            Ok(owner) => report == owner.inner.report,
            Err(ProtectedSecretFillError::Protection(error)) => report == error.partial_report,
            _ => false,
        },
        control == ProtectionControl::Canary ==> asked == request.canary && answer
            == native.canary && shown == report.canary,
        control == ProtectionControl::Mapping ==> asked == Requirement::Required && answer == (
        if rounded + 2 * native.page <= isize::MAX {
            native.mapping
        } else {
            Outcome::Unsupported
        }) && shown == report.mapping,
        control == ProtectionControl::GuardPages ==> asked == Requirement::Required && answer
            == native.guard_pages && shown == report.guard_pages,
        control == ProtectionControl::DumpExclusion ==> asked == request.dump_exclusion && answer
            == native.dump_exclusion && shown == report.dump_exclusion,
        control == ProtectionControl::ForkPolicy ==> asked == request.fork.requirement && answer
            == native.fork && shown == report.fork.state,
        control == ProtectionControl::CachePolicy ==> asked == request.cache_policy && answer
            == native.cache_policy && shown == report.cache_policy,
        control == ProtectionControl::MemoryLock ==> asked == request.memory_lock && answer
            == native.memory_lock && shown == report.memory_lock,
    ensures
        ({
            let turn = |c: ProtectionControl|
                match c {
                    ProtectionControl::Canary => 0int,
                    ProtectionControl::Mapping => 1,
                    ProtectionControl::GuardPages => 2,
                    ProtectionControl::DumpExclusion => 3,
                    ProtectionControl::ForkPolicy => 4,
                    ProtectionControl::CachePolicy => 5,
                    ProtectionControl::MemoryLock => 6,
                };
            let tried = asked != Requirement::NotRequested && match r {
                Err(ProtectedSecretFillError::Protection(error)) => turn(control) <= turn(
                    error.failure.control,
                ),
                _ => true,
            };
            let injected = old(state).active && old(state).failure == Some(control);
            &&& shown == ProtectionState::NotRequested <==> asked == Requirement::NotRequested
            &&& shown == ProtectionState::NotAttempted <==> asked != Requirement::NotRequested
                && !tried
            &&& shown == ProtectionState::Established <==> tried && !injected && answer
                == Outcome::Applied
            &&& shown == ProtectionState::Unsupported <==> tried && !injected && answer
                == Outcome::Unsupported
            &&& shown == (ProtectionState::Failed { errno: None }) <==> tried && injected
            &&& forall|code: i32|
                shown == (ProtectionState::Failed { errno: Some(code) }) <==> tried && !injected
                    && answer == Outcome::Refused(code)
        }),
        report.fork.policy == request.fork.policy,
        report.page_granule == native.page,
        report.mapped_bytes == if report.mapping == ProtectionState::Established {
            rounded + 2 * native.page
        } else {
            0
        },
        report.locked_bytes == if report.memory_lock == ProtectionState::Established {
            rounded as int
        } else {
            0
        },
{
    let setup = Setup::observed_by(
        *state,
        OwnerKind::Guarded,
        *native,
        capacity,
        request,
    );
    setup.lemma_turns();
    crate::policy_laws::lemma_rounded(capacity, native.page, rounded);
    if let Err(ProtectedSecretFillError::Protection(error)) = r {
        setup.lemma_refused(*state, error.failure.control);
    } else {
        setup.lemma_granted(*state);
    }
}

/// A refusal of a guarded owner says why its control is not in force, finds nothing to
/// unlock, and has given the mapping back if there was one.
pub proof fn law_guarded_refusal_rolls_back<E, F: FnOnce(&mut [u8]) -> Result<usize, E>>(
    state: &mut Observation,
    native: &NativeOutcomes,
    pages: &mut [u8],
    capacity: usize,
    request: ProtectionRequest,
    fill: F,
    r: Result<GuardedSecretVec, ProtectedSecretFillError<E>>,
    error: crate::setup::ProtectionError,
)
    requires
        call_ensures(
            GuardedSecretVec::try_from_capacity_with_protection::<E, F>,
            (state, native, pages, capacity, request, fill),
            r,
        ),
        r == Err::<GuardedSecretVec, ProtectedSecretFillError<E>>(
            ProtectedSecretFillError::Protection(error),
        ),
    ensures
        error.failure.state != ProtectionState::Established,
        error.failure.state == match error.failure.control {
            ProtectionControl::Canary => error.partial_report.canary,
            ProtectionControl::Mapping => error.partial_report.mapping,
            ProtectionControl::GuardPages => error.partial_report.guard_pages,
            ProtectionControl::DumpExclusion => error.partial_report.dump_exclusion,
            ProtectionControl::ForkPolicy => error.partial_report.fork.state,
            ProtectionControl::CachePolicy => error.partial_report.cache_policy,
            ProtectionControl::MemoryLock => error.partial_report.memory_lock,
        },
        error.rollback.unlock == RollbackState::NotNeeded,
        error.rollback.unmap == if error.failure.control == ProtectionControl::Canary
            || error.failure.control == ProtectionControl::Mapping {
            RollbackState::NotNeeded
        } else if native.unmap {
            RollbackState::Completed
        } else {
            RollbackState::Failed
        },
{
    let setup = Setup::observed_by(
        *state,
        OwnerKind::Guarded,
        *native,
        capacity,
        request,
    );
    setup.lemma_turns();
    setup.lemma_refused(*state, error.failure.control);
}

/// Where a guarded owner is not refused, the fill has run on nothing but zeros, as
/// many as the capacity, and its outcome is the outcome: an owner that holds
/// what the fill left, with as many bytes of secret as it claimed; or its
/// error; or, if it claimed more than it was given, that claim.
pub proof fn law_guarded_outcome_is_the_fills<E, F: FnOnce(&mut [u8]) -> Result<usize, E>>(
    state: &mut Observation,
    native: &NativeOutcomes,
    pages: &mut [u8],
    capacity: usize,
    request: ProtectionRequest,
    fill: F,
    r: Result<GuardedSecretVec, ProtectedSecretFillError<E>>,
)
    requires
        call_ensures(
            GuardedSecretVec::try_from_capacity_with_protection::<E, F>,
            (state, native, pages, capacity, request, fill),
            r,
        ),
        !(r matches Err(ProtectedSecretFillError::Protection(_))),
    ensures
        exists|bytes: &mut [u8], out: Result<usize, E>|
            {
                &&& #[trigger] call_ensures(fill, (bytes,), out)
                &&& bytes@.len() == capacity
                &&& forall|i: int| 0 <= i < capacity ==> bytes@[i] == 0
                &&& match out {
                    Ok(n) => if n <= capacity {
                        &&& r matches Ok(owner)
                        &&& owner.inner.len == n
                        &&& owner.inner.pages@.take(capacity as int) == final(bytes)@
                        &&& forall|i: int|
                            capacity <= i < owner.inner.pages@.len() ==> owner.inner.pages@[i] == 0
                    } else {
                        &&& r matches Err(ProtectedSecretFillError::Length(error))
                        &&& error.length == n
                        &&& error.capacity == capacity
                    },
                    Err(cause) => {
                        &&& r matches Err(ProtectedSecretFillError::Fill(error))
                        &&& error == cause
                    },
                }
            },
{
    let setup = Setup::observed_by(
        *state,
        OwnerKind::Guarded,
        *native,
        capacity,
        request,
    );
    setup.lemma_turns();
    let (bytes, out) = choose|bytes: &mut [u8], out: Result<usize, E>|
        {
            &&& bytes@ == crate::setup::zeros(capacity as nat)
            &&& #[trigger] call_ensures(fill, (bytes,), out)
            &&& GuardedSecretVec::viewed(r) == crate::mapped::fill_result(setup, out, final(bytes)@)
        };
    if let Ok(owner) = r {
        let filled = final(bytes)@;
        let rest = crate::setup::zeros((setup.data_bytes() - capacity) as nat);
        assert(owner.inner.pages@ == filled + rest);
        crate::pages::lemma_page_count_holds(capacity as nat, native.page as nat);
        assert((filled + rest).len() == filled.len() + rest.len());
        assert(filled.len() == capacity);
        assert((filled + rest).take(capacity as int) =~= filled);
    }
}

/// What the fill writes and claims is what a guarded owner gives back: if the fill
/// leaves `filled` in its bytes and claims `n` of them, a granted owner reads
/// as the first `n` bytes of `filled`, all of them and no more.
pub proof fn law_guarded_secret_is_what_was_written<E, F: FnOnce(&mut [u8]) -> Result<usize, E>>(
    state: &mut Observation,
    native: &NativeOutcomes,
    pages: &mut [u8],
    capacity: usize,
    request: ProtectionRequest,
    fill: F,
    r: Result<GuardedSecretVec, ProtectedSecretFillError<E>>,
    filled: Seq<u8>,
    n: usize,
    secret: &[u8],
)
    requires
        call_ensures(
            GuardedSecretVec::try_from_capacity_with_protection::<E, F>,
            (state, native, pages, capacity, request, fill),
            r,
        ),
        !(r matches Err(ProtectedSecretFillError::Protection(_))),
        forall|bytes: &mut [u8], out: Result<usize, E>| #[trigger]
            call_ensures(fill, (bytes,), out) && bytes@.len() == capacity && (forall|i: int|
                0 <= i < capacity ==> bytes@[i] == 0) ==> out == Ok::<usize, E>(n) && final(bytes)@
                == filled,
        r matches Ok(owner) ==> call_ensures(GuardedSecretVec::secret, (&owner,), secret),
    ensures
        n <= capacity ==> {
            &&& r matches Ok(owner)
            &&& owner.inner.len == n
            &&& secret@.len() == n
            &&& forall|i: int| 0 <= i < n ==> secret@[i] == filled[i]
        },
        n > capacity ==> {
            &&& r matches Err(ProtectedSecretFillError::Length(error))
            &&& error == (SecretLengthError { length: n, capacity })
        },
{
    law_guarded_outcome_is_the_fills(state, native, pages, capacity, request, fill, r);
    if let Ok(owner) = r {
        let held = owner.inner.pages@;
        crate::pages::lemma_page_count_holds(owner.inner.capacity as nat, owner.inner.page as nat);
        assert(held.take(capacity as int) == filled);
        assert forall|i: int| 0 <= i < n implies secret@[i] == filled[i] by {
            assert(held[i] == held.take(capacity as int)[i]);
        }
    }
}

/// A fill that fails leaves no owner, and its error is the error.
pub proof fn law_guarded_fill_error_is_the_error<E, F: FnOnce(&mut [u8]) -> Result<usize, E>>(
    state: &mut Observation,
    native: &NativeOutcomes,
    pages: &mut [u8],
    capacity: usize,
    request: ProtectionRequest,
    fill: F,
    r: Result<GuardedSecretVec, ProtectedSecretFillError<E>>,
    cause: E,
)
    requires
        call_ensures(
            GuardedSecretVec::try_from_capacity_with_protection::<E, F>,
            (state, native, pages, capacity, request, fill),
            r,
        ),
        !(r matches Err(ProtectedSecretFillError::Protection(_))),
        forall|bytes: &mut [u8], out: Result<usize, E>| #[trigger]
            call_ensures(fill, (bytes,), out) && bytes@.len() == capacity && (forall|i: int|
                0 <= i < capacity ==> bytes@[i] == 0) ==> out == Err::<usize, E>(cause),
    ensures
        r matches Err(ProtectedSecretFillError::Fill(error)) && error == cause,
{
    law_guarded_outcome_is_the_fills(state, native, pages, capacity, request, fill, r);
}

/// A guarded owner is where the system mapped it, has the shape and the size that it
/// was asked to have, and fills its data pages.
pub proof fn law_guarded_owner_is_the_mapping<E, F: FnOnce(&mut [u8]) -> Result<usize, E>>(
    state: &mut Observation,
    native: &NativeOutcomes,
    pages: &mut [u8],
    capacity: usize,
    request: ProtectionRequest,
    fill: F,
    r: Result<GuardedSecretVec, ProtectedSecretFillError<E>>,
    rounded: nat,
    owner: GuardedSecretVec,
)
    requires
        call_ensures(
            GuardedSecretVec::try_from_capacity_with_protection::<E, F>,
            (state, native, pages, capacity, request, fill),
            r,
        ),
        native.page > 0,
        rounded as int % native.page as int == 0,
        capacity <= rounded < capacity + native.page,
        r == Ok::<GuardedSecretVec, ProtectedSecretFillError<E>>(owner),
    ensures
        owner.inner.kind == OwnerKind::Guarded,
        owner.inner.base == native.base,
        owner.inner.page == native.page,
        owner.inner.capacity == capacity,
        owner.inner.len <= capacity,
        old(owner.inner.pages)@.len() == rounded,
        native.base + rounded + 2 * native.page <= usize::MAX,
        final(owner.inner.pages)@ == final(pages)@,
{
    crate::policy_laws::lemma_rounded(capacity, native.page, rounded);
}

/// Without an owner the data pages hold nothing but zeros once they had been
/// opened, whatever they held before and whether or not anyone watched; and
/// pages that were never opened are left alone.
pub proof fn law_guarded_failure_leaves_zeros<E, F: FnOnce(&mut [u8]) -> Result<usize, E>>(
    state: &mut Observation,
    native: &NativeOutcomes,
    pages: &mut [u8],
    capacity: usize,
    request: ProtectionRequest,
    fill: F,
    r: Result<GuardedSecretVec, ProtectedSecretFillError<E>>,
    rounded: nat,
)
    requires
        call_ensures(
            GuardedSecretVec::try_from_capacity_with_protection::<E, F>,
            (state, native, pages, capacity, request, fill),
            r,
        ),
        native.page > 0,
        rounded as int % native.page as int == 0,
        capacity <= rounded < capacity + native.page,
        r is Err,
    ensures
        ({
            let unopened = r matches Err(ProtectedSecretFillError::Protection(error)) && (
            error.failure.control == ProtectionControl::Canary || error.failure.control
                == ProtectionControl::Mapping || error.failure.control
                == ProtectionControl::GuardPages);
            &&& unopened ==> final(pages)@ == old(pages)@
            &&& !unopened ==> final(pages)@.len() == rounded && forall|i: int|
                0 <= i < rounded ==> final(pages)@[i] == 0
        }),
{
    let setup = Setup::observed_by(
        *state,
        OwnerKind::Guarded,
        *native,
        capacity,
        request,
    );
    setup.lemma_turns();
    crate::policy_laws::lemma_rounded(capacity, native.page, rounded);
    if let Err(ProtectedSecretFillError::Protection(error)) = r {
        setup.lemma_refused(*state, error.failure.control);
    } else {
        setup.lemma_granted(*state);
    }
}

/// An armed observer of a guarded owner has seen its mapping and its data pages, one
/// more mapping than before, and nothing given back. It has seen the armed
/// failure if that control was asked for. Without a probe nothing is seen.
pub proof fn law_guarded_grant_is_seen<E, F: FnOnce(&mut [u8]) -> Result<usize, E>>(
    state: &mut Observation,
    native: &NativeOutcomes,
    pages: &mut [u8],
    capacity: usize,
    request: ProtectionRequest,
    fill: F,
    r: Result<GuardedSecretVec, ProtectedSecretFillError<E>>,
    rounded: nat,
)
    requires
        call_ensures(
            GuardedSecretVec::try_from_capacity_with_protection::<E, F>,
            (state, native, pages, capacity, request, fill),
            r,
        ),
        native.page > 0,
        rounded as int % native.page as int == 0,
        capacity <= rounded < capacity + native.page,
        r is Ok,
        old(state).maps < usize::MAX,
    ensures
        !old(state).active ==> *final(state) == *old(state),
        old(state).active ==> ({
            let asked = |c: ProtectionControl|
                match c {
                    ProtectionControl::Canary => request.canary != Requirement::NotRequested,
                    ProtectionControl::Mapping => true,
                    ProtectionControl::GuardPages => true,
                    ProtectionControl::DumpExclusion => request.dump_exclusion
                        != Requirement::NotRequested,
                    ProtectionControl::ForkPolicy => request.fork.requirement
                        != Requirement::NotRequested,
                    ProtectionControl::CachePolicy => request.cache_policy
                        != Requirement::NotRequested,
                    ProtectionControl::MemoryLock => request.memory_lock
                        != Requirement::NotRequested,
                };
            &&& final(state).active
            &&& final(state).failure == old(state).failure
            &&& final(state).mapping == Some((native.base, (rounded + 2 * native.page) as usize))
            &&& final(state).writable == Some(
                ((native.base + native.page) as usize, rounded as usize),
            )
            &&& final(state).maps == old(state).maps + 1
            &&& final(state).unmaps == old(state).unmaps
            &&& final(state).cleared == old(state).cleared
            &&& final(state).hit == (old(state).hit || (old(state).failure matches Some(control)
                && asked(control)))
        }),
{
    let setup = Setup::observed_by(
        *state,
        OwnerKind::Guarded,
        *native,
        capacity,
        request,
    );
    setup.lemma_turns();
    crate::policy_laws::lemma_rounded(capacity, native.page, rounded);
    setup.lemma_granted(*state);
}

/// Without a guarded owner, an armed observer has seen the mapping come and go, if one
/// was made, and its data pages zeroed before, if they had been opened. It has
/// seen the armed failure if that control was asked for and had its turn.
/// Without a probe nothing is seen.
pub proof fn law_guarded_failure_is_seen_cleaned_up<E, F: FnOnce(&mut [u8]) -> Result<usize, E>>(
    state: &mut Observation,
    native: &NativeOutcomes,
    pages: &mut [u8],
    capacity: usize,
    request: ProtectionRequest,
    fill: F,
    r: Result<GuardedSecretVec, ProtectedSecretFillError<E>>,
)
    requires
        call_ensures(
            GuardedSecretVec::try_from_capacity_with_protection::<E, F>,
            (state, native, pages, capacity, request, fill),
            r,
        ),
        r is Err,
        old(state).maps < usize::MAX,
        old(state).unmaps < usize::MAX,
        old(state).cleared < usize::MAX,
        old(state).mapping is None,
        old(state).writable is None,
    ensures
        !old(state).active ==> *final(state) == *old(state),
        old(state).active ==> ({
            let turn = |c: ProtectionControl|
                match c {
                    ProtectionControl::Canary => 0int,
                    ProtectionControl::Mapping => 1,
                    ProtectionControl::GuardPages => 2,
                    ProtectionControl::DumpExclusion => 3,
                    ProtectionControl::ForkPolicy => 4,
                    ProtectionControl::CachePolicy => 5,
                    ProtectionControl::MemoryLock => 6,
                };
            let asked = |c: ProtectionControl|
                match c {
                    ProtectionControl::Canary => request.canary != Requirement::NotRequested,
                    ProtectionControl::Mapping => true,
                    ProtectionControl::GuardPages => true,
                    ProtectionControl::DumpExclusion => request.dump_exclusion
                        != Requirement::NotRequested,
                    ProtectionControl::ForkPolicy => request.fork.requirement
                        != Requirement::NotRequested,
                    ProtectionControl::CachePolicy => request.cache_policy
                        != Requirement::NotRequested,
                    ProtectionControl::MemoryLock => request.memory_lock
                        != Requirement::NotRequested,
                };
            let last = match r {
                Err(ProtectedSecretFillError::Protection(error)) => error.failure.control,
                _ => ProtectionControl::MemoryLock,
            };
            let mapped = turn(last) > 1;
            let opened = turn(last) > 2;
            &&& final(state).active
            &&& final(state).failure == old(state).failure
            &&& final(state).mapping is None
            &&& final(state).writable is None
            &&& final(state).maps == old(state).maps + if mapped {
                1int
            } else {
                0
            }
            &&& final(state).unmaps == old(state).unmaps + if mapped {
                1int
            } else {
                0
            }
            &&& final(state).cleared == old(state).cleared + if opened {
                1int
            } else {
                0
            }
            &&& final(state).hit == (old(state).hit || (old(state).failure matches Some(control)
                && asked(control) && turn(control) <= turn(last)))
        }),
{
    let setup = Setup::observed_by(
        *state,
        OwnerKind::Guarded,
        *native,
        capacity,
        request,
    );
    setup.lemma_turns();
    if let Err(ProtectedSecretFillError::Protection(error)) = r {
        setup.lemma_refused(*state, error.failure.control);
    } else {
        setup.lemma_granted(*state);
    }
}

/// A refusal of a guarded owner that comes before anything is mapped leaves an observer
/// with what it had seen, whatever that was, and at most a hit more.
pub proof fn law_guarded_early_refusal_is_hardly_seen<E, F: FnOnce(&mut [u8]) -> Result<usize, E>>(
    state: &mut Observation,
    native: &NativeOutcomes,
    pages: &mut [u8],
    capacity: usize,
    request: ProtectionRequest,
    fill: F,
    r: Result<GuardedSecretVec, ProtectedSecretFillError<E>>,
    error: crate::setup::ProtectionError,
)
    requires
        call_ensures(
            GuardedSecretVec::try_from_capacity_with_protection::<E, F>,
            (state, native, pages, capacity, request, fill),
            r,
        ),
        r == Err::<GuardedSecretVec, ProtectedSecretFillError<E>>(
            ProtectedSecretFillError::Protection(error),
        ),
        error.failure.control == ProtectionControl::Canary || error.failure.control
            == ProtectionControl::Mapping,
    ensures
        final(state).active == old(state).active,
        final(state).failure == old(state).failure,
        final(state).mapping == old(state).mapping,
        final(state).writable == old(state).writable,
        final(state).maps == old(state).maps,
        final(state).unmaps == old(state).unmaps,
        final(state).cleared == old(state).cleared,
        final(pages)@ == old(pages)@,
{
    let setup = Setup::observed_by(
        *state,
        OwnerKind::Guarded,
        *native,
        capacity,
        request,
    );
    setup.lemma_turns();
    setup.lemma_refused(*state, error.failure.control);
}

/// Releasing a guarded owner zeroes all its data pages, whether or not anyone watches.
/// It unlocks exactly what was locked, gives the mapping back, and says whether
/// the system did each of these. An armed observer sees the mapping go.
pub proof fn law_guarded_release_leaves_zeros(
    owner: GuardedSecretVec,
    state: &mut Observation,
    unlock: bool,
    unmap: bool,
    r: Rollback,
)
    requires
        call_ensures(GuardedSecretVec::release, (owner, state, unlock, unmap), r),
    ensures
        final(owner.inner.pages)@.len() == old(owner.inner.pages)@.len(),
        forall|i: int|
            0 <= i < old(owner.inner.pages)@.len() ==> final(owner.inner.pages)@[i] == 0,
        r.unmap == if unmap {
            RollbackState::Completed
        } else {
            RollbackState::Failed
        },
        r.unlock == if owner.inner.report.memory_lock != ProtectionState::Established {
            RollbackState::NotNeeded
        } else if unlock {
            RollbackState::Completed
        } else {
            RollbackState::Failed
        },
        !old(state).active ==> *final(state) == *old(state),
        old(state).active && old(state).writable is Some && old(state).unmaps < usize::MAX
            && old(state).cleared < usize::MAX ==> {
            &&& final(state).active
            &&& final(state).failure == old(state).failure
            &&& final(state).hit == old(state).hit
            &&& final(state).mapping is None
            &&& final(state).writable is None
            &&& final(state).maps == old(state).maps
            &&& final(state).unmaps == old(state).unmaps + 1
            &&& final(state).cleared == old(state).cleared + 1
        },
{
}

/// A guarded owner reads as its report, the first bytes of its data pages, as many as
/// the secret has, and the address one page behind
/// the start of the mapping.
pub proof fn law_guarded_reads_as_it_is(
    owner: GuardedSecretVec,
    report: &ProtectionReport,
    secret: &[u8],
    address: usize,
)
    requires
        owner@.wf(),
        owner.inner.kind == OwnerKind::Guarded,
        call_ensures(GuardedSecretVec::protection_report, (&owner,), report),
        call_ensures(GuardedSecretVec::secret, (&owner,), secret),
        call_ensures(GuardedSecretVec::data_address, (&owner,), address),
    ensures
        *report == owner.inner.report,
        secret@.len() == owner.inner.len,
        forall|i: int| 0 <= i < owner.inner.len ==> secret@[i] == old(owner.inner.pages)@[i],
        address == owner.inner.base + owner.inner.page,
{
    crate::pages::lemma_page_count_holds(owner.inner.capacity as nat, owner.inner.page as nat);
}

/// From the start of a probe over a granted guarded owner to its release, all is
/// cleaned up: the pages hold nothing but zeros, and the check passes with one
/// mapping and one zeroed region, if the armed failure, if any, was hit.
pub proof fn law_guarded_lifecycle_passes_the_check<E, F: FnOnce(&mut [u8]) -> Result<usize, E>>(
    failure: Option<ProtectionControl>,
    probe: Probe,
    began: &mut Observation,
    state: &mut Observation,
    native: &NativeOutcomes,
    pages: &mut [u8],
    capacity: usize,
    request: ProtectionRequest,
    fill: F,
    r: Result<GuardedSecretVec, ProtectedSecretFillError<E>>,
    owner: GuardedSecretVec,
    later: &mut Observation,
    unlock: bool,
    unmap: bool,
    rollback: Rollback,
    verdict: Result<(), Violation>,
)
    requires
        call_ensures(Probe::start, (began, failure), Ok::<Probe, Violation>(probe)),
        *old(state) == *final(began),
        call_ensures(
            GuardedSecretVec::try_from_capacity_with_protection::<E, F>,
            (state, native, pages, capacity, request, fill),
            r,
        ),
        r == Ok::<GuardedSecretVec, ProtectedSecretFillError<E>>(owner),
        *old(later) == *final(state),
        call_ensures(GuardedSecretVec::release, (owner, later, unlock, unmap), rollback),
        call_ensures(Probe::check, (&probe, final(later), 1, 1), verdict),
        failure is Some ==> final(later).hit,
    ensures
        verdict is Ok,
        forall|i: int| 0 <= i < final(pages)@.len() ==> final(pages)@[i] == 0,
{
    let setup = Setup::observed_by(
        *state,
        OwnerKind::Guarded,
        *native,
        capacity,
        request,
    );
    setup.lemma_turns();
    setup.lemma_granted(*state);
}

/// A fresh observer bars no guarded owner, and neither does an observer that nobody
/// has armed: it takes pages of the right size at a place where they fit, a
/// system that can give a mapping back, and a fill that can be called on
/// zeros and keeps to its slice.
pub proof fn law_guarded_owner_may_be_asked_for<E, F: FnOnce(&mut [u8]) -> Result<usize, E>>(
    state: &mut Observation,
    native: &NativeOutcomes,
    pages: &mut [u8],
    capacity: usize,
    request: ProtectionRequest,
    fill: F,
    rounded: nat,
)
    requires
        native.page > 0,
        rounded as int % native.page as int == 0,
        capacity <= rounded < capacity + native.page,
        native.base + rounded + 2 * native.page <= usize::MAX,
        old(pages)@.len() == rounded,
        old(state).active ==> {
            &&& native.unmap
            &&& old(state).mapping is None
            &&& old(state).writable is None
            &&& old(state).maps < usize::MAX
            &&& old(state).unmaps < usize::MAX
            &&& old(state).cleared < usize::MAX
        },
        forall|bytes: &mut [u8]|
            bytes@.len() == capacity && (forall|i: int| 0 <= i < capacity ==> bytes@[i] == 0)
                ==> #[trigger] call_requires(fill, (bytes,)),
        forall|bytes: &mut [u8], out: Result<usize, E>| #[trigger]
            call_ensures(fill, (bytes,), out) && bytes@.len() == capacity && (forall|i: int|
                0 <= i < capacity ==> bytes@[i] == 0) ==> final(bytes)@.len() == capacity,
    ensures
        call_requires(
            GuardedSecretVec::try_from_capacity_with_protection::<E, F>,
            (state, native, pages, capacity, request, fill),
        ),
{
    let setup = Setup::observed_by(
        *state,
        OwnerKind::Guarded,
        *native,
        capacity,
        request,
    );
    setup.lemma_turns();
    crate::policy_laws::lemma_rounded(capacity, native.page, rounded);
}

/// A refused guarded owner does not need its fill: where a required control does not
/// come into force, the call may be made with a fill that can never be called,
/// so it does not call it.
pub proof fn law_guarded_refusal_never_fills<E, F: FnOnce(&mut [u8]) -> Result<usize, E>>(
    state: &mut Observation,
    native: &NativeOutcomes,
    pages: &mut [u8],
    capacity: usize,
    request: ProtectionRequest,
    fill: F,
    rounded: nat,
)
    requires
        native.page > 0,
        rounded as int % native.page as int == 0,
        capacity <= rounded < capacity + native.page,
        native.base + rounded + 2 * native.page <= usize::MAX,
        old(pages)@.len() == rounded,
        old(state).active ==> {
            &&& native.unmap
            &&& old(state).mapping is None
            &&& old(state).writable is None
            &&& old(state).maps < usize::MAX
            &&& old(state).unmaps < usize::MAX
            &&& old(state).cleared < usize::MAX
        },
        ({
            let injected = if old(state).active {
                old(state).failure
            } else {
                None
            };
            let canary = request.canary != Requirement::Required || (native.canary
                == Outcome::Applied && injected != Some(ProtectionControl::Canary));
            let mapping = native.mapping == Outcome::Applied && injected != Some(
                ProtectionControl::Mapping,
            ) && rounded + 2 * native.page <= isize::MAX;
            let guards = native.guard_pages == Outcome::Applied && injected != Some(
                ProtectionControl::GuardPages,
            );
            let dump = request.dump_exclusion != Requirement::Required || (native.dump_exclusion
                == Outcome::Applied && injected != Some(ProtectionControl::DumpExclusion));
            let fork = request.fork.requirement != Requirement::Required || (native.fork
                == Outcome::Applied && injected != Some(ProtectionControl::ForkPolicy));
            let cache = request.cache_policy != Requirement::Required || (native.cache_policy
                == Outcome::Applied && injected != Some(ProtectionControl::CachePolicy));
            let lock = request.memory_lock != Requirement::Required || (native.memory_lock
                == Outcome::Applied && injected != Some(ProtectionControl::MemoryLock));
            !(canary && mapping && guards && dump && fork && cache && lock)
        }),
    ensures
        call_requires(
            GuardedSecretVec::try_from_capacity_with_protection::<E, F>,
            (state, native, pages, capacity, request, fill),
        ),
{
    let setup = Setup::observed_by(
        *state,
        OwnerKind::Guarded,
        *native,
        capacity,
        request,
    );
    setup.lemma_turns();
    crate::policy_laws::lemma_rounded(capacity, native.page, rounded);
}

/// A guarded owner that was set up may be read, and released under its observer, if
/// the system can give the mapping back.
pub proof fn law_guarded_owner_may_be_used<E, F: FnOnce(&mut [u8]) -> Result<usize, E>>(
    state: &mut Observation,
    native: &NativeOutcomes,
    pages: &mut [u8],
    capacity: usize,
    request: ProtectionRequest,
    fill: F,
    r: Result<GuardedSecretVec, ProtectedSecretFillError<E>>,
    owner: GuardedSecretVec,
    later: &mut Observation,
    unlock: bool,
    unmap: bool,
)
    requires
        call_ensures(
            GuardedSecretVec::try_from_capacity_with_protection::<E, F>,
            (state, native, pages, capacity, request, fill),
            r,
        ),
        r == Ok::<GuardedSecretVec, ProtectedSecretFillError<E>>(owner),
        *old(later) == *final(state),
        old(state).active ==> unmap && old(state).maps < usize::MAX && old(state).unmaps
            < usize::MAX && old(state).cleared < usize::MAX,
    ensures
        call_requires(GuardedSecretVec::secret, (&owner,)),
        call_requires(GuardedSecretVec::data_address, (&owner,)),
        call_requires(GuardedSecretVec::protection_report, (&owner,)),
        call_requires(GuardedSecretVec::release, (owner, later, unlock, unmap)),
{
    let setup = Setup::observed_by(
        *state,
        OwnerKind::Guarded,
        *native,
        capacity,
        request,
    );
    setup.lemma_turns();
    setup.lemma_granted(*state);
}

/// A locked owner is refused exactly if a required control does not come into force,
/// because it is made to fail or because the system did not answer that it was
/// applied; and the refusal names the first such control. The mapping is
/// always required, and guard pages are not to be had.
pub proof fn law_locked_refusal_is_the_first_failure<E, F: FnOnce(&mut [u8]) -> Result<usize, E>>(
    state: &mut Observation,
    native: &NativeOutcomes,
    pages: &mut [u8],
    capacity: usize,
    request: ProtectionRequest,
    fill: F,
    r: Result<LockedSecretVec, ProtectedSecretFillError<E>>,
    rounded: nat,
)
    requires
        call_ensures(
            LockedSecretVec::try_from_capacity_with_protection::<E, F>,
            (state, native, pages, capacity, request, fill),
            r,
        ),
        native.page > 0,
        rounded as int % native.page as int == 0,
        capacity <= rounded < capacity + native.page,
    ensures
        ({
            let injected = if old(state).active {
                old(state).failure
            } else {
                None
            };
            let canary = request.canary != Requirement::Required || (native.canary
                == Outcome::Applied && injected != Some(ProtectionControl::Canary));
            let mapping = native.mapping == Outcome::Applied && injected != Some(
                ProtectionControl::Mapping,
            ) && rounded <= isize::MAX;
            let guards = request.guard_pages != Requirement::Required;
            let dump = request.dump_exclusion != Requirement::Required || (native.dump_exclusion
                == Outcome::Applied && injected != Some(ProtectionControl::DumpExclusion));
            let fork = request.fork.requirement != Requirement::Required || (native.fork
                == Outcome::Applied && injected != Some(ProtectionControl::ForkPolicy));
            let cache = request.cache_policy != Requirement::Required || (native.cache_policy
                == Outcome::Applied && injected != Some(ProtectionControl::CachePolicy));
            let lock = request.memory_lock != Requirement::Required || (native.memory_lock
                == Outcome::Applied && injected != Some(ProtectionControl::MemoryLock));
            &&& (r matches Err(ProtectedSecretFillError::Protection(_))) == !(canary && mapping
                && guards && dump && fork && cache && lock)
            &&& r matches Err(ProtectedSecretFillError::Protection(error))
                ==> error.failure.control == if !canary {
                ProtectionControl::Canary
            } else if !mapping {
                ProtectionControl::Mapping
            } else if !guards {
                ProtectionControl::GuardPages
            } else if !dump {
                ProtectionControl::DumpExclusion
            } else if !fork {
                ProtectionControl::ForkPolicy
            } else if !cache {
                ProtectionControl::CachePolicy
            } else {
                ProtectionControl::MemoryLock
            }
        }),
{
    let setup = Setup::observed_by(
        *state,
        OwnerKind::Locked,
        *native,
        capacity,
        request,
    );
    setup.lemma_turns();
    crate::policy_laws::lemma_rounded(capacity, native.page, rounded);
}

/// The report of a locked owner, or of its refusal, says of each control what became
/// of it, and no better: `shown` is what it says of `control`, `asked` how
/// strongly that was asked for, and `answer` what the system answered.
pub proof fn law_locked_report_is_truthful<E, F: FnOnce(&mut [u8]) -> Result<usize, E>>(
    state: &mut Observation,
    native: &NativeOutcomes,
    pages: &mut [u8],
    capacity: usize,
    request: ProtectionRequest,
    fill: F,
    r: Result<LockedSecretVec, ProtectedSecretFillError<E>>,
    rounded: nat,
    report: ProtectionReport,
    control: ProtectionControl,
    asked: Requirement,
    answer: Outcome,
    shown: ProtectionState,
)
    requires
        call_ensures(
            LockedSecretVec::try_from_capacity_with_protection::<E, F>,
            (state, native, pages, capacity, request, fill),
            r,
        ),
        native.page > 0,
        rounded as int % native.page as int == 0,
        capacity <= rounded < capacity + native.page,
        match r {
            Ok(owner) => report == owner.inner.report,
            Err(ProtectedSecretFillError::Protection(error)) => report == error.partial_report,
            _ => false,
        },
        control == ProtectionControl::Canary ==> asked == request.canary && answer
            == native.canary && shown == report.canary,
        control == ProtectionControl::Mapping ==> asked == Requirement::Required && answer == (
        if rounded <= isize::MAX {
            native.mapping
        } else {
            Outcome::Unsupported
        }) && shown == report.mapping,
        control == ProtectionControl::GuardPages ==> asked == request.guard_pages && answer
            == Outcome::Unsupported && shown == report.guard_pages,
        control == ProtectionControl::DumpExclusion ==> asked == request.dump_exclusion && answer
            == native.dump_exclusion && shown == report.dump_exclusion,
        control == ProtectionControl::ForkPolicy ==> asked == request.fork.requirement && answer
            == native.fork && shown == report.fork.state,
        control == ProtectionControl::CachePolicy ==> asked == request.cache_policy && answer
            == native.cache_policy && shown == report.cache_policy,
        control == ProtectionControl::MemoryLock ==> asked == request.memory_lock && answer
            == native.memory_lock && shown == report.memory_lock,
    ensures
        ({
            let turn = |c: ProtectionControl|
                match c {
                    ProtectionControl::Canary => 0int,
                    ProtectionControl::Mapping => 1,
                    ProtectionControl::GuardPages => 2,
                    ProtectionControl::DumpExclusion => 3,
                    ProtectionControl::ForkPolicy => 4,
                    ProtectionControl::CachePolicy => 5,
                    ProtectionControl::MemoryLock => 6,
                };
            let tried = asked != Requirement::NotRequested && match r {
                Err(ProtectedSecretFillError::Protection(error)) => turn(control) <= turn(
                    error.failure.control,
                ),
                _ => true,
            };
            let injected = old(state).active && old(state).failure == Some(control);
            &&& shown == ProtectionState::NotRequested <==> asked == Requirement::NotRequested
            &&& shown == ProtectionState::NotAttempted <==> asked != Requirement::NotRequested
                && !tried
            &&& shown == ProtectionState::Established <==> tried && !injected && answer
                == Outcome::Applied
            &&& shown == ProtectionState::Unsupported <==> tried && !injected && answer
                == Outcome::Unsupported
            &&& shown == (ProtectionState::Failed { errno: None }) <==> tried && injected
            &&& forall|code: i32|
                shown == (ProtectionState::Failed { errno: Some(code) }) <==> tried && !injected
                    && answer == Outcome::Refused(code)
        }),
        report.fork.policy == request.fork.policy,
        report.page_granule == native.page,
        report.mapped_bytes == if report.mapping == ProtectionState::Established {
            rounded as int
        } else {
            0
        },
        report.locked_bytes == if report.memory_lock == ProtectionState::Established {
            rounded as int
        } else {
            0
        },
{
    let setup = Setup::observed_by(
        *state,
        OwnerKind::Locked,
        *native,
        capacity,
        request,
    );
    setup.lemma_turns();
    crate::policy_laws::lemma_rounded(capacity, native.page, rounded);
    if let Err(ProtectedSecretFillError::Protection(error)) = r {
        setup.lemma_refused(*state, error.failure.control);
    } else {
        setup.lemma_granted(*state);
    }
}

/// A refusal of a locked owner says why its control is not in force, finds nothing to
/// unlock, and has given the mapping back if there was one.
pub proof fn law_locked_refusal_rolls_back<E, F: FnOnce(&mut [u8]) -> Result<usize, E>>(
    state: &mut Observation,
    native: &NativeOutcomes,
    pages: &mut [u8],
    capacity: usize,
    request: ProtectionRequest,
    fill: F,
    r: Result<LockedSecretVec, ProtectedSecretFillError<E>>,
    error: crate::setup::ProtectionError,
)
    requires
        call_ensures(
            LockedSecretVec::try_from_capacity_with_protection::<E, F>,
            (state, native, pages, capacity, request, fill),
            r,
        ),
        r == Err::<LockedSecretVec, ProtectedSecretFillError<E>>(
            ProtectedSecretFillError::Protection(error),
        ),
    ensures
        error.failure.state != ProtectionState::Established,
        error.failure.state == match error.failure.control {
            ProtectionControl::Canary => error.partial_report.canary,
            ProtectionControl::Mapping => error.partial_report.mapping,
            ProtectionControl::GuardPages => error.partial_report.guard_pages,
            ProtectionControl::DumpExclusion => error.partial_report.dump_exclusion,
            ProtectionControl::ForkPolicy => error.partial_report.fork.state,
            ProtectionControl::CachePolicy => error.partial_report.cache_policy,
            ProtectionControl::MemoryLock => error.partial_report.memory_lock,
        },
        error.rollback.unlock == RollbackState::NotNeeded,
        error.rollback.unmap == if error.failure.control == ProtectionControl::Canary
            || error.failure.control == ProtectionControl::Mapping {
            RollbackState::NotNeeded
        } else if native.unmap {
            RollbackState::Completed
        } else {
            RollbackState::Failed
        },
{
    let setup = Setup::observed_by(
        *state,
        OwnerKind::Locked,
        *native,
        capacity,
        request,
    );
    setup.lemma_turns();
    setup.lemma_refused(*state, error.failure.control);
}

/// Where a locked owner is not refused, the fill has run on nothing but zeros, as
/// many as the capacity, and its outcome is the outcome: an owner that holds
/// what the fill left, with as many bytes of secret as it claimed; or its
/// error; or, if it claimed more than it was given, that claim.
pub proof fn law_locked_outcome_is_the_fills<E, F: FnOnce(&mut [u8]) -> Result<usize, E>>(
    state: &mut Observation,
    native: &NativeOutcomes,
    pages: &mut [u8],
    capacity: usize,
    request: ProtectionRequest,
    fill: F,
    r: Result<LockedSecretVec, ProtectedSecretFillError<E>>,
)
    requires
        call_ensures(
            LockedSecretVec::try_from_capacity_with_protection::<E, F>,
            (state, native, pages, capacity, request, fill),
            r,
        ),
        !(r matches Err(ProtectedSecretFillError::Protection(_))),
    ensures
        exists|bytes: &mut [u8], out: Result<usize, E>|
            {
                &&& #[trigger] call_ensures(fill, (bytes,), out)
                &&& bytes@.len() == capacity
                &&& forall|i: int| 0 <= i < capacity ==> bytes@[i] == 0
                &&& match out {
                    Ok(n) => if n <= capacity {
                        &&& r matches Ok(owner)
                        &&& owner.inner.len == n
                        &&& owner.inner.pages@.take(capacity as int) == final(bytes)@
                        &&& forall|i: int|
                            capacity <= i < owner.inner.pages@.len() ==> owner.inner.pages@[i] == 0
                    } else {
                        &&& r matches Err(ProtectedSecretFillError::Length(error))
                        &&& error.length == n
                        &&& error.capacity == capacity
                    },
                    Err(cause) => {
                        &&& r matches Err(ProtectedSecretFillError::Fill(error))
                        &&& error == cause
                    },
                }
            },
{
    let setup = Setup::observed_by(
        *state,
        OwnerKind::Locked,
        *native,
        capacity,
        request,
    );
    setup.lemma_turns();
    let (bytes, out) = choose|bytes: &mut [u8], out: Result<usize, E>|
        {
            &&& bytes@ == crate::setup::zeros(capacity as nat)
            &&& #[trigger] call_ensures(fill, (bytes,), out)
            &&& LockedSecretVec::viewed(r) == crate::mapped::fill_result(setup, out, final(bytes)@)
        };
    if let Ok(owner) = r {
        let filled = final(bytes)@;
        let rest = crate::setup::zeros((setup.data_bytes() - capacity) as nat);
        assert(owner.inner.pages@ == filled + rest);
        crate::pages::lemma_page_count_holds(capacity as nat, native.page as nat);
        assert((filled + rest).len() == filled.len() + rest.len());
        assert(filled.len() == capacity);
        assert((filled + rest).take(capacity as int) =~= filled);
    }
}

/// What the fill writes and claims is what a locked owner gives back: if the fill
/// leaves `filled` in its bytes and claims `n` of them, a granted owner reads
/// as the first `n` bytes of `filled`, all of them and no more.
pub proof fn law_locked_secret_is_what_was_written<E, F: FnOnce(&mut [u8]) -> Result<usize, E>>(
    state: &mut Observation,
    native: &NativeOutcomes,
    pages: &mut [u8],
    capacity: usize,
    request: ProtectionRequest,
    fill: F,
    r: Result<LockedSecretVec, ProtectedSecretFillError<E>>,
    filled: Seq<u8>,
    n: usize,
    secret: &[u8],
)
    requires
        call_ensures(
            LockedSecretVec::try_from_capacity_with_protection::<E, F>,
            (state, native, pages, capacity, request, fill),
            r,
        ),
        !(r matches Err(ProtectedSecretFillError::Protection(_))),
        forall|bytes: &mut [u8], out: Result<usize, E>| #[trigger]
            call_ensures(fill, (bytes,), out) && bytes@.len() == capacity && (forall|i: int|
                0 <= i < capacity ==> bytes@[i] == 0) ==> out == Ok::<usize, E>(n) && final(bytes)@
                == filled,
        r matches Ok(owner) ==> call_ensures(LockedSecretVec::secret, (&owner,), secret),
    ensures
        n <= capacity ==> {
            &&& r matches Ok(owner)
            &&& owner.inner.len == n
            &&& secret@.len() == n
            &&& forall|i: int| 0 <= i < n ==> secret@[i] == filled[i]
        },
        n > capacity ==> {
            &&& r matches Err(ProtectedSecretFillError::Length(error))
            &&& error == (SecretLengthError { length: n, capacity })
        },
{
    law_locked_outcome_is_the_fills(state, native, pages, capacity, request, fill, r);
    if let Ok(owner) = r {
        let held = owner.inner.pages@;
        crate::pages::lemma_page_count_holds(owner.inner.capacity as nat, owner.inner.page as nat);
        assert(held.take(capacity as int) == filled);
        assert forall|i: int| 0 <= i < n implies secret@[i] == filled[i] by {
            assert(held[i] == held.take(capacity as int)[i]);
        }
    }
}

/// A fill that fails leaves no owner, and its error is the error.
pub proof fn law_locked_fill_error_is_the_error<E, F: FnOnce(&mut [u8]) -> Result<usize, E>>(
    state: &mut Observation,
    native: &NativeOutcomes,
    pages: &mut [u8],
    capacity: usize,
    request: ProtectionRequest,
    fill: F,
    r: Result<LockedSecretVec, ProtectedSecretFillError<E>>,
    cause: E,
)
    requires
        call_ensures(
            LockedSecretVec::try_from_capacity_with_protection::<E, F>,
            (state, native, pages, capacity, request, fill),
            r,
        ),
        !(r matches Err(ProtectedSecretFillError::Protection(_))),
        forall|bytes: &mut [u8], out: Result<usize, E>| #[trigger]
            call_ensures(fill, (bytes,), out) && bytes@.len() == capacity && (forall|i: int|
                0 <= i < capacity ==> bytes@[i] == 0) ==> out == Err::<usize, E>(cause),
    ensures
        r matches Err(ProtectedSecretFillError::Fill(error)) && error == cause,
{
    law_locked_outcome_is_the_fills(state, native, pages, capacity, request, fill, r);
}

/// A locked owner is where the system mapped it, has the shape and the size that it
/// was asked to have, and fills its data pages.
pub proof fn law_locked_owner_is_the_mapping<E, F: FnOnce(&mut [u8]) -> Result<usize, E>>(
    state: &mut Observation,
    native: &NativeOutcomes,
    pages: &mut [u8],
    capacity: usize,
    request: ProtectionRequest,
    fill: F,
    r: Result<LockedSecretVec, ProtectedSecretFillError<E>>,
    rounded: nat,
    owner: LockedSecretVec,
)
    requires
        call_ensures(
            LockedSecretVec::try_from_capacity_with_protection::<E, F>,
            (state, native, pages, capacity, request, fill),
            r,
        ),
        native.page > 0,
        rounded as int % native.page as int == 0,
        capacity <= rounded < capacity + native.page,
        r == Ok::<LockedSecretVec, ProtectedSecretFillError<E>>(owner),
    ensures
        owner.inner.kind == OwnerKind::Locked,
        owner.inner.base == native.base,
        owner.inner.page == native.page,
        owner.inner.capacity == capacity,
        owner.inner.len <= capacity,
        old(owner.inner.pages)@.len() == rounded,
        native.base + rounded <= usize::MAX,
        final(owner.inner.pages)@ == final(pages)@,
{
    crate::policy_laws::lemma_rounded(capacity, native.page, rounded);
}

/// Without an owner the data pages hold nothing but zeros once they had been
/// opened, whatever they held before and whether or not anyone watched; and
/// pages that were never opened are left alone.
pub proof fn law_locked_failure_leaves_zeros<E, F: FnOnce(&mut [u8]) -> Result<usize, E>>(
    state: &mut Observation,
    native: &NativeOutcomes,
    pages: &mut [u8],
    capacity: usize,
    request: ProtectionRequest,
    fill: F,
    r: Result<LockedSecretVec, ProtectedSecretFillError<E>>,
    rounded: nat,
)
    requires
        call_ensures(
            LockedSecretVec::try_from_capacity_with_protection::<E, F>,
            (state, native, pages, capacity, request, fill),
            r,
        ),
        native.page > 0,
        rounded as int % native.page as int == 0,
        capacity <= rounded < capacity + native.page,
        r is Err,
    ensures
        ({
            let unopened = r matches Err(ProtectedSecretFillError::Protection(error)) && (
            error.failure.control == ProtectionControl::Canary || error.failure.control
                == ProtectionControl::Mapping);
            &&& unopened ==> final(pages)@ == old(pages)@
            &&& !unopened ==> final(pages)@.len() == rounded && forall|i: int|
                0 <= i < rounded ==> final(pages)@[i] == 0
        }),
{
    let setup = Setup::observed_by(
        *state,
        OwnerKind::Locked,
        *native,
        capacity,
        request,
    );
    setup.lemma_turns();
    crate::policy_laws::lemma_rounded(capacity, native.page, rounded);
    if let Err(ProtectedSecretFillError::Protection(error)) = r {
        setup.lemma_refused(*state, error.failure.control);
    } else {
        setup.lemma_granted(*state);
    }
}

/// An armed observer of a locked owner has seen its mapping and its data pages, one
/// more mapping than before, and nothing given back. It has seen the armed
/// failure if that control was asked for. Without a probe nothing is seen.
pub proof fn law_locked_grant_is_seen<E, F: FnOnce(&mut [u8]) -> Result<usize, E>>(
    state: &mut Observation,
    native: &NativeOutcomes,
    pages: &mut [u8],
    capacity: usize,
    request: ProtectionRequest,
    fill: F,
    r: Result<LockedSecretVec, ProtectedSecretFillError<E>>,
    rounded: nat,
)
    requires
        call_ensures(
            LockedSecretVec::try_from_capacity_with_protection::<E, F>,
            (state, native, pages, capacity, request, fill),
            r,
        ),
        native.page > 0,
        rounded as int % native.page as int == 0,
        capacity <= rounded < capacity + native.page,
        r is Ok,
        old(state).maps < usize::MAX,
    ensures
        !old(state).active ==> *final(state) == *old(state),
        old(state).active ==> ({
            let asked = |c: ProtectionControl|
                match c {
                    ProtectionControl::Canary => request.canary != Requirement::NotRequested,
                    ProtectionControl::Mapping => true,
                    ProtectionControl::GuardPages => request.guard_pages != Requirement::NotRequested,
                    ProtectionControl::DumpExclusion => request.dump_exclusion
                        != Requirement::NotRequested,
                    ProtectionControl::ForkPolicy => request.fork.requirement
                        != Requirement::NotRequested,
                    ProtectionControl::CachePolicy => request.cache_policy
                        != Requirement::NotRequested,
                    ProtectionControl::MemoryLock => request.memory_lock
                        != Requirement::NotRequested,
                };
            &&& final(state).active
            &&& final(state).failure == old(state).failure
            &&& final(state).mapping == Some((native.base, rounded as usize))
            &&& final(state).writable == Some(
                (native.base, rounded as usize),
            )
            &&& final(state).maps == old(state).maps + 1
            &&& final(state).unmaps == old(state).unmaps
            &&& final(state).cleared == old(state).cleared
            &&& final(state).hit == (old(state).hit || (old(state).failure matches Some(control)
                && asked(control)))
        }),
{
    let setup = Setup::observed_by(
        *state,
        OwnerKind::Locked,
        *native,
        capacity,
        request,
    );
    setup.lemma_turns();
    crate::policy_laws::lemma_rounded(capacity, native.page, rounded);
    setup.lemma_granted(*state);
}

/// Without a locked owner, an armed observer has seen the mapping come and go, if one
/// was made, and its data pages zeroed before, if they had been opened. It has
/// seen the armed failure if that control was asked for and had its turn.
/// Without a probe nothing is seen.
pub proof fn law_locked_failure_is_seen_cleaned_up<E, F: FnOnce(&mut [u8]) -> Result<usize, E>>(
    state: &mut Observation,
    native: &NativeOutcomes,
    pages: &mut [u8],
    capacity: usize,
    request: ProtectionRequest,
    fill: F,
    r: Result<LockedSecretVec, ProtectedSecretFillError<E>>,
)
    requires
        call_ensures(
            LockedSecretVec::try_from_capacity_with_protection::<E, F>,
            (state, native, pages, capacity, request, fill),
            r,
        ),
        r is Err,
        old(state).maps < usize::MAX,
        old(state).unmaps < usize::MAX,
        old(state).cleared < usize::MAX,
        old(state).mapping is None,
        old(state).writable is None,
    ensures
        !old(state).active ==> *final(state) == *old(state),
        old(state).active ==> ({
            let turn = |c: ProtectionControl|
                match c {
                    ProtectionControl::Canary => 0int,
                    ProtectionControl::Mapping => 1,
                    ProtectionControl::GuardPages => 2,
                    ProtectionControl::DumpExclusion => 3,
                    ProtectionControl::ForkPolicy => 4,
                    ProtectionControl::CachePolicy => 5,
                    ProtectionControl::MemoryLock => 6,
                };
            let asked = |c: ProtectionControl|
                match c {
                    ProtectionControl::Canary => request.canary != Requirement::NotRequested,
                    ProtectionControl::Mapping => true,
                    ProtectionControl::GuardPages => request.guard_pages != Requirement::NotRequested,
                    ProtectionControl::DumpExclusion => request.dump_exclusion
                        != Requirement::NotRequested,
                    ProtectionControl::ForkPolicy => request.fork.requirement
                        != Requirement::NotRequested,
                    ProtectionControl::CachePolicy => request.cache_policy
                        != Requirement::NotRequested,
                    ProtectionControl::MemoryLock => request.memory_lock
                        != Requirement::NotRequested,
                };
            let last = match r {
                Err(ProtectedSecretFillError::Protection(error)) => error.failure.control,
                _ => ProtectionControl::MemoryLock,
            };
            let mapped = turn(last) > 1;
            let opened = mapped;
            &&& final(state).active
            &&& final(state).failure == old(state).failure
            &&& final(state).mapping is None
            &&& final(state).writable is None
            &&& final(state).maps == old(state).maps + if mapped {
                1int
            } else {
                0
            }
            &&& final(state).unmaps == old(state).unmaps + if mapped {
                1int
            } else {
                0
            }
            &&& final(state).cleared == old(state).cleared + if opened {
                1int
            } else {
                0
            }
            &&& final(state).hit == (old(state).hit || (old(state).failure matches Some(control)
                && asked(control) && turn(control) <= turn(last)))
        }),
{
    let setup = Setup::observed_by(
        *state,
        OwnerKind::Locked,
        *native,
        capacity,
        request,
    );
    setup.lemma_turns();
    if let Err(ProtectedSecretFillError::Protection(error)) = r {
        setup.lemma_refused(*state, error.failure.control);
    } else {
        setup.lemma_granted(*state);
    }
}

/// A refusal of a locked owner that comes before anything is mapped leaves an observer
/// with what it had seen, whatever that was, and at most a hit more.
pub proof fn law_locked_early_refusal_is_hardly_seen<E, F: FnOnce(&mut [u8]) -> Result<usize, E>>(
    state: &mut Observation,
    native: &NativeOutcomes,
    pages: &mut [u8],
    capacity: usize,
    request: ProtectionRequest,
    fill: F,
    r: Result<LockedSecretVec, ProtectedSecretFillError<E>>,
    error: crate::setup::ProtectionError,
)
    requires
        call_ensures(
            LockedSecretVec::try_from_capacity_with_protection::<E, F>,
            (state, native, pages, capacity, request, fill),
            r,
        ),
        r == Err::<LockedSecretVec, ProtectedSecretFillError<E>>(
            ProtectedSecretFillError::Protection(error),
        ),
        error.failure.control == ProtectionControl::Canary || error.failure.control
            == ProtectionControl::Mapping,
    ensures
        final(state).active == old(state).active,
        final(state).failure == old(state).failure,
        final(state).mapping == old(state).mapping,
        final(state).writable == old(state).writable,
        final(state).maps == old(state).maps,
        final(state).unmaps == old(state).unmaps,
        final(state).cleared == old(state).cleared,
        final(pages)@ == old(pages)@,
{
    let setup = Setup::observed_by(
        *state,
        OwnerKind::Locked,
        *native,
        capacity,
        request,
    );
    setup.lemma_turns();
    setup.lemma_refused(*state, error.failure.control);
}

/// Releasing a locked owner zeroes all its data pages, whether or not anyone watches.
/// It unlocks exactly what was locked, gives the mapping back, and says whether
/// the system did each of these. An armed observer sees the mapping go.
pub proof fn law_locked_release_leaves_zeros(
    owner: LockedSecretVec,
    state: &mut Observation,
    unlock: bool,
    unmap: bool,
    r: Rollback,
)
    requires
        call_ensures(LockedSecretVec::release, (owner, state, unlock, unmap), r),
    ensures
        final(owner.inner.pages)@.len() == old(owner.inner.pages)@.len(),
        forall|i: int|
            0 <= i < old(owner.inner.pages)@.len() ==> final(owner.inner.pages)@[i] == 0,
        r.unmap == if unmap {
            RollbackState::Completed
        } else {
            RollbackState::Failed
        },
        r.unlock == if owner.inner.report.memory_lock != ProtectionState::Established {
            RollbackState::NotNeeded
        } else if unlock {
            RollbackState::Completed
        } else {
            RollbackState::Failed
        },
        !old(state).active ==> *final(state) == *old(state),
        old(state).active && old(state).writable is Some && old(state).unmaps < usize::MAX
            && old(state).cleared < usize::MAX ==> {
            &&& final(state).active
            &&& final(state).failure == old(state).failure
            &&& final(state).hit == old(state).hit
            &&& final(state).mapping is None
            &&& final(state).writable is None
            &&& final(state).maps == old(state).maps
            &&& final(state).unmaps == old(state).unmaps + 1
            &&& final(state).cleared == old(state).cleared + 1
        },
{
}

/// A locked owner reads as its report, the first bytes of its data pages, as many as
/// the secret has, and the address where the
/// mapping starts.
pub proof fn law_locked_reads_as_it_is(
    owner: LockedSecretVec,
    report: &ProtectionReport,
    secret: &[u8],
    address: usize,
)
    requires
        owner@.wf(),
        owner.inner.kind == OwnerKind::Locked,
        call_ensures(LockedSecretVec::protection_report, (&owner,), report),
        call_ensures(LockedSecretVec::secret, (&owner,), secret),
        call_ensures(LockedSecretVec::data_address, (&owner,), address),
    ensures
        *report == owner.inner.report,
        secret@.len() == owner.inner.len,
        forall|i: int| 0 <= i < owner.inner.len ==> secret@[i] == old(owner.inner.pages)@[i],
        address == owner.inner.base,
{
    crate::pages::lemma_page_count_holds(owner.inner.capacity as nat, owner.inner.page as nat);
}

/// From the start of a probe over a granted locked owner to its release, all is
/// cleaned up: the pages hold nothing but zeros, and the check passes with one
/// mapping and one zeroed region, if the armed failure, if any, was hit.
pub proof fn law_locked_lifecycle_passes_the_check<E, F: FnOnce(&mut [u8]) -> Result<usize, E>>(
    failure: Option<ProtectionControl>,
    probe: Probe,
    began: &mut Observation,
    state: &mut Observation,
    native: &NativeOutcomes,
    pages: &mut [u8],
    capacity: usize,
    request: ProtectionRequest,
    fill: F,
    r: Result<LockedSecretVec, ProtectedSecretFillError<E>>,
    owner: LockedSecretVec,
    later: &mut Observation,
    unlock: bool,
    unmap: bool,
    rollback: Rollback,
    verdict: Result<(), Violation>,
)
    requires
        call_ensures(Probe::start, (began, failure), Ok::<Probe, Violation>(probe)),
        *old(state) == *final(began),
        call_ensures(
            LockedSecretVec::try_from_capacity_with_protection::<E, F>,
            (state, native, pages, capacity, request, fill),
            r,
        ),
        r == Ok::<LockedSecretVec, ProtectedSecretFillError<E>>(owner),
        *old(later) == *final(state),
        call_ensures(LockedSecretVec::release, (owner, later, unlock, unmap), rollback),
        call_ensures(Probe::check, (&probe, final(later), 1, 1), verdict),
        failure is Some ==> final(later).hit,
    ensures
        verdict is Ok,
        forall|i: int| 0 <= i < final(pages)@.len() ==> final(pages)@[i] == 0,
{
    let setup = Setup::observed_by(
        *state,
        OwnerKind::Locked,
        *native,
        capacity,
        request,
    );
    setup.lemma_turns();
    setup.lemma_granted(*state);
}

/// A fresh observer bars no locked owner, and neither does an observer that nobody
/// has armed: it takes pages of the right size at a place where they fit, a
/// system that can give a mapping back, and a fill that can be called on
/// zeros and keeps to its slice.
pub proof fn law_locked_owner_may_be_asked_for<E, F: FnOnce(&mut [u8]) -> Result<usize, E>>(
    state: &mut Observation,
    native: &NativeOutcomes,
    pages: &mut [u8],
    capacity: usize,
    request: ProtectionRequest,
    fill: F,
    rounded: nat,
)
    requires
        native.page > 0,
        rounded as int % native.page as int == 0,
        capacity <= rounded < capacity + native.page,
        native.base + rounded <= usize::MAX,
        old(pages)@.len() == rounded,
        old(state).active ==> {
            &&& native.unmap
            &&& old(state).mapping is None
            &&& old(state).writable is None
            &&& old(state).maps < usize::MAX
            &&& old(state).unmaps < usize::MAX
            &&& old(state).cleared < usize::MAX
        },
        forall|bytes: &mut [u8]|
            bytes@.len() == capacity && (forall|i: int| 0 <= i < capacity ==> bytes@[i] == 0)
                ==> #[trigger] call_requires(fill, (bytes,)),
        forall|bytes: &mut [u8], out: Result<usize, E>| #[trigger]
            call_ensures(fill, (bytes,), out) && bytes@.len() == capacity && (forall|i: int|
                0 <= i < capacity ==> bytes@[i] == 0) ==> final(bytes)@.len() == capacity,
    ensures
        call_requires(
            LockedSecretVec::try_from_capacity_with_protection::<E, F>,
            (state, native, pages, capacity, request, fill),
        ),
{
    let setup = Setup::observed_by(
        *state,
        OwnerKind::Locked,
        *native,
        capacity,
        request,
    );
    setup.lemma_turns();
    crate::policy_laws::lemma_rounded(capacity, native.page, rounded);
}

/// A refused locked owner does not need its fill: where a required control does not
/// come into force, the call may be made with a fill that can never be called,
/// so it does not call it.
pub proof fn law_locked_refusal_never_fills<E, F: FnOnce(&mut [u8]) -> Result<usize, E>>(
    state: &mut Observation,
    native: &NativeOutcomes,
    pages: &mut [u8],
    capacity: usize,
    request: ProtectionRequest,
    fill: F,
    rounded: nat,
)
    requires
        native.page > 0,
        rounded as int % native.page as int == 0,
        capacity <= rounded < capacity + native.page,
        native.base + rounded <= usize::MAX,
        old(pages)@.len() == rounded,
        old(state).active ==> {
            &&& native.unmap
            &&& old(state).mapping is None
            &&& old(state).writable is None
            &&& old(state).maps < usize::MAX
            &&& old(state).unmaps < usize::MAX
            &&& old(state).cleared < usize::MAX
        },
        ({
            let injected = if old(state).active {
                old(state).failure
            } else {
                None
            };
            let canary = request.canary != Requirement::Required || (native.canary
                == Outcome::Applied && injected != Some(ProtectionControl::Canary));
            let mapping = native.mapping == Outcome::Applied && injected != Some(
                ProtectionControl::Mapping,
            ) && rounded <= isize::MAX;
            let guards = request.guard_pages != Requirement::Required;
            let dump = request.dump_exclusion != Requirement::Required || (native.dump_exclusion
                == Outcome::Applied && injected != Some(ProtectionControl::DumpExclusion));
            let fork = request.fork.requirement != Requirement::Required || (native.fork
                == Outcome::Applied && injected != Some(ProtectionControl::ForkPolicy));
            let cache = request.cache_policy != Requirement::Required || (native.cache_policy
                == Outcome::Applied && injected != Some(ProtectionControl::CachePolicy));
            let lock = request.memory_lock != Requirement::Required || (native.memory_lock
                == Outcome::Applied && injected != Some(ProtectionControl::MemoryLock));
            !(canary && mapping && guards && dump && fork && cache && lock)
        }),
    ensures
        call_requires(
            LockedSecretVec::try_from_capacity_with_protection::<E, F>,
            (state, native, pages, capacity, request, fill),
        ),
{
    let setup = Setup::observed_by(
        *state,
        OwnerKind::Locked,
        *native,
        capacity,
        request,
    );
    setup.lemma_turns();
    crate::policy_laws::lemma_rounded(capacity, native.page, rounded);
}

/// A locked owner that was set up may be read, and released under its observer, if
/// the system can give the mapping back.
pub proof fn law_locked_owner_may_be_used<E, F: FnOnce(&mut [u8]) -> Result<usize, E>>(
    state: &mut Observation,
    native: &NativeOutcomes,
    pages: &mut [u8],
    capacity: usize,
    request: ProtectionRequest,
    fill: F,
    r: Result<LockedSecretVec, ProtectedSecretFillError<E>>,
    owner: LockedSecretVec,
    later: &mut Observation,
    unlock: bool,
    unmap: bool,
)
    requires
        call_ensures(
            LockedSecretVec::try_from_capacity_with_protection::<E, F>,
            (state, native, pages, capacity, request, fill),
            r,
        ),
        r == Ok::<LockedSecretVec, ProtectedSecretFillError<E>>(owner),
        *old(later) == *final(state),
        old(state).active ==> unmap && old(state).maps < usize::MAX && old(state).unmaps
            < usize::MAX && old(state).cleared < usize::MAX,
    ensures
        call_requires(LockedSecretVec::secret, (&owner,)),
        call_requires(LockedSecretVec::data_address, (&owner,)),
        call_requires(LockedSecretVec::protection_report, (&owner,)),
        call_requires(LockedSecretVec::release, (owner, later, unlock, unmap)),
{
    let setup = Setup::observed_by(
        *state,
        OwnerKind::Locked,
        *native,
        capacity,
        request,
    );
    setup.lemma_turns();
    setup.lemma_granted(*state);
}

} // verus!
