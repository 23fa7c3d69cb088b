//! Owners of page-mapped secrets.
//!
//! An owner is set up control by control, filled by its caller, and cleaned up
//! by zeroing its data pages, unlocking them and giving the mapping back. The
//! caller's fill runs only once every required control is in force. Whatever
//! fails on the way, all that was set up is cleaned up again, and the data pages
//! are zero before the mapping is reported as given back, whether or not an
//! observer watches.
//!
//! This module maps, locks and unmaps nothing. The data pages are a slice that
//! the caller supplies: it stands for the pages that the system has mapped, is
//! written in place, and protects a secret only as far as the memory behind it
//! is protected. What the system answers to each step comes in beforehand, as
//! [`NativeOutcomes`] when an owner is set up, and as two flags when it is
//! released; the answers to unlocking and unmapping are among them. The
//! contracts hold for every combination of answers.
//!
//! Cleaning up takes those answers, so it is a call and no destructor: an owner
//! that goes out of scope without its `release` leaves its secret in the pages.
use vstd::prelude::*;

use crate::policy::{
    ForkReport,
    ProtectionControl,
    ProtectionReport,
    ProtectionRequest,
    ProtectionState,
    Requirement,
};
use crate::probe::{before_unmap, fail, mapped, unmapped, writable, Observation};
use crate::setup::{
    layout,
    Layout,
    NativeOutcomes,
    Outcome,
    OwnerKind,
    ProtectionError,
    ProtectionFailure,
    Rollback,
    RollbackState,
    Setup,
};

verus! {

/// A fill that claims more bytes than it was given.
#[derive(Clone, Copy, PartialEq, Eq, Debug, Structural)]
pub struct SecretLengthError {
    pub length: usize,
    pub capacity: usize,
}

/// Why there is no owner.
#[derive(PartialEq, Eq, Debug)]
pub enum ProtectedSecretFillError<E> {
    /// A required control did not come into force.
    Protection(ProtectionError),
    /// The fill claimed more bytes than it was given.
    Length(SecretLengthError),
    /// The fill failed.
    Fill(E),
}

/// A secret and the mapping that holds it.
#[verifier::ext_equal]
pub struct SecretView {
    pub kind: OwnerKind,
    /// Where the mapping starts.
    pub base: usize,
    /// The page size.
    pub page: usize,
    /// The bytes that the fill was given.
    pub capacity: usize,
    /// The bytes of them that make up the secret.
    pub len: usize,
    /// What the data pages hold, in the slice that stands for them.
    pub region: Seq<u8>,
    /// The protections in force.
    pub report: ProtectionReport,
}

impl SecretView {
    /// The secret is a prefix of the data pages, and the mapping fits.
    pub open spec fn wf(self) -> bool {
        &&& self.page > 0
        &&& self.len <= self.capacity
        &&& self.region.len() == crate::setup::data_bytes(self.capacity as nat, self.page as nat)
        &&& self.base + self.mapped_bytes() <= usize::MAX
    }

    /// The bytes of the mapping.
    pub open spec fn mapped_bytes(self) -> nat {
        crate::setup::mapped_bytes(self.kind, self.capacity as nat, self.page as nat)
    }

    /// Where the data pages start.
    pub open spec fn data_address(self) -> usize {
        (self.base + crate::setup::lead_bytes(self.kind, self.page as nat)) as usize
    }

    /// The secret.
    pub open spec fn secret(self) -> Seq<u8> {
        self.region.take(self.len as int)
    }

    /// The memory is locked.
    pub open spec fn locked(self) -> bool {
        self.report.memory_lock == ProtectionState::Established
    }

    /// An armed observer sees this mapping, and has room to see it go.
    pub open spec fn watched_by(self, state: Observation) -> bool {
        state.active ==> {
            &&& state.mapping == Some((self.base, self.mapped_bytes() as usize))
            &&& state.writable == Some((self.data_address(), self.region.len() as usize))
            &&& state.unmaps < usize::MAX
            &&& state.cleared < usize::MAX
        }
    }

    /// What cleaning up comes to.
    pub open spec fn rollback(self, unlock: bool, unmap: bool) -> Rollback {
        Rollback {
            unlock: if self.locked() {
                crate::setup::step_state(unlock)
            } else {
                RollbackState::NotNeeded
            },
            unmap: crate::setup::step_state(unmap),
        }
    }
}

/// The owner that a granted setup makes, with `len` bytes of secret in data
/// pages that the fill left holding `filled`, and zeros after it.
pub open spec fn granted_secret(setup: Setup, len: usize, filled: Seq<u8>) -> SecretView {
    SecretView {
        kind: setup.kind,
        base: setup.native.base,
        page: setup.native.page,
        capacity: setup.capacity,
        len,
        region: filled + crate::setup::zeros((setup.data_bytes() - setup.capacity) as nat),
        report: setup.report(),
    }
}

/// The fill has written a secret that fits.
pub open spec fn fits<E>(out: Result<usize, E>, capacity: usize) -> bool {
    out matches Ok(length) && length <= capacity
}

/// What a granted setup comes to, once the fill has returned `out` and left its
/// bytes holding `filled`: the owner, or the fill's error.
pub open spec fn fill_result<E>(
    setup: Setup,
    out: Result<usize, E>,
    filled: Seq<u8>,
) -> Result<SecretView, ProtectedSecretFillError<E>> {
    match out {
        Ok(length) => if length <= setup.capacity {
            Ok(granted_secret(setup, length, filled))
        } else {
            Err(
                ProtectedSecretFillError::Length(
                    SecretLengthError { length, capacity: setup.capacity },
                ),
            )
        },
        Err(error) => Err(ProtectedSecretFillError::Fill(error)),
    }
}

/// A secret in a mapping of either shape.
pub struct MappedSecret<'a> {
    pub kind: OwnerKind,
    /// Where the mapping starts.
    pub base: usize,
    /// The page size.
    pub page: usize,
    /// The bytes that the fill was given.
    pub capacity: usize,
    /// The bytes of them that make up the secret.
    pub len: usize,
    /// The caller's slice, which stands for the data pages of the mapping.
    pub pages: &'a mut [u8],
    /// The protections in force.
    pub report: ProtectionReport,
}

impl<'a> View for MappedSecret<'a> {
    type V = SecretView;

    open spec fn view(&self) -> SecretView {
        SecretView {
            kind: self.kind,
            base: self.base,
            page: self.page,
            capacity: self.capacity,
            len: self.len,
            region: self.pages@,
            report: self.report,
        }
    }
}

/// Zeroes every byte in place.
pub fn wipe(pages: &mut [u8])
    ensures
        final(pages)@ == crate::setup::zeros(old(pages)@.len()),
{
    let mut i: usize = 0;
    while i < pages.len()
        invariant
            i <= pages@.len(),
            pages@.len() == old(pages)@.len(),
            forall|j: int| 0 <= j < i ==> pages@[j] == 0,
        decreases pages@.len() - i,
    {
        pages[i] = 0;
        i = i + 1;
    }
    assert(pages@ =~= crate::setup::zeros(old(pages)@.len()));
}

/// Whether a cleanup step that was made has worked.
fn made(success: bool) -> (r: RollbackState)
    ensures
        r == crate::setup::step_state(success),
{
    if success {
        RollbackState::Completed
    } else {
        RollbackState::Failed
    }
}

/// Tries a control, if it is asked for.
fn attempt(
    state: &mut Observation,
    requirement: Requirement,
    outcome: Outcome,
    control: ProtectionControl,
) -> (r: ProtectionState)
    ensures
        requirement == Requirement::NotRequested ==> r == ProtectionState::NotRequested
            && *final(state) == *old(state),
        requirement != Requirement::NotRequested ==> *final(state) == old(state).after_fail(control)
            && r == if old(state).injects(control) {
            (ProtectionState::Failed { errno: None })
        } else {
            outcome.state()
        },
{
    if requirement == Requirement::NotRequested {
        ProtectionState::NotRequested
    } else if fail(state, control) {
        ProtectionState::Failed { errno: None }
    } else {
        outcome.to_state()
    }
}

/// Whether the control refuses the allocation.
fn is_blocking(requirement: Requirement, state: ProtectionState) -> (r: bool)
    ensures
        r == crate::setup::blocking(requirement, state),
{
    match (requirement, state) {
        (Requirement::Required, ProtectionState::Established) => false,
        (Requirement::Required, _) => true,
        _ => false,
    }
}

/// Whether the control is in force.
fn is_established(state: ProtectionState) -> (r: bool)
    ensures
        r == (state == ProtectionState::Established),
{
    match state {
        ProtectionState::Established => true,
        _ => false,
    }
}

/// What a report says of a control before its turn.
fn pending(requirement: Requirement) -> (r: ProtectionState)
    ensures
        r == if requirement == Requirement::NotRequested {
            ProtectionState::NotRequested
        } else {
            ProtectionState::NotAttempted
        },
{
    if requirement == Requirement::NotRequested {
        ProtectionState::NotRequested
    } else {
        ProtectionState::NotAttempted
    }
}

/// Zeroes the data pages, if they are open, and gives the mapping back.
fn unmap_cleared(
    state: &mut Observation,
    base: usize,
    pages: &mut [u8],
    opened: bool,
    unmap: bool,
)
    requires
        old(state).active ==> {
            &&& old(state).live_at(base)
            &&& old(state).writable is Some == opened
            &&& old(state).writable matches Some((_, len)) ==> old(pages)@.len() == len
            &&& opened ==> old(state).cleared < usize::MAX
            &&& old(state).unmaps < usize::MAX
            &&& unmap
        },
    ensures
        final(pages)@ == if opened {
            crate::setup::zeros(old(pages)@.len())
        } else {
            old(pages)@
        },
        *final(state) == old(state).after_cleared().after_unmapped(),
{
    if opened {
        wipe(pages);
    }
    let cleared = before_unmap(state, base, pages);
    let gone = unmapped(state, base, unmap);
    assert(cleared is Ok && gone is Ok);
}

/// The error of an allocation that was refused before it had a mapping.
fn refuse(control: ProtectionControl, state: ProtectionState, report: ProtectionReport) -> (r:
    ProtectionError)
    ensures
        r == (ProtectionError {
            failure: ProtectionFailure { control, state },
            rollback: Rollback {
                unlock: RollbackState::NotNeeded,
                unmap: RollbackState::NotNeeded,
            },
            partial_report: report,
        }),
{
    ProtectionError {
        failure: ProtectionFailure { control, state },
        rollback: Rollback { unlock: RollbackState::NotNeeded, unmap: RollbackState::NotNeeded },
        partial_report: report,
    }
}

/// Cleans up behind a control that refuses an allocation with a mapping.
fn refuse_mapped(
    state: &mut Observation,
    control: ProtectionControl,
    failed: ProtectionState,
    native: &NativeOutcomes,
    pages: &mut [u8],
    opened: bool,
    report: ProtectionReport,
    Ghost(setup): Ghost<Setup>,
    Ghost(start): Ghost<Observation>,
) -> (r: ProtectionError)
    requires
        setup.native == *native,
        setup.watchable(start),
        setup.refused_by(control),
        crate::setup::stage(control) > crate::setup::stage(ProtectionControl::Mapping),
        failed == setup.attempt(control),
        report == setup.report_upto(crate::setup::stage(control) + 1),
        *old(state) == setup.seen_upto(start, crate::setup::stage(control) + 1),
        opened == setup.opens(),
        setup.supplies(old(pages)@),
        setup.data_bytes() <= usize::MAX,
    ensures
        final(pages)@ == setup.cleaned(old(pages)@),
        r == setup.error(control),
        *final(state) == setup.seen_cleaned(start),
{
    proof {
        setup.lemma_refused(start, control);
        setup.lemma_live(start, crate::setup::stage(control) + 1);
    }
    unmap_cleared(state, native.base, pages, opened, native.unmap);
    ProtectionError {
        failure: ProtectionFailure { control, state: failed },
        rollback: Rollback { unlock: RollbackState::NotNeeded, unmap: made(native.unmap) },
        partial_report: report,
    }
}

/// A mapping whose data pages are open.
struct OpenMapping {
    sizes: Layout,
    report: ProtectionReport,
}

/// Makes the mapping and opens its data pages: the canary, the mapping and the
/// guard pages have their turns.
fn open_mapping(
    state: &mut Observation,
    kind: OwnerKind,
    native: &NativeOutcomes,
    capacity: usize,
    request: ProtectionRequest,
    pages: &mut [u8],
    Ghost(setup): Ghost<Setup>,
) -> (r: Result<OpenMapping, ProtectionError>)
    requires
        setup == Setup::observed_by(*old(state), kind, *native, capacity, request),
        setup.placed(),
        setup.watchable(*old(state)),
        setup.supplies(old(pages)@),
    ensures
        match r {
            Ok(open) => {
                &&& final(pages)@ == old(pages)@
                &&& setup.reached(ProtectionControl::DumpExclusion)
                &&& setup.attempt(ProtectionControl::Mapping) == ProtectionState::Established
                &&& setup.opened_upto(crate::setup::stage(ProtectionControl::DumpExclusion))
                &&& setup.representable()
                &&& open.sizes.data_bytes == setup.data_bytes()
                &&& open.sizes.mapped_bytes == setup.mapped_bytes()
                &&& setup.opens()
                &&& open.report == setup.report_upto(
                    crate::setup::stage(ProtectionControl::DumpExclusion),
                )
                &&& *final(state) == setup.seen_upto(
                    *old(state),
                    crate::setup::stage(ProtectionControl::DumpExclusion),
                )
            },
            Err(error) => {
                &&& final(pages)@ == setup.cleaned(old(pages)@)
                &&& setup.refused_by(error.failure.control)
                &&& error == setup.error(error.failure.control)
                &&& *final(state) == setup.seen_cleaned(*old(state))
            },
        },
{
    let ghost start = *state;
    proof {
        setup.lemma_turns();
        setup.lemma_turn(start, ProtectionControl::Canary);
        setup.lemma_turn(start, ProtectionControl::Mapping);
        setup.lemma_turn(start, ProtectionControl::GuardPages);
        assert(start == setup.seen_upto(start, 0)) by {
            reveal(Setup::seen_upto);
        }
    }
    let sizes = layout(kind, capacity, native.page);
    let guard_requirement = match kind {
        OwnerKind::Guarded => Requirement::Required,
        OwnerKind::Locked => request.guard_pages,
    };
    let mut report = ProtectionReport {
        mapping: ProtectionState::NotAttempted,
        memory_lock: pending(request.memory_lock),
        dump_exclusion: pending(request.dump_exclusion),
        fork: ForkReport { policy: request.fork.policy, state: pending(request.fork.requirement) },
        guard_pages: pending(guard_requirement),
        canary: pending(request.canary),
        cache_policy: pending(request.cache_policy),
        mapped_bytes: 0,
        locked_bytes: 0,
        page_granule: native.page,
    };

    let canary = attempt(state, request.canary, native.canary, ProtectionControl::Canary);
    report.canary = canary;
    assert(report == setup.report_upto(1)) by {
        reveal(Setup::report_upto);
    }
    if is_blocking(request.canary, canary) {
        proof {
            setup.lemma_refused(start, ProtectionControl::Canary);
        }
        return Err(refuse(ProtectionControl::Canary, canary, report));
    }
    let mapping_outcome = match sizes {
        Some(_) => native.mapping,
        None => Outcome::Unsupported,
    };
    let mapping = attempt(
        state,
        Requirement::Required,
        mapping_outcome,
        ProtectionControl::Mapping,
    );
    report.mapping = mapping;
    let sizes = match (sizes, mapping) {
        (Some(sizes), ProtectionState::Established) => sizes,
        _ => {
            assert(report == setup.report_upto(2)) by {
                reveal(Setup::report_upto);
            }
            proof {
                setup.lemma_refused(start, ProtectionControl::Mapping);
            }
            return Err(refuse(ProtectionControl::Mapping, mapping, report));
        },
    };
    report.mapped_bytes = sizes.mapped_bytes;
    assert(report == setup.report_upto(2)) by {
        reveal(Setup::report_upto);
    }
    assert(setup.maps());
    assert(state.active ==> state.mapping is None && state.maps < usize::MAX) by {
        reveal(Setup::seen_upto);
    }
    let base = native.base;
    let noted = mapped(state, base, sizes.mapped_bytes);
    assert(noted is Ok);
    if kind == OwnerKind::Locked {
        writable(state, base, sizes.data_bytes);
    }
    assert(*state == setup.seen_upto(start, 2));

    let guard_outcome = match kind {
        OwnerKind::Guarded => native.guard_pages,
        OwnerKind::Locked => Outcome::Unsupported,
    };
    let guards = attempt(state, guard_requirement, guard_outcome, ProtectionControl::GuardPages);
    report.guard_pages = guards;
    assert(report == setup.report_upto(3)) by {
        reveal(Setup::report_upto);
    }
    if is_blocking(guard_requirement, guards) {
        return Err(
            refuse_mapped(
                state,
                ProtectionControl::GuardPages,
                guards,
                native,
                pages,
                kind == OwnerKind::Locked,
                report,
                Ghost(setup),
                Ghost(start),
            ),
        );
    }
    if kind == OwnerKind::Guarded {
        writable(state, base + native.page, sizes.data_bytes);
    }
    Ok(OpenMapping { sizes, report })
}

/// Gives the controls that follow an open mapping their turns.
fn harden(
    state: &mut Observation,
    native: &NativeOutcomes,
    request: ProtectionRequest,
    open: OpenMapping,
    pages: &mut [u8],
    Ghost(setup): Ghost<Setup>,
    Ghost(start): Ghost<Observation>,
) -> (r: Result<OpenMapping, ProtectionError>)
    requires
        setup.native == *native,
        setup.request == request,
        setup.injected_by(start),
        setup.watchable(start),
        setup.reached(ProtectionControl::DumpExclusion),
        setup.attempt(ProtectionControl::Mapping) == ProtectionState::Established,
        setup.opened_upto(3),
        open.sizes.data_bytes == setup.data_bytes(),
        setup.opens(),
        setup.supplies(old(pages)@),
        open.report == setup.report_upto(3),
        *old(state) == setup.seen_upto(start, 3),
    ensures
        match r {
            Ok(hard) => {
                &&& final(pages)@ == old(pages)@
                &&& setup.ready()
                &&& hard.sizes == open.sizes
                &&& hard.report == setup.report()
                &&& *final(state) == setup.seen(start)
            },
            Err(error) => {
                &&& final(pages)@ == setup.cleaned(old(pages)@)
                &&& setup.refused_by(error.failure.control)
                &&& error == setup.error(error.failure.control)
                &&& *final(state) == setup.seen_cleaned(start)
            },
        },
{
    proof {
        setup.lemma_turns();
        setup.lemma_turn(start, ProtectionControl::DumpExclusion);
        setup.lemma_turn(start, ProtectionControl::ForkPolicy);
        setup.lemma_turn(start, ProtectionControl::CachePolicy);
        setup.lemma_turn(start, ProtectionControl::MemoryLock);
    }
    let OpenMapping { sizes, mut report } = open;
    let dump = attempt(
        state,
        request.dump_exclusion,
        native.dump_exclusion,
        ProtectionControl::DumpExclusion,
    );
    report.dump_exclusion = dump;
    assert(report == setup.report_upto(4)) by {
        reveal(Setup::report_upto);
    }
    if is_blocking(request.dump_exclusion, dump) {
        let control = ProtectionControl::DumpExclusion;
        return Err(
            refuse_mapped(
                state,
                control,
                dump,
                native,
                pages,
                true,
                report,
                Ghost(setup),
                Ghost(start),
            ),
        );
    }
    let fork = attempt(
        state,
        request.fork.requirement,
        native.fork,
        ProtectionControl::ForkPolicy,
    );
    report.fork.state = fork;
    assert(report == setup.report_upto(5)) by {
        reveal(Setup::report_upto);
    }
    if is_blocking(request.fork.requirement, fork) {
        let control = ProtectionControl::ForkPolicy;
        return Err(
            refuse_mapped(
                state,
                control,
                fork,
                native,
                pages,
                true,
                report,
                Ghost(setup),
                Ghost(start),
            ),
        );
    }
    let cache = attempt(
        state,
        request.cache_policy,
        native.cache_policy,
        ProtectionControl::CachePolicy,
    );
    report.cache_policy = cache;
    assert(report == setup.report_upto(6)) by {
        reveal(Setup::report_upto);
    }
    if is_blocking(request.cache_policy, cache) {
        let control = ProtectionControl::CachePolicy;
        return Err(
            refuse_mapped(
                state,
                control,
                cache,
                native,
                pages,
                true,
                report,
                Ghost(setup),
                Ghost(start),
            ),
        );
    }
    let lock = attempt(
        state,
        request.memory_lock,
        native.memory_lock,
        ProtectionControl::MemoryLock,
    );
    report.memory_lock = lock;
    if is_blocking(request.memory_lock, lock) {
        assert(report == setup.report_upto(7)) by {
            reveal(Setup::report_upto);
        }
        let control = ProtectionControl::MemoryLock;
        return Err(
            refuse_mapped(
                state,
                control,
                lock,
                native,
                pages,
                true,
                report,
                Ghost(setup),
                Ghost(start),
            ),
        );
    }
    if is_established(lock) {
        report.locked_bytes = sizes.data_bytes;
    }
    assert(report == setup.report_upto(7)) by {
        reveal(Setup::report_upto);
    }
    proof {
        setup.lemma_granted(start);
    }
    Ok(OpenMapping { sizes, report })
}

/// Gives every control its turn. On a refusal the data pages are zeroed before
/// the mapping goes, if they had been opened.
fn prepare(
    state: &mut Observation,
    kind: OwnerKind,
    native: &NativeOutcomes,
    capacity: usize,
    request: ProtectionRequest,
    pages: &mut [u8],
) -> (r: Result<ProtectionReport, ProtectionError>)
    requires
        ({
            let setup = Setup::observed_by(*old(state), kind, *native, capacity, request);
            setup.placed() && setup.watchable(*old(state)) && setup.supplies(old(pages)@)
        }),
    ensures
        ({
            let setup = Setup::observed_by(*old(state), kind, *native, capacity, request);
            match r {
                Ok(report) => {
                    &&& final(pages)@ == old(pages)@
                    &&& setup.ready()
                    &&& report == setup.report()
                    &&& *final(state) == setup.seen(*old(state))
                },
                Err(error) => {
                    &&& final(pages)@ == setup.cleaned(old(pages)@)
                    &&& !setup.ready()
                    &&& setup.refused_by(error.failure.control)
                    &&& error == setup.error(error.failure.control)
                    &&& *final(state) == setup.seen_cleaned(*old(state))
                },
            }
        }),
{
    let ghost start = *state;
    let ghost setup = Setup::observed_by(start, kind, *native, capacity, request);
    let open = match open_mapping(state, kind, native, capacity, request, pages, Ghost(setup)) {
        Ok(open) => open,
        Err(error) => {
            proof {
                setup.lemma_refused(start, error.failure.control);
            }
            return Err(error);
        },
    };
    match harden(state, native, request, open, pages, Ghost(setup), Ghost(start)) {
        Ok(open) => Ok(open.report),
        Err(error) => {
            proof {
                setup.lemma_refused(start, error.failure.control);
            }
            Err(error)
        },
    }
}

impl<'a> MappedSecret<'a> {
    /// Zeroes the data pages in place, unlocks them and gives the mapping back.
    fn release(self, state: &mut Observation, unlock: bool, unmap: bool) -> (r: Rollback)
        requires
            self@.watched_by(*old(state)),
            old(state).active ==> unmap,
        ensures
            final(self.pages)@ == crate::setup::zeros(old(self.pages)@.len()),
            r == self@.rollback(unlock, unmap),
            *final(state) == old(state).after_cleared().after_unmapped(),
    {
        let MappedSecret { base, pages, report, .. } = self;
        assert(pages@.len() == pages.len());
        unmap_cleared(state, base, pages, true, unmap);
        Rollback {
            unlock: if is_established(report.memory_lock) {
                made(unlock)
            } else {
                RollbackState::NotNeeded
            },
            unmap: made(unmap),
        }
    }

    /// The secret.
    fn secret(&self) -> (r: &[u8])
        requires
            self@.wf(),
        ensures
            r@ == self@.secret(),
    {
        proof {
            crate::pages::lemma_page_count_holds(self.capacity as nat, self.page as nat);
        }
        vstd::slice::slice_subrange(self.pages, 0, self.len)
    }

    /// Where the data pages start.
    fn data_address(&self) -> (r: usize)
        requires
            self@.wf(),
        ensures
            r == self@.data_address(),
    {
        match self.kind {
            OwnerKind::Guarded => self.base + self.page,
            OwnerKind::Locked => self.base,
        }
    }

    /// A result with the owner taken by its view.
    spec fn viewed<E>(r: Result<Self, ProtectedSecretFillError<E>>) -> Result<
        SecretView,
        ProtectedSecretFillError<E>,
    > {
        match r {
            Ok(owner) => Ok(owner@),
            Err(error) => Err(error),
        }
    }

    /// Sets an owner up and lets `fill` write the secret.
    fn try_fill<E, F: FnOnce(&mut [u8]) -> Result<usize, E>>(
        state: &mut Observation,
        kind: OwnerKind,
        native: &NativeOutcomes,
        pages: &'a mut [u8],
        capacity: usize,
        request: ProtectionRequest,
        fill: F,
    ) -> (r: Result<MappedSecret<'a>, ProtectedSecretFillError<E>>)
        requires
            ({
                let setup = Setup::observed_by(*old(state), kind, *native, capacity, request);
                &&& setup.placed()
                &&& setup.watchable(*old(state))
                &&& setup.supplies(old(pages)@)
                &&& setup.ready() ==> forall|bytes: &mut [u8]|
                    bytes@ == crate::setup::zeros(capacity as nat) ==> call_requires(fill, (bytes,))
                &&& setup.ready() ==> forall|bytes: &mut [u8], out: Result<usize, E>| #[trigger]
                    call_ensures(fill, (bytes,), out) && bytes@ == crate::setup::zeros(capacity as nat)
                        ==> final(bytes)@.len() == capacity && (fits(out, capacity)
                        || setup.cleanable(*old(state)))
            }),
        ensures
            r matches Ok(owner) ==> owner@.wf() && final(owner.pages)@ == final(pages)@,
            ({
                let setup = Setup::observed_by(*old(state), kind, *native, capacity, request);
                r is Err ==> final(pages)@ == setup.cleaned(old(pages)@)
            }),
            ({
                let setup = Setup::observed_by(*old(state), kind, *native, capacity, request);
                if setup.ready() {
                    exists|bytes: &mut [u8], out: Result<usize, E>|
                        {
                            &&& bytes@ == crate::setup::zeros(capacity as nat)
                            &&& #[trigger] call_ensures(fill, (bytes,), out)
                            &&& Self::viewed(r) == fill_result(setup, out, final(bytes)@)
                            &&& match out {
                                Ok(length) => if length <= capacity {
                                    &&& r matches Ok(owner)
                                    &&& owner@.len == length
                                    &&& owner@.region.take(length as int) == final(bytes)@.take(
                                        length as int,
                                    )
                                } else {
                                    &&& r matches Err(ProtectedSecretFillError::Length(error))
                                    &&& error.length == length
                                    &&& error.capacity == capacity
                                },
                                Err(cause) => {
                                    &&& r matches Err(ProtectedSecretFillError::Fill(error))
                                    &&& error == cause
                                },
                            }
                        }
                } else {
                    r matches Err(ProtectedSecretFillError::Protection(error)) && setup.refused_by(
                        error.failure.control,
                    ) && error == setup.error(error.failure.control)
                }
            }),
            *final(state) == ({
                let setup = Setup::observed_by(*old(state), kind, *native, capacity, request);
                if r is Ok {
                    setup.seen(*old(state))
                } else {
                    setup.seen_cleaned(*old(state))
                }
            }),
    {
        let ghost start = *state;
        let ghost setup = Setup::observed_by(start, kind, *native, capacity, request);
        let report = match prepare(state, kind, native, capacity, request, pages) {
            Ok(report) => report,
            Err(error) => {
                return Err(ProtectedSecretFillError::Protection(error));
            },
        };
        proof {
            crate::pages::lemma_page_count_holds(capacity as nat, native.page as nat);
            setup.lemma_granted(start);
            setup.lemma_live(start, 7);
            setup.lemma_turns();
        }
        let ghost rest = crate::setup::zeros((setup.data_bytes() - capacity) as nat);
        wipe(pages);
        let (bytes, spare) = pages.split_at_mut(capacity);
        assert(bytes@ =~= crate::setup::zeros(capacity as nat));
        assert(spare@ =~= rest);
        let out: Result<usize, E> = fill(bytes);
        let ghost filled = bytes@;
        assert(exists|b: &mut [u8]|
            b@ == crate::setup::zeros(capacity as nat) && (#[trigger] call_ensures(fill, (b,), out))
                && final(b)@ == filled);
        assert(pages@ == filled + rest);
        let mut secret = MappedSecret {
            kind,
            base: native.base,
            page: native.page,
            capacity,
            len: 0,
            pages,
            report,
        };
        match out {
            Ok(length) => {
                if length <= capacity {
                    secret.len = length;
                    Ok(secret)
                } else {
                    secret.release(state, native.unlock, native.unmap);
                    Err(ProtectedSecretFillError::Length(SecretLengthError { length, capacity }))
                }
            },
            Err(error) => {
                secret.release(state, native.unlock, native.unmap);
                Err(ProtectedSecretFillError::Fill(error))
            },
        }
    }
}

/// A secret in data pages that stand between two guard pages. The data pages are
/// the caller's slice; the guard pages are addresses alone.
pub struct GuardedSecretVec<'a> {
    pub inner: MappedSecret<'a>,
}

impl<'a> View for GuardedSecretVec<'a> {
    type V = SecretView;

    open spec fn view(&self) -> SecretView {
        self.inner@
    }
}

impl<'a> GuardedSecretVec<'a> {
    /// A result with the owner taken by its view.
    pub open spec fn viewed<E>(r: Result<Self, ProtectedSecretFillError<E>>) -> Result<
        SecretView,
        ProtectedSecretFillError<E>,
    > {
        match r {
            Ok(owner) => Ok(owner@),
            Err(error) => Err(error),
        }
    }

    /// Sets an owner up under `request` and lets `fill` write the secret into
    /// `capacity` zeroed bytes; `fill` returns how many of them the secret
    /// takes. `native` is what the system answers to every step, those of the
    /// cleanup too, `pages` stand for the data pages that it has mapped, and
    /// `state` watches.
    ///
    /// A required control that does not come into force refuses the
    /// allocation, and then `fill` does not run: it need not even be callable.
    /// A fill that fails, or that claims more bytes than it was given, leaves
    /// no owner. Either way all that was set up is cleaned up again, and pages
    /// that had been opened hold nothing but zeros, whatever they held before.
    /// (That `fill` leaves a slice as long as it was holds of every slice; a
    /// caller's contract for `fill` has to say so.)
    pub fn try_from_capacity_with_protection<E, F: FnOnce(&mut [u8]) -> Result<usize, E>>(
        state: &mut Observation,
        native: &NativeOutcomes,
        pages: &'a mut [u8],
        capacity: usize,
        request: ProtectionRequest,
        fill: F,
    ) -> (r: Result<GuardedSecretVec<'a>, ProtectedSecretFillError<E>>)
        requires
            ({
                let setup = Setup::observed_by(
                    *old(state),
                    OwnerKind::Guarded,
                    *native,
                    capacity,
                    request,
                );
                &&& setup.placed()
                &&& setup.watchable(*old(state))
                &&& setup.supplies(old(pages)@)
                &&& setup.ready() ==> forall|bytes: &mut [u8]|
                    bytes@ == crate::setup::zeros(capacity as nat) ==> call_requires(fill, (bytes,))
                &&& setup.ready() ==> forall|bytes: &mut [u8], out: Result<usize, E>| #[trigger]
                    call_ensures(fill, (bytes,), out) && bytes@ == crate::setup::zeros(capacity as nat)
                        ==> final(bytes)@.len() == capacity && (fits(out, capacity)
                        || setup.cleanable(*old(state)))
            }),
        ensures
            r matches Ok(owner) ==> owner@.wf() && final(owner.inner.pages)@ == final(pages)@,
            ({
                let setup = Setup::observed_by(
                    *old(state),
                    OwnerKind::Guarded,
                    *native,
                    capacity,
                    request,
                );
                r is Err ==> final(pages)@ == setup.cleaned(old(pages)@)
            }),
            ({
                let setup = Setup::observed_by(
                    *old(state),
                    OwnerKind::Guarded,
                    *native,
                    capacity,
                    request,
                );
                if setup.ready() {
                    exists|bytes: &mut [u8], out: Result<usize, E>|
                        {
                            &&& bytes@ == crate::setup::zeros(capacity as nat)
                            &&& #[trigger] call_ensures(fill, (bytes,), out)
                            &&& Self::viewed(r) == fill_result(setup, out, final(bytes)@)
                            &&& match out {
                                Ok(length) => if length <= capacity {
                                    &&& r matches Ok(owner)
                                    &&& owner@.len == length
                                    &&& owner@.region.take(length as int) == final(bytes)@.take(
                                        length as int,
                                    )
                                } else {
                                    &&& r matches Err(ProtectedSecretFillError::Length(error))
                                    &&& error.length == length
                                    &&& error.capacity == capacity
                                },
                                Err(cause) => {
                                    &&& r matches Err(ProtectedSecretFillError::Fill(error))
                                    &&& error == cause
                                },
                            }
                        }
                } else {
                    r matches Err(ProtectedSecretFillError::Protection(error)) && setup.refused_by(
                        error.failure.control,
                    ) && error == setup.error(error.failure.control)
                }
            }),
            *final(state) == ({
                let setup = Setup::observed_by(
                    *old(state),
                    OwnerKind::Guarded,
                    *native,
                    capacity,
                    request,
                );
                if r is Ok {
                    setup.seen(*old(state))
                } else {
                    setup.seen_cleaned(*old(state))
                }
            }),
    {
        match MappedSecret::try_fill(
            state,
            OwnerKind::Guarded,
            native,
            pages,
            capacity,
            request,
            fill,
        ) {
            Ok(inner) => Ok(GuardedSecretVec { inner }),
            Err(error) => Err(error),
        }
    }

    /// The protections in force.
    pub fn protection_report(&self) -> (r: &ProtectionReport)
        ensures
            *r == self@.report,
    {
        &self.inner.report
    }

    /// The secret.
    pub fn secret(&self) -> (r: &[u8])
        requires
            self@.wf(),
        ensures
            r@ == self@.secret(),
    {
        self.inner.secret()
    }

    /// Where the data pages start.
    pub fn data_address(&self) -> (r: usize)
        requires
            self@.wf(),
        ensures
            r == self@.data_address(),
    {
        self.inner.data_address()
    }

    /// Cleans up, whether or not anyone watches: zeroes the data pages in place,
    /// unlocks them if they are locked, and gives the mapping back. `unlock` and
    /// `unmap` are the system's answers.
    pub fn release(self, state: &mut Observation, unlock: bool, unmap: bool) -> (r: Rollback)
        requires
            self@.watched_by(*old(state)),
            old(state).active ==> unmap,
        ensures
            final(self.inner.pages)@ == crate::setup::zeros(old(self.inner.pages)@.len()),
            r == self@.rollback(unlock, unmap),
            *final(state) == old(state).after_cleared().after_unmapped(),
    {
        self.inner.release(state, unlock, unmap)
    }
}

/// A secret in data pages alone, which are the caller's slice.
pub struct LockedSecretVec<'a> {
    pub inner: MappedSecret<'a>,
}

impl<'a> View for LockedSecretVec<'a> {
    type V = SecretView;

    open spec fn view(&self) -> SecretView {
        self.inner@
    }
}

impl<'a> LockedSecretVec<'a> {
    /// A result with the owner taken by its view.
    pub open spec fn viewed<E>(r: Result<Self, ProtectedSecretFillError<E>>) -> Result<
        SecretView,
        ProtectedSecretFillError<E>,
    > {
        match r {
            Ok(owner) => Ok(owner@),
            Err(error) => Err(error),
        }
    }

    /// Sets an owner up under `request` and lets `fill` write the secret into
    /// `capacity` zeroed bytes; `fill` returns how many of them the secret
    /// takes. `native` is what the system answers to every step, those of the
    /// cleanup too, `pages` stand for the data pages that it has mapped, and
    /// `state` watches.
    ///
    /// A required control that does not come into force refuses the
    /// allocation, and then `fill` does not run: it need not even be callable.
    /// A fill that fails, or that claims more bytes than it was given, leaves
    /// no owner. Either way all that was set up is cleaned up again, and pages
    /// that had been opened hold nothing but zeros, whatever they held before.
    /// (That `fill` leaves a slice as long as it was holds of every slice; a
    /// caller's contract for `fill` has to say so.)
    pub fn try_from_capacity_with_protection<E, F: FnOnce(&mut [u8]) -> Result<usize, E>>(
        state: &mut Observation,
        native: &NativeOutcomes,
        pages: &'a mut [u8],
        capacity: usize,
        request: ProtectionRequest,
        fill: F,
    ) -> (r: Result<LockedSecretVec<'a>, ProtectedSecretFillError<E>>)
        requires
            ({
                let setup = Setup::observed_by(
                    *old(state),
                    OwnerKind::Locked,
                    *native,
                    capacity,
                    request,
                );
                &&& setup.placed()
                &&& setup.watchable(*old(state))
                &&& setup.supplies(old(pages)@)
                &&& setup.ready() ==> forall|bytes: &mut [u8]|
                    bytes@ == crate::setup::zeros(capacity as nat) ==> call_requires(fill, (bytes,))
                &&& setup.ready() ==> forall|bytes: &mut [u8], out: Result<usize, E>| #[trigger]
                    call_ensures(fill, (bytes,), out) && bytes@ == crate::setup::zeros(capacity as nat)
                        ==> final(bytes)@.len() == capacity && (fits(out, capacity)
                        || setup.cleanable(*old(state)))
            }),
        ensures
            r matches Ok(owner) ==> owner@.wf() && final(owner.inner.pages)@ == final(pages)@,
            ({
                let setup = Setup::observed_by(
                    *old(state),
                    OwnerKind::Locked,
                    *native,
                    capacity,
                    request,
                );
                r is Err ==> final(pages)@ == setup.cleaned(old(pages)@)
            }),
            ({
                let setup = Setup::observed_by(
                    *old(state),
                    OwnerKind::Locked,
                    *native,
                    capacity,
                    request,
                );
                if setup.ready() {
                    exists|bytes: &mut [u8], out: Result<usize, E>|
                        {
                            &&& bytes@ == crate::setup::zeros(capacity as nat)
                            &&& #[trigger] call_ensures(fill, (bytes,), out)
                            &&& Self::viewed(r) == fill_result(setup, out, final(bytes)@)
                            &&& match out {
                                Ok(length) => if length <= capacity {
                                    &&& r matches Ok(owner)
                                    &&& owner@.len == length
                                    &&& owner@.region.take(length as int) == final(bytes)@.take(
                                        length as int,
                                    )
                                } else {
                                    &&& r matches Err(ProtectedSecretFillError::Length(error))
                                    &&& error.length == length
                                    &&& error.capacity == capacity
                                },
                                Err(cause) => {
                                    &&& r matches Err(ProtectedSecretFillError::Fill(error))
                                    &&& error == cause
                                },
                            }
                        }
                } else {
                    r matches Err(ProtectedSecretFillError::Protection(error)) && setup.refused_by(
                        error.failure.control,
                    ) && error == setup.error(error.failure.control)
                }
            }),
            *final(state) == ({
                let setup = Setup::observed_by(
                    *old(state),
                    OwnerKind::Locked,
                    *native,
                    capacity,
                    request,
                );
                if r is Ok {
                    setup.seen(*old(state))
                } else {
                    setup.seen_cleaned(*old(state))
                }
            }),
    {
        match MappedSecret::try_fill(
            state,
            OwnerKind::Locked,
            native,
            pages,
            capacity,
            request,
            fill,
        ) {
            Ok(inner) => Ok(LockedSecretVec { inner }),
            Err(error) => Err(error),
        }
    }

    /// The protections in force.
    pub fn protection_report(&self) -> (r: &ProtectionReport)
        ensures
            *r == self@.report,
    {
        &self.inner.report
    }

    /// The secret.
    pub fn secret(&self) -> (r: &[u8])
        requires
            self@.wf(),
        ensures
            r@ == self@.secret(),
    {
        self.inner.secret()
    }

    /// Where the data pages start.
    pub fn data_address(&self) -> (r: usize)
        requires
            self@.wf(),
        ensures
            r == self@.data_address(),
    {
        self.inner.data_address()
    }

    /// Cleans up, whether or not anyone watches: zeroes the data pages in place,
    /// unlocks them if they are locked, and gives the mapping back. `unlock` and
    /// `unmap` are the system's answers.
    pub fn release(self, state: &mut Observation, unlock: bool, unmap: bool) -> (r: Rollback)
        requires
            self@.watched_by(*old(state)),
            old(state).active ==> unmap,
        ensures
            final(self.inner.pages)@ == crate::setup::zeros(old(self.inner.pages)@.len()),
            r == self@.rollback(unlock, unmap),
            *final(state) == old(state).after_cleared().after_unmapped(),
    {
        self.inner.release(state, unlock, unmap)
    }
}

} // verus!
