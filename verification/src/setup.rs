//! What setting up a protected mapping comes to, given what the system answers.
//!
//! The controls have a fixed order. Each one that is asked for is tried in its
//! turn; the first one that is required and does not come into force refuses
//! the allocation.
use vstd::prelude::*;

use crate::policy::{
    ForkReport,
    ProtectionControl,
    ProtectionReport,
    ProtectionRequest,
    ProtectionState,
    Requirement,
    TargetOs,
};
use crate::probe::Observation;

verus! {

/// The two shapes of an owner.
#[derive(Clone, Copy, PartialEq, Eq, Debug, Structural)]
pub enum OwnerKind {
    /// Data pages between two guard pages. The whole mapping starts out
    /// inaccessible; setting the guards up is what opens the data pages.
    Guarded,
    /// Data pages alone, open from the start.
    Locked,
}

/// The system's answer to one control.
#[derive(Clone, Copy, PartialEq, Eq, Debug, Structural)]
pub enum Outcome {
    Applied,
    Unsupported,
    /// Refused, with the native error.
    Refused(i32),
}

impl Outcome {
    /// What the answer makes of the control.
    pub open spec fn state(self) -> ProtectionState {
        match self {
            Outcome::Applied => ProtectionState::Established,
            Outcome::Unsupported => ProtectionState::Unsupported,
            Outcome::Refused(code) => ProtectionState::Failed { errno: Some(code) },
        }
    }

    /// What the answer makes of the control.
    pub fn to_state(self) -> (r: ProtectionState)
        ensures
            r == self.state(),
    {
        match self {
            Outcome::Applied => ProtectionState::Established,
            Outcome::Unsupported => ProtectionState::Unsupported,
            Outcome::Refused(code) => ProtectionState::Failed { errno: Some(code) },
        }
    }
}

/// Everything that the system decides about one allocation.
#[derive(Clone, Copy, PartialEq, Eq, Debug, Structural)]
pub struct NativeOutcomes {
    /// The page size.
    pub page: usize,
    /// Where the mapping is placed, if it is made.
    pub base: usize,
    pub canary: Outcome,
    pub mapping: Outcome,
    pub guard_pages: Outcome,
    pub dump_exclusion: Outcome,
    pub fork: Outcome,
    pub cache_policy: Outcome,
    pub memory_lock: Outcome,
    /// Unlocking works.
    pub unlock: bool,
    /// Giving the mapping back works.
    pub unmap: bool,
}

impl NativeOutcomes {
    /// The answers of a system that grants all that its mapping layer has:
    /// there is no dump exclusion on macOS, and no cache policy anywhere.
    pub open spec fn granting(os: TargetOs, page: usize, base: usize) -> NativeOutcomes {
        NativeOutcomes {
            page,
            base,
            canary: Outcome::Applied,
            mapping: Outcome::Applied,
            guard_pages: Outcome::Applied,
            dump_exclusion: match os {
                TargetOs::Linux => Outcome::Applied,
                TargetOs::MacOs => Outcome::Unsupported,
            },
            fork: Outcome::Applied,
            cache_policy: Outcome::Unsupported,
            memory_lock: Outcome::Applied,
            unlock: true,
            unmap: true,
        }
    }

    /// The answers of a system that grants all that its mapping layer has.
    pub fn granted(os: TargetOs, page: usize, base: usize) -> (r: NativeOutcomes)
        ensures
            r == NativeOutcomes::granting(os, page, base),
    {
        NativeOutcomes {
            page,
            base,
            canary: Outcome::Applied,
            mapping: Outcome::Applied,
            guard_pages: Outcome::Applied,
            dump_exclusion: match os {
                TargetOs::Linux => Outcome::Applied,
                TargetOs::MacOs => Outcome::Unsupported,
            },
            fork: Outcome::Applied,
            cache_policy: Outcome::Unsupported,
            memory_lock: Outcome::Applied,
            unlock: true,
            unmap: true,
        }
    }
}

/// The bytes of the data pages for a secret of `capacity` bytes.
pub open spec fn data_bytes(capacity: nat, page: nat) -> nat {
    crate::pages::page_count(capacity, page) * page
}

/// The bytes in front of the data pages.
pub open spec fn lead_bytes(kind: OwnerKind, page: nat) -> nat {
    match kind {
        OwnerKind::Guarded => page,
        OwnerKind::Locked => 0,
    }
}

/// The bytes of the whole mapping: the data pages, and for a guarded owner one
/// guard page on either side.
pub open spec fn mapped_bytes(kind: OwnerKind, capacity: nat, page: nat) -> nat {
    data_bytes(capacity, page) + 2 * lead_bytes(kind, page)
}

/// The sizes of a mapping.
#[derive(Clone, Copy, PartialEq, Eq, Debug, Structural)]
pub struct Layout {
    pub data_bytes: usize,
    pub mapped_bytes: usize,
}

/// The sizes of the mapping for a secret of `capacity` bytes, unless it is
/// larger than any object can be.
pub fn layout(kind: OwnerKind, capacity: usize, page: usize) -> (r: Option<Layout>)
    requires
        page > 0,
    ensures
        r is Some <==> mapped_bytes(kind, capacity as nat, page as nat) <= isize::MAX,
        r matches Some(l) ==> {
            &&& l.data_bytes == data_bytes(capacity as nat, page as nat)
            &&& l.mapped_bytes == mapped_bytes(kind, capacity as nat, page as nat)
        },
{
    let pages = crate::pages::pages_for(capacity, page);
    let data = match pages.checked_mul(page) {
        Some(data) => data,
        None => {
            return None;
        },
    };
    let lead: usize = match kind {
        OwnerKind::Guarded => page,
        OwnerKind::Locked => 0,
    };
    let most = isize::MAX as usize;
    if data > most || lead > most || lead > most - data || lead > most - data - lead {
        return None;
    }
    Some(Layout { data_bytes: data, mapped_bytes: data + lead + lead })
}

/// `n` bytes of zero.
pub open spec fn zeros(n: nat) -> Seq<u8> {
    Seq::new(n, |i: int| 0u8)
}

/// One allocation: what is asked for, what the system answers, and which
/// control, if any, is made to fail on purpose.
pub struct Setup {
    pub kind: OwnerKind,
    pub capacity: usize,
    pub request: ProtectionRequest,
    pub native: NativeOutcomes,
    pub injected: Option<ProtectionControl>,
}

/// The turn of a control.
pub open spec fn stage(control: ProtectionControl) -> int {
    match control {
        ProtectionControl::Canary => 0,
        ProtectionControl::Mapping => 1,
        ProtectionControl::GuardPages => 2,
        ProtectionControl::DumpExclusion => 3,
        ProtectionControl::ForkPolicy => 4,
        ProtectionControl::CachePolicy => 5,
        ProtectionControl::MemoryLock => 6,
    }
}

/// A control that does not come into force although it is required.
pub open spec fn blocking(requirement: Requirement, state: ProtectionState) -> bool {
    requirement == Requirement::Required && state != ProtectionState::Established
}

/// What became of a cleanup step.
#[derive(Clone, Copy, PartialEq, Eq, Debug, Structural)]
pub enum RollbackState {
    /// There was nothing to clean up.
    NotNeeded,
    Completed,
    Failed,
}

/// What became of the cleanup of an allocation.
#[derive(Clone, Copy, PartialEq, Eq, Debug, Structural)]
pub struct Rollback {
    pub unlock: RollbackState,
    pub unmap: RollbackState,
}

/// The control that refused an allocation, and its state.
#[derive(Clone, Copy, PartialEq, Eq, Debug, Structural)]
pub struct ProtectionFailure {
    pub control: ProtectionControl,
    pub state: ProtectionState,
}

/// A refused allocation. Everything that it had set up is cleaned up again.
#[derive(Clone, Copy, PartialEq, Eq, Debug, Structural)]
pub struct ProtectionError {
    pub failure: ProtectionFailure,
    pub rollback: Rollback,
    /// What had been established before the refusal.
    pub partial_report: ProtectionReport,
}

/// A cleanup step that was made, and whether it worked.
pub open spec fn step_state(success: bool) -> RollbackState {
    if success {
        RollbackState::Completed
    } else {
        RollbackState::Failed
    }
}

impl Setup {
    /// An allocation with a failure injected by `state`, if it is armed.
    pub open spec fn observed_by(
        state: Observation,
        kind: OwnerKind,
        native: NativeOutcomes,
        capacity: usize,
        request: ProtectionRequest,
    ) -> Setup {
        Setup {
            kind,
            capacity,
            request,
            native,
            injected: if state.active {
                state.failure
            } else {
                None
            },
        }
    }

    /// The bytes of the data pages.
    pub open spec fn data_bytes(self) -> nat {
        data_bytes(self.capacity as nat, self.native.page as nat)
    }

    /// The bytes of the mapping.
    pub open spec fn mapped_bytes(self) -> nat {
        mapped_bytes(self.kind, self.capacity as nat, self.native.page as nat)
    }

    /// The mapping is no larger than an object can be.
    pub open spec fn representable(self) -> bool {
        self.mapped_bytes() <= isize::MAX
    }

    /// How strongly a control is asked for. There is no secret without a
    /// mapping, and none in a guarded owner without guards.
    pub open spec fn requirement(self, control: ProtectionControl) -> Requirement {
        match control {
            ProtectionControl::Canary => self.request.canary,
            ProtectionControl::Mapping => Requirement::Required,
            ProtectionControl::GuardPages => match self.kind {
                OwnerKind::Guarded => Requirement::Required,
                OwnerKind::Locked => self.request.guard_pages,
            },
            ProtectionControl::DumpExclusion => self.request.dump_exclusion,
            ProtectionControl::ForkPolicy => self.request.fork.requirement,
            ProtectionControl::CachePolicy => self.request.cache_policy,
            ProtectionControl::MemoryLock => self.request.memory_lock,
        }
    }

    /// The system's answer to a control. A mapping that is too large is not to
    /// be had, and neither are guard pages in an owner without them.
    pub open spec fn outcome(self, control: ProtectionControl) -> Outcome {
        match control {
            ProtectionControl::Canary => self.native.canary,
            ProtectionControl::Mapping => if self.representable() {
                self.native.mapping
            } else {
                Outcome::Unsupported
            },
            ProtectionControl::GuardPages => match self.kind {
                OwnerKind::Guarded => self.native.guard_pages,
                OwnerKind::Locked => Outcome::Unsupported,
            },
            ProtectionControl::DumpExclusion => self.native.dump_exclusion,
            ProtectionControl::ForkPolicy => self.native.fork,
            ProtectionControl::CachePolicy => self.native.cache_policy,
            ProtectionControl::MemoryLock => self.native.memory_lock,
        }
    }

    /// What trying a control comes to.
    pub open spec fn attempt(self, control: ProtectionControl) -> ProtectionState {
        if self.injected == Some(control) {
            ProtectionState::Failed { errno: None }
        } else {
            self.outcome(control).state()
        }
    }

    /// The control refuses the allocation if its turn comes.
    pub open spec fn blocks(self, control: ProtectionControl) -> bool {
        blocking(self.requirement(control), self.attempt(control))
    }

    /// The turn of the control comes: none before it refuses.
    #[verifier::opaque]
    pub open spec fn reached(self, control: ProtectionControl) -> bool {
        forall|before: ProtectionControl| #[trigger]
            stage(before) < stage(control) ==> !self.blocks(before)
    }

    /// The control is tried.
    pub open spec fn tried(self, control: ProtectionControl) -> bool {
        self.reached(control) && self.requirement(control) != Requirement::NotRequested
    }

    /// The allocation is refused by this control.
    pub open spec fn refused_by(self, control: ProtectionControl) -> bool {
        self.reached(control) && self.blocks(control)
    }

    /// The allocation is granted.
    #[verifier::opaque]
    pub open spec fn ready(self) -> bool {
        forall|control: ProtectionControl| !#[trigger] self.blocks(control)
    }

    /// What the report says of a control.
    pub open spec fn state_of(self, control: ProtectionControl) -> ProtectionState {
        if self.requirement(control) == Requirement::NotRequested {
            ProtectionState::NotRequested
        } else if self.reached(control) {
            self.attempt(control)
        } else {
            ProtectionState::NotAttempted
        }
    }

    /// The mapping is made.
    pub open spec fn maps(self) -> bool {
        self.state_of(ProtectionControl::Mapping) == ProtectionState::Established
    }

    /// The data pages become writable.
    pub open spec fn opens(self) -> bool {
        match self.kind {
            OwnerKind::Guarded => self.state_of(ProtectionControl::GuardPages)
                == ProtectionState::Established,
            OwnerKind::Locked => self.maps(),
        }
    }

    /// The memory is locked.
    pub open spec fn locks(self) -> bool {
        self.state_of(ProtectionControl::MemoryLock) == ProtectionState::Established
    }

    /// The report on the allocation, granted or refused.
    pub open spec fn report(self) -> ProtectionReport {
        ProtectionReport {
            mapping: self.state_of(ProtectionControl::Mapping),
            memory_lock: self.state_of(ProtectionControl::MemoryLock),
            dump_exclusion: self.state_of(ProtectionControl::DumpExclusion),
            fork: ForkReport {
                policy: self.request.fork.policy,
                state: self.state_of(ProtectionControl::ForkPolicy),
            },
            guard_pages: self.state_of(ProtectionControl::GuardPages),
            canary: self.state_of(ProtectionControl::Canary),
            cache_policy: self.state_of(ProtectionControl::CachePolicy),
            mapped_bytes: if self.maps() {
                self.mapped_bytes() as usize
            } else {
                0
            },
            locked_bytes: if self.locks() {
                self.data_bytes() as usize
            } else {
                0
            },
            page_granule: self.native.page,
        }
    }

    /// The error of a refused allocation. Locking has the last turn, so a
    /// refusal never finds anything to unlock.
    pub open spec fn error(self, control: ProtectionControl) -> ProtectionError {
        ProtectionError {
            failure: ProtectionFailure { control, state: self.attempt(control) },
            rollback: Rollback {
                unlock: RollbackState::NotNeeded,
                unmap: if self.maps() {
                    step_state(self.native.unmap)
                } else {
                    RollbackState::NotNeeded
                },
            },
            partial_report: self.report(),
        }
    }

    /// Where the data pages start.
    pub open spec fn data_address(self) -> usize {
        (self.native.base + lead_bytes(self.kind, self.native.page as nat)) as usize
    }

    /// There is a page size, and a mapping that is made is placed where its
    /// addresses exist.
    pub open spec fn placed(self) -> bool {
        &&& self.native.page > 0
        &&& self.maps() ==> self.native.base + self.mapped_bytes() <= usize::MAX
    }

    /// An armed observer can see a mapping that was made go again: the system
    /// takes it back, and the counters that this raises have room.
    pub open spec fn cleanable(self, state: Observation) -> bool {
        state.active ==> {
            &&& self.native.unmap
            &&& state.unmaps < usize::MAX
            &&& self.opens() ==> state.cleared < usize::MAX
        }
    }

    /// `state` can watch the allocation. An armed observer that comes to see a
    /// mapping sees no other, and has room to count it. If that mapping goes
    /// unopened, no writable region is left over from before. And the mapping
    /// of a refused allocation can be seen to go.
    pub open spec fn watchable(self, state: Observation) -> bool {
        &&& state.active && self.maps() ==> state.mapping is None && state.maps < usize::MAX
        &&& state.active && self.maps() && !self.opens() ==> state.writable is None
        &&& self.maps() && !self.ready() ==> self.cleanable(state)
    }

    /// The data pages that come with the allocation: where they are opened, they
    /// have their full length. What they hold does not matter.
    pub open spec fn supplies(self, pages: Seq<u8>) -> bool {
        self.opens() ==> pages.len() == self.data_bytes()
    }

    /// What the data pages hold once a refused or failed allocation is cleaned
    /// up: nothing but zeros, or what they held if they were never opened.
    pub open spec fn cleaned(self, pages: Seq<u8>) -> Seq<u8> {
        if self.opens() {
            zeros(self.data_bytes())
        } else {
            pages
        }
    }

    /// What an observer has seen once the controls had their turns: whether the
    /// injected failure was reached, the mapping and its writable part.
    pub open spec fn seen(self, state: Observation) -> Observation {
        let hit = Observation {
            hit: state.hit || (self.injected matches Some(control) && self.tried(control)),
            ..state
        };
        let made = if self.maps() {
            hit.after_mapped(self.native.base, self.mapped_bytes() as usize)
        } else {
            hit
        };
        if self.opens() {
            made.after_writable(self.data_address(), self.data_bytes() as usize)
        } else {
            made
        }
    }

    /// What an observer has seen once a refused or failed allocation is cleaned
    /// up: the writable part zeroed, then the mapping given back.
    pub open spec fn seen_cleaned(self, state: Observation) -> Observation {
        if self.maps() {
            self.seen(state).after_cleared().after_unmapped()
        } else {
            self.seen(state)
        }
    }

    /// The controls had their turns up to the one numbered `n`, exclusively,
    /// and none refused so far but perhaps the last: what an observer has seen.
    #[verifier::opaque]
    pub open spec fn seen_upto(self, state: Observation, n: int) -> Observation {
        let hit = Observation {
            hit: state.hit || (self.injected matches Some(control) && stage(control) < n
                && self.requirement(control) != Requirement::NotRequested),
            ..state
        };
        let made = if n > stage(ProtectionControl::Mapping) && self.attempt(
            ProtectionControl::Mapping,
        ) == ProtectionState::Established {
            hit.after_mapped(self.native.base, self.mapped_bytes() as usize)
        } else {
            hit
        };
        if self.opened_upto(n) {
            made.after_writable(self.data_address(), self.data_bytes() as usize)
        } else {
            made
        }
    }

    /// What the report says of a control at that point.
    pub open spec fn state_upto(self, control: ProtectionControl, n: int) -> ProtectionState {
        if self.requirement(control) == Requirement::NotRequested {
            ProtectionState::NotRequested
        } else if stage(control) < n {
            self.attempt(control)
        } else {
            ProtectionState::NotAttempted
        }
    }

    /// The report at that point.
    #[verifier::opaque]
    pub open spec fn report_upto(self, n: int) -> ProtectionReport {
        ProtectionReport {
            mapping: self.state_upto(ProtectionControl::Mapping, n),
            memory_lock: self.state_upto(ProtectionControl::MemoryLock, n),
            dump_exclusion: self.state_upto(ProtectionControl::DumpExclusion, n),
            fork: ForkReport {
                policy: self.request.fork.policy,
                state: self.state_upto(ProtectionControl::ForkPolicy, n),
            },
            guard_pages: self.state_upto(ProtectionControl::GuardPages, n),
            canary: self.state_upto(ProtectionControl::Canary, n),
            cache_policy: self.state_upto(ProtectionControl::CachePolicy, n),
            mapped_bytes: if self.state_upto(ProtectionControl::Mapping, n)
                == ProtectionState::Established {
                self.mapped_bytes() as usize
            } else {
                0
            },
            locked_bytes: if self.state_upto(ProtectionControl::MemoryLock, n)
                == ProtectionState::Established {
                self.data_bytes() as usize
            } else {
                0
            },
            page_granule: self.native.page,
        }
    }

    /// The turns of the controls, one after the other.
    pub proof fn lemma_turns(self)
        ensures
            self.reached(ProtectionControl::Canary),
            self.reached(ProtectionControl::Mapping) == !self.blocks(ProtectionControl::Canary),
            self.reached(ProtectionControl::GuardPages) == (self.reached(ProtectionControl::Mapping)
                && !self.blocks(ProtectionControl::Mapping)),
            self.reached(ProtectionControl::DumpExclusion) == (self.reached(
                ProtectionControl::GuardPages,
            ) && !self.blocks(ProtectionControl::GuardPages)),
            self.reached(ProtectionControl::ForkPolicy) == (self.reached(
                ProtectionControl::DumpExclusion,
            ) && !self.blocks(ProtectionControl::DumpExclusion)),
            self.reached(ProtectionControl::CachePolicy) == (self.reached(
                ProtectionControl::ForkPolicy,
            ) && !self.blocks(ProtectionControl::ForkPolicy)),
            self.reached(ProtectionControl::MemoryLock) == (self.reached(
                ProtectionControl::CachePolicy,
            ) && !self.blocks(ProtectionControl::CachePolicy)),
            self.ready() == (self.reached(ProtectionControl::MemoryLock) && !self.blocks(
                ProtectionControl::MemoryLock,
            )),
    {
        reveal(Setup::reached);
        reveal(Setup::ready);
        assert(stage(ProtectionControl::Canary) < stage(ProtectionControl::Mapping));
        assert(stage(ProtectionControl::Mapping) < stage(ProtectionControl::GuardPages));
        assert(stage(ProtectionControl::GuardPages) < stage(ProtectionControl::DumpExclusion));
        assert(stage(ProtectionControl::DumpExclusion) < stage(ProtectionControl::ForkPolicy));
        assert(stage(ProtectionControl::ForkPolicy) < stage(ProtectionControl::CachePolicy));
        assert(stage(ProtectionControl::CachePolicy) < stage(ProtectionControl::MemoryLock));
        if self.reached(ProtectionControl::MemoryLock) && !self.blocks(
            ProtectionControl::MemoryLock,
        ) {
            assert forall|control: ProtectionControl| !#[trigger] self.blocks(control) by {
                assert(stage(control) <= stage(ProtectionControl::MemoryLock));
            }
        }
    }

    /// The data pages are open at that point.
    pub open spec fn opened_upto(self, n: int) -> bool {
        match self.kind {
            OwnerKind::Guarded => n > stage(ProtectionControl::GuardPages) && self.attempt(
                ProtectionControl::GuardPages,
            ) == ProtectionState::Established,
            OwnerKind::Locked => n > stage(ProtectionControl::Mapping) && self.attempt(
                ProtectionControl::Mapping,
            ) == ProtectionState::Established,
        }
    }

    /// The injected failure is the one that an armed observer asks for.
    pub open spec fn injected_by(self, state: Observation) -> bool {
        self.injected == if state.active {
            state.failure
        } else {
            None
        }
    }

    /// What one turn adds to what an observer has seen.
    pub proof fn lemma_turn(self, state: Observation, control: ProtectionControl)
        requires
            self.injected_by(state),
        ensures
            ({
                let before = self.seen_upto(state, stage(control));
                let after = self.seen_upto(state, stage(control) + 1);
                let tried = if self.requirement(control) == Requirement::NotRequested {
                    before
                } else {
                    before.after_fail(control)
                };
                let established = self.attempt(control) == ProtectionState::Established;
                let data = self.data_bytes() as usize;
                &&& before.injects(control) == (self.injected == Some(control))
                &&& after == match control {
                    ProtectionControl::Mapping if established => {
                        let made = tried.after_mapped(
                            self.native.base,
                            self.mapped_bytes() as usize,
                        );
                        match self.kind {
                            OwnerKind::Guarded => made,
                            OwnerKind::Locked => made.after_writable(self.data_address(), data),
                        }
                    },
                    ProtectionControl::GuardPages if established && self.kind
                        == OwnerKind::Guarded => tried.after_writable(self.data_address(), data),
                    _ => tried,
                }
            }),
    {
        reveal(Setup::seen_upto);
    }

    /// What an armed observer sees of the mapping once it is made.
    pub proof fn lemma_live(self, state: Observation, n: int)
        requires
            n > stage(ProtectionControl::Mapping),
            self.attempt(ProtectionControl::Mapping) == ProtectionState::Established,
        ensures
            ({
                let now = self.seen_upto(state, n);
                &&& now.active == state.active
                &&& now.active ==> {
                    &&& now.mapping == Some((self.native.base, self.mapped_bytes() as usize))
                    &&& now.writable == if self.opened_upto(n) {
                        Some((self.data_address(), self.data_bytes() as usize))
                    } else {
                        state.writable
                    }
                    &&& now.unmaps == state.unmaps
                    &&& now.cleared == state.cleared
                }
            }),
    {
        reveal(Setup::seen_upto);
    }

    /// A refused allocation stops behind the control that refused it.
    pub proof fn lemma_refused(self, state: Observation, control: ProtectionControl)
        requires
            self.refused_by(control),
        ensures
            !self.ready(),
            self.seen(state) == self.seen_upto(state, stage(control) + 1),
            self.report() == self.report_upto(stage(control) + 1),
            self.maps() == (stage(control) > stage(ProtectionControl::Mapping)),
            self.opens() == (self.maps() && self.opened_upto(stage(control) + 1)),
    {
        self.lemma_turns();
        reveal(Setup::seen_upto);
        reveal(Setup::report_upto);
        assert forall|other: ProtectionControl| #[trigger]
            self.reached(other) == (stage(other) <= stage(control)) by {
            reveal(Setup::reached);
            if stage(other) > stage(control) {
                assert(stage(control) < stage(other));
            } else {
                assert forall|before: ProtectionControl| #[trigger]
                    stage(before) < stage(other) implies !self.blocks(before) by {
                    assert(stage(before) < stage(control));
                }
            }
        }
    }

    /// A granted allocation has come to the end.
    pub proof fn lemma_granted(self, state: Observation)
        requires
            self.ready(),
        ensures
            self.seen(state) == self.seen_upto(state, 7),
            self.report() == self.report_upto(7),
            self.maps(),
            self.opens(),
    {
        self.lemma_turns();
        reveal(Setup::seen_upto);
        reveal(Setup::report_upto);
        assert forall|other: ProtectionControl| #[trigger] self.reached(other) by {
            reveal(Setup::reached);
            reveal(Setup::ready);
        }
        assert(self.maps());
    }
}

} // verus!
