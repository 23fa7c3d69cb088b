//! Requests for memory protection and reports on what was established.
use vstd::prelude::*;

verus! {

/// The operating systems with a native memory backend.
#[derive(Clone, Copy, PartialEq, Eq, Debug, Structural)]
pub enum TargetOs {
    Linux,
    MacOs,
}

/// How strongly a protection control is asked for.
#[derive(Clone, Copy, PartialEq, Eq, Debug, Structural)]
pub enum Requirement {
    /// The control is left alone.
    NotRequested,
    /// The control is tried; a failure is reported and tolerated.
    Preferred,
    /// The control is tried; a failure refuses the whole allocation.
    Required,
}

/// What a forked child sees of the protected pages.
#[derive(Clone, Copy, PartialEq, Eq, Debug, Structural)]
pub enum ForkPolicy {
    /// The pages are present in the child, as in the parent.
    Inherit,
    /// The pages are absent from the child.
    Exclude,
}

/// The controls that an allocation goes through.
#[derive(Clone, Copy, PartialEq, Eq, Debug, Structural)]
pub enum ProtectionControl {
    Canary,
    Mapping,
    GuardPages,
    DumpExclusion,
    ForkPolicy,
    CachePolicy,
    MemoryLock,
}

/// A fork policy and how strongly it is asked for.
#[derive(Clone, Copy, PartialEq, Eq, Debug, Structural)]
pub struct ForkProtectionRequest {
    pub policy: ForkPolicy,
    pub requirement: Requirement,
}

impl ForkProtectionRequest {
    /// Asks that a forked child does not see the pages.
    pub fn exclude(requirement: Requirement) -> (r: ForkProtectionRequest)
        ensures
            r.policy == ForkPolicy::Exclude,
            r.requirement == requirement,
    {
        ForkProtectionRequest { policy: ForkPolicy::Exclude, requirement }
    }
}

/// The protections asked for one allocation.
#[derive(Clone, Copy, PartialEq, Eq, Debug, Structural)]
pub struct ProtectionRequest {
    pub memory_lock: Requirement,
    pub dump_exclusion: Requirement,
    pub fork: ForkProtectionRequest,
    pub guard_pages: Requirement,
    pub canary: Requirement,
    pub cache_policy: Requirement,
}

/// The request that [`request`] makes: every control that the mapping layer of
/// `os` can give is required, dump exclusion is only preferred where the
/// mapping layer has none, and guard pages are asked for by guarded owners
/// alone.
pub open spec fn strict_request(guarded: bool, os: TargetOs) -> ProtectionRequest {
    ProtectionRequest {
        memory_lock: Requirement::Required,
        dump_exclusion: match os {
            TargetOs::MacOs => Requirement::Preferred,
            TargetOs::Linux => Requirement::Required,
        },
        fork: ForkProtectionRequest {
            policy: ForkPolicy::Exclude,
            requirement: Requirement::Required,
        },
        guard_pages: if guarded {
            Requirement::Required
        } else {
            Requirement::NotRequested
        },
        canary: Requirement::Required,
        cache_policy: Requirement::NotRequested,
    }
}

/// The strict request for an owner with guard pages, or for one without.
pub fn request(guarded: bool, os: TargetOs) -> (r: ProtectionRequest)
    ensures
        r == strict_request(guarded, os),
{
    ProtectionRequest {
        memory_lock: Requirement::Required,
        dump_exclusion: match os {
            TargetOs::MacOs => Requirement::Preferred,
            TargetOs::Linux => Requirement::Required,
        },
        fork: ForkProtectionRequest::exclude(Requirement::Required),
        guard_pages: if guarded {
            Requirement::Required
        } else {
            Requirement::NotRequested
        },
        canary: Requirement::Required,
        cache_policy: Requirement::NotRequested,
    }
}

/// What became of one control.
#[derive(Clone, Copy, PartialEq, Eq, Debug, Structural)]
pub enum ProtectionState {
    /// Nobody asked for it.
    NotRequested,
    /// It was asked for, and the allocation was refused before its turn.
    NotAttempted,
    /// It is in force.
    Established,
    /// The platform or the owner does not have it.
    Unsupported,
    /// It was tried and failed, with the native error where there is one.
    Failed { errno: Option<i32> },
}

/// The fork policy that was asked for and what became of it.
#[derive(Clone, Copy, PartialEq, Eq, Debug, Structural)]
pub struct ForkReport {
    pub policy: ForkPolicy,
    pub state: ProtectionState,
}

/// What an allocation established, control by control, and its size in bytes.
#[derive(Clone, Copy, PartialEq, Eq, Debug, Structural)]
pub struct ProtectionReport {
    pub mapping: ProtectionState,
    pub memory_lock: ProtectionState,
    pub dump_exclusion: ProtectionState,
    pub fork: ForkReport,
    pub guard_pages: ProtectionState,
    pub canary: ProtectionState,
    pub cache_policy: ProtectionState,
    /// Bytes mapped, guard pages counted.
    pub mapped_bytes: usize,
    /// Bytes locked into memory.
    pub locked_bytes: usize,
    /// The page size that both are multiples of.
    pub page_granule: usize,
}

/// A control is met when nobody asked for it or when it is in force.
pub open spec fn met(requirement: Requirement, state: ProtectionState) -> bool {
    requirement != Requirement::NotRequested ==> state == ProtectionState::Established
}

/// Whether a control is met.
fn is_met(requirement: Requirement, state: ProtectionState) -> (r: bool)
    ensures
        r == met(requirement, state),
{
    match (requirement, state) {
        (Requirement::NotRequested, _) => true,
        (_, ProtectionState::Established) => true,
        _ => false,
    }
}

impl ProtectionReport {
    /// The report covers the request: every control that was asked for, be it
    /// only preferred, is in force, and the fork policy is the one asked for.
    pub open spec fn covers(self, request: ProtectionRequest) -> bool {
        &&& met(request.memory_lock, self.memory_lock)
        &&& met(request.dump_exclusion, self.dump_exclusion)
        &&& met(request.fork.requirement, self.fork.state)
        &&& request.fork.requirement != Requirement::NotRequested ==> self.fork.policy
            == request.fork.policy
        &&& met(request.guard_pages, self.guard_pages)
        &&& met(request.canary, self.canary)
        &&& met(request.cache_policy, self.cache_policy)
    }

    /// Whether every control that `request` asks for is in force. A preferred
    /// control counts as much as a required one, so a degraded owner does not
    /// satisfy the request that it was granted under.
    pub fn satisfies(&self, request: ProtectionRequest) -> (r: bool)
        ensures
            r == self.covers(request),
    {
        is_met(request.memory_lock, self.memory_lock)
            && is_met(request.dump_exclusion, self.dump_exclusion)
            && is_met(request.fork.requirement, self.fork.state)
            && (request.fork.requirement == Requirement::NotRequested
                || self.fork.policy == request.fork.policy)
            && is_met(request.guard_pages, self.guard_pages)
            && is_met(request.canary, self.canary)
            && is_met(request.cache_policy, self.cache_policy)
    }
}

} // verus!
