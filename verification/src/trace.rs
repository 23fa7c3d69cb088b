//! Runs of calls on one observation.
use vstd::prelude::*;

use crate::policy::ProtectionControl;
use crate::probe::{Observation, Violation};

verus! {

/// A call of the probe or of the backend.
pub enum Call {
    Start { failure: Option<ProtectionControl> },
    Fail { control: ProtectionControl },
    Mapped { base: usize, len: usize },
    Writable { data: usize, len: usize },
    BeforeUnmap { base: usize, bytes: Seq<u8> },
    Unmapped { base: usize, success: bool },
    Check { maps: usize, cleared: usize },
    Drop,
}

/// What a call answers.
pub enum Reply {
    /// Whether an expectation holds.
    Holds(Result<(), Violation>),
    /// Whether a control is to fail.
    Fails(bool),
}

/// What a call answers in a given state.
pub open spec fn reply(state: Observation, call: Call) -> Reply {
    match call {
        Call::Start { .. } => Reply::Holds(state.start_reply()),
        Call::Fail { control } => Reply::Fails(state.injects(control)),
        Call::Mapped { .. } => Reply::Holds(state.mapped_reply()),
        Call::Writable { .. } => Reply::Holds(Ok(())),
        Call::BeforeUnmap { base, bytes } => Reply::Holds(state.before_unmap_reply(base, bytes)),
        Call::Unmapped { base, success } => Reply::Holds(state.unmapped_reply(base, success)),
        Call::Check { maps, cleared } => Reply::Holds(
            match state.verdict(maps, cleared) {
                None => Ok(()),
                Some(violation) => Err(violation),
            },
        ),
        Call::Drop => Reply::Holds(Ok(())),
    }
}

/// The state that a call leaves: the one before, if an expectation does not
/// hold.
pub open spec fn step(state: Observation, call: Call) -> Observation {
    if reply(state, call) matches Reply::Holds(Err(_)) {
        state
    } else {
        match call {
            Call::Start { failure } => Observation::armed(failure),
            Call::Fail { control } => state.after_fail(control),
            Call::Mapped { base, len } => state.after_mapped(base, len),
            Call::Writable { data, len } => state.after_writable(data, len),
            Call::BeforeUnmap { .. } => state.after_cleared(),
            Call::Unmapped { .. } => state.after_unmapped(),
            Call::Check { .. } => state,
            Call::Drop => Observation::blank(),
        }
    }
}

/// The state that a run of calls leaves, from a blank observation on.
pub open spec fn run(calls: Seq<Call>) -> Observation
    decreases calls.len(),
{
    if calls.len() == 0 {
        Observation::blank()
    } else {
        step(run(calls.drop_last()), calls.last())
    }
}

/// What the calls of a run answer, one after the other.
pub open spec fn replies(calls: Seq<Call>) -> Seq<Reply>
    decreases calls.len(),
{
    if calls.len() == 0 {
        Seq::empty()
    } else {
        replies(calls.drop_last()).push(reply(run(calls.drop_last()), calls.last()))
    }
}

/// A counter has room for the call.
pub open spec fn has_room(state: Observation, call: Call) -> bool {
    call is Mapped ==> state.maps < usize::MAX
}

/// The calls are the same but for the addresses, renamed by `rename`, and the
/// lengths; and where they look for zeros, both find them or neither does.
pub open spec fn alike(a: Call, b: Call, rename: spec_fn(usize) -> usize) -> bool {
    match (a, b) {
        (Call::Mapped { base, .. }, Call::Mapped { base: other, .. }) => other == rename(base),
        (Call::Writable { .. }, Call::Writable { .. }) => true,
        (Call::BeforeUnmap { base, bytes }, Call::BeforeUnmap { base: other, bytes: others }) => {
            &&& other == rename(base)
            &&& crate::probe::all_zero(bytes) == crate::probe::all_zero(others)
        },
        (
            Call::Unmapped { base, success },
            Call::Unmapped { base: other, success: also },
        ) => other == rename(base) && success == also,
        _ => a == b,
    }
}

/// The states are the same but for the addresses, renamed by `rename`, and the
/// lengths.
pub open spec fn same_but_addresses(
    a: Observation,
    b: Observation,
    rename: spec_fn(usize) -> usize,
) -> bool {
    &&& a.active == b.active
    &&& a.failure == b.failure
    &&& a.hit == b.hit
    &&& a.maps == b.maps
    &&& a.unmaps == b.unmaps
    &&& a.cleared == b.cleared
    &&& match (a.mapping, b.mapping) {
        (Some((base, _)), Some((other, _))) => other == rename(base),
        (None, None) => true,
        _ => false,
    }
    &&& a.writable is Some == b.writable is Some
}

/// Distinct addresses keep distinct names.
pub open spec fn injective(rename: spec_fn(usize) -> usize) -> bool {
    forall|x: usize, y: usize| #[trigger] rename(x) == #[trigger] rename(y) ==> x == y
}

} // verus!
