//! An observer of one allocation at a time.
//!
//! A [`Probe`] arms an [`Observation`]. From then on the memory backend tells
//! the observation what it does, through [`mapped`], [`writable`],
//! [`before_unmap`] and [`unmapped`], and asks it through [`fail`] whether a
//! protection control is to fail on purpose. Each of them answers a misuse with
//! the [`Violation`] that it amounts to, and then leaves the observation as it
//! was. An observation that is not armed ignores the backend.
use vstd::prelude::*;

use crate::policy::ProtectionControl;

verus! {

/// What has been seen of the allocation under observation. Regions are pairs of
/// an address and a length in bytes.
#[derive(Clone, Copy, PartialEq, Eq, Debug)]
pub struct Observation {
    /// A probe is watching.
    pub active: bool,
    /// The control that is made to fail.
    pub failure: Option<ProtectionControl>,
    /// The backend has come to that control.
    pub hit: bool,
    /// The live mapping.
    pub mapping: Option<(usize, usize)>,
    /// The part of it that can be written.
    pub writable: Option<(usize, usize)>,
    /// Mappings made.
    pub maps: usize,
    /// Mappings given back.
    pub unmaps: usize,
    /// Writable regions found zeroed right before their mapping went.
    pub cleared: usize,
}

/// An expectation on the memory backend that did not hold.
#[derive(Clone, Copy, PartialEq, Eq, Debug, Structural)]
pub enum Violation {
    /// A second probe was started.
    AlreadyActive,
    /// A second mapping was made while one was live.
    SecondMapping,
    /// The address is not the base of the live mapping.
    ForeignBase,
    /// A writable region still held data when its mapping was about to go.
    NotCleared,
    /// The mapping could not be given back.
    UnmapFailed,
    /// The injected failure was not reached, or one was hit that nobody armed.
    Injection,
    /// The number of mappings made.
    MapCount,
    /// The number of mappings given back.
    UnmapCount,
    /// The number of regions found zeroed.
    ClearedCount,
    /// A mapping is still live.
    LiveMapping,
}

impl Violation {
    /// The expectation in words.
    pub open spec fn text(self) -> Seq<char> {
        match self {
            Violation::AlreadyActive => "no other probe is active"@,
            Violation::SecondMapping => "no other mapping is live"@,
            Violation::ForeignBase => "base of the live mapping"@,
            Violation::NotCleared => "complete writable region cleared"@,
            Violation::UnmapFailed => "native unmap completed"@,
            Violation::Injection => "injection reached"@,
            Violation::MapCount => "mapping count"@,
            Violation::UnmapCount => "successful cleanup count"@,
            Violation::ClearedCount => "zero-before-unmap observations"@,
            Violation::LiveMapping => "no live allocation remains"@,
        }
    }

    /// The expectation in words, for a message.
    pub fn message(&self) -> (r: &'static str)
        ensures
            r@ == self.text(),
    {
        match self {
            Violation::AlreadyActive => "no other probe is active",
            Violation::SecondMapping => "no other mapping is live",
            Violation::ForeignBase => "base of the live mapping",
            Violation::NotCleared => "complete writable region cleared",
            Violation::UnmapFailed => "native unmap completed",
            Violation::Injection => "injection reached",
            Violation::MapCount => "mapping count",
            Violation::UnmapCount => "successful cleanup count",
            Violation::ClearedCount => "zero-before-unmap observations",
            Violation::LiveMapping => "no live allocation remains",
        }
    }
}

/// Every byte is zero.
pub open spec fn all_zero(bytes: Seq<u8>) -> bool {
    forall|i: int| 0 <= i < bytes.len() ==> bytes[i] == 0
}

impl Observation {
    /// The observation that nothing has touched.
    pub open spec fn blank() -> Observation {
        Observation {
            active: false,
            failure: None,
            hit: false,
            mapping: None,
            writable: None,
            maps: 0,
            unmaps: 0,
            cleared: 0,
        }
    }

    /// A blank observation, armed to make `failure` fail.
    pub open spec fn armed(failure: Option<ProtectionControl>) -> Observation {
        Observation { active: true, failure, ..Observation::blank() }
    }

    /// `control` is the one that is made to fail.
    pub open spec fn injects(self, control: ProtectionControl) -> bool {
        self.active && self.failure == Some(control)
    }

    /// `base` is where the live mapping starts.
    pub open spec fn live_at(self, base: usize) -> bool {
        self.mapping matches Some((b, _)) && b == base
    }

    /// After the backend came to `control`.
    pub open spec fn after_fail(self, control: ProtectionControl) -> Observation {
        Observation { hit: self.hit || self.injects(control), ..self }
    }

    /// After `len` bytes were mapped at `base`.
    pub open spec fn after_mapped(self, base: usize, len: usize) -> Observation {
        if self.active {
            Observation { mapping: Some((base, len)), maps: (self.maps + 1) as usize, ..self }
        } else {
            self
        }
    }

    /// After `len` bytes at `data` became writable.
    pub open spec fn after_writable(self, data: usize, len: usize) -> Observation {
        if self.active {
            Observation { writable: Some((data, len)), ..self }
        } else {
            self
        }
    }

    /// After the writable region, if there is one, was found zeroed.
    pub open spec fn after_cleared(self) -> Observation {
        if self.active && self.writable is Some {
            Observation { cleared: (self.cleared + 1) as usize, ..self }
        } else {
            self
        }
    }

    /// After the live mapping was given back.
    pub open spec fn after_unmapped(self) -> Observation {
        if self.active {
            Observation {
                mapping: None,
                writable: None,
                unmaps: (self.unmaps + 1) as usize,
                ..self
            }
        } else {
            self
        }
    }

    /// The first expectation that does not hold at the end of an observation:
    /// the injected failure was reached, `maps` mappings were made and as many
    /// given back, `cleared` regions were found zeroed, and nothing is live.
    pub open spec fn verdict(self, maps: usize, cleared: usize) -> Option<Violation> {
        if self.hit != (self.failure is Some) {
            Some(Violation::Injection)
        } else if self.maps != maps {
            Some(Violation::MapCount)
        } else if self.unmaps != maps {
            Some(Violation::UnmapCount)
        } else if self.cleared != cleared {
            Some(Violation::ClearedCount)
        } else if self.mapping is Some {
            Some(Violation::LiveMapping)
        } else {
            None
        }
    }

    /// Every mapping made was given back, save the live one.
    pub open spec fn balanced(self) -> bool {
        self.maps == self.unmaps + (if self.mapping is Some {
            1int
        } else {
            0int
        })
    }

    /// Only a live mapping has a writable region.
    pub open spec fn nested(self) -> bool {
        self.writable is Some ==> self.mapping is Some
    }

    /// Nothing is seen unless a probe is watching, and nothing is hit unless a
    /// failure is armed.
    pub open spec fn tidy(self) -> bool {
        &&& !self.active ==> self == Observation::blank()
        &&& self.hit ==> self.active && self.failure is Some
    }

    /// The answer to starting a probe.
    pub open spec fn start_reply(self) -> Result<(), Violation> {
        if self.active {
            Err(Violation::AlreadyActive)
        } else {
            Ok(())
        }
    }

    /// The answer to a mapping: there is to be no other.
    pub open spec fn mapped_reply(self) -> Result<(), Violation> {
        if self.active && self.mapping is Some {
            Err(Violation::SecondMapping)
        } else {
            Ok(())
        }
    }

    /// The answer to an unmap that is about to happen at `base`: it is where the
    /// live mapping starts, and the writable region, if there is one, holds
    /// nothing but zeros.
    pub open spec fn before_unmap_reply(self, base: usize, bytes: Seq<u8>) -> Result<
        (),
        Violation,
    > {
        if self.active && !self.live_at(base) {
            Err(Violation::ForeignBase)
        } else if self.active && self.writable is Some && !all_zero(bytes) {
            Err(Violation::NotCleared)
        } else {
            Ok(())
        }
    }

    /// The answer to an unmap at `base`: it is where the live mapping starts,
    /// and the system has done it.
    pub open spec fn unmapped_reply(self, base: usize, success: bool) -> Result<(), Violation> {
        if self.active && !self.live_at(base) {
            Err(Violation::ForeignBase)
        } else if self.active && !success {
            Err(Violation::UnmapFailed)
        } else {
            Ok(())
        }
    }
}

impl Default for Observation {
    fn default() -> (r: Observation)
        ensures
            r == Observation::blank(),
    {
        Observation {
            active: false,
            failure: None,
            hit: false,
            mapping: None,
            writable: None,
            maps: 0,
            unmaps: 0,
            cleared: 0,
        }
    }
}

/// The right to judge an armed observation.
#[derive(Debug, PartialEq, Eq, Structural)]
pub struct Probe;

impl Probe {
    /// Arms the observation, with a control to make fail or with none. A
    /// probe must not be started while another is watching.
    pub fn start(state: &mut Observation, failure: Option<ProtectionControl>) -> (r: Result<
        Probe,
        Violation,
    >)
        ensures
            match old(state).start_reply() {
                Ok(_) => r == Ok::<_, Violation>(Probe) && *final(state) == Observation::armed(
                    failure,
                ),
                Err(violation) => r == Err::<Probe, _>(violation) && *final(state) == *old(state),
            },
    {
        if state.active {
            return Err(Violation::AlreadyActive);
        }
        *state = Observation { active: true, failure, ..Observation::default() };
        Ok(Probe)
    }

    /// Judges the observation: the injected failure was reached if there is
    /// one, `expected_maps` mappings were made and given back,
    /// `expected_cleared` of their writable regions were zeroed first, and none
    /// is live. The first of these that does not hold is the answer.
    pub fn check(&self, state: &Observation, expected_maps: usize, expected_cleared: usize) -> (r:
        Result<(), Violation>)
        ensures
            match state.verdict(expected_maps, expected_cleared) {
                None => r == Ok::<_, Violation>(()),
                Some(violation) => r == Err::<(), _>(violation),
            },
    {
        if state.hit != state.failure.is_some() {
            Err(Violation::Injection)
        } else if state.maps != expected_maps {
            Err(Violation::MapCount)
        } else if state.unmaps != expected_maps {
            Err(Violation::UnmapCount)
        } else if state.cleared != expected_cleared {
            Err(Violation::ClearedCount)
        } else if state.mapping.is_some() {
            Err(Violation::LiveMapping)
        } else {
            Ok(())
        }
    }

    /// Ends the observation: it is blank again, and another probe may start.
    pub fn drop(self, state: &mut Observation)
        ensures
            *final(state) == Observation::blank(),
    {
        *state = Observation::default();
    }
}

/// The backend has come to `control`: must it fail on purpose?
pub fn fail(state: &mut Observation, control: ProtectionControl) -> (r: bool)
    ensures
        r == old(state).injects(control),
        *final(state) == old(state).after_fail(control),
{
    let fail = state.active && match state.failure {
        Some(failure) => failure == control,
        None => false,
    };
    state.hit = state.hit || fail;
    fail
}

/// The backend has mapped `len` bytes at `base`.
pub fn mapped(state: &mut Observation, base: usize, len: usize) -> (r: Result<(), Violation>)
    requires
        old(state).active && old(state).mapping is None ==> old(state).maps < usize::MAX,
    ensures
        r == old(state).mapped_reply(),
        *final(state) == if r is Ok {
            old(state).after_mapped(base, len)
        } else {
            *old(state)
        },
{
    if state.active {
        if state.mapping.is_some() {
            return Err(Violation::SecondMapping);
        }
        state.mapping = Some((base, len));
        state.maps = state.maps + 1;
    }
    Ok(())
}

/// The backend has made `len` bytes at `data` writable.
pub fn writable(state: &mut Observation, data: usize, len: usize)
    ensures
        *final(state) == old(state).after_writable(data, len),
{
    if state.active {
        state.writable = Some((data, len));
    }
}

/// Whether `base` is where the live mapping starts.
fn is_live_at(state: &Observation, base: usize) -> (r: bool)
    ensures
        r == state.live_at(base),
{
    match state.mapping {
        Some((live, _)) => live == base,
        None => false,
    }
}

/// Whether every byte is zero.
fn is_all_zero(bytes: &[u8]) -> (r: bool)
    ensures
        r == all_zero(bytes@),
{
    let mut i: usize = 0;
    while i < bytes.len()
        invariant
            i <= bytes@.len(),
            forall|j: int| 0 <= j < i ==> bytes@[j] == 0,
        decreases bytes@.len() - i,
    {
        if bytes[i] != 0 {
            return false;
        }
        i = i + 1;
    }
    true
}

/// The backend is about to give back the mapping at `base`, and `bytes` is what
/// its writable region holds at this moment. All of it must be zero. The bytes
/// are looked at only if a probe watches, `base` is where the live mapping
/// starts, and a region of it was made writable: else any slice will do.
pub fn before_unmap(state: &mut Observation, base: usize, bytes: &[u8]) -> (r: Result<
    (),
    Violation,
>)
    requires
        old(state).active && old(state).live_at(base) ==> (old(state).writable matches Some(
            (_, len),
        ) ==> bytes@.len() == len && (all_zero(bytes@) ==> old(state).cleared < usize::MAX)),
    ensures
        r == old(state).before_unmap_reply(base, bytes@),
        *final(state) == if r is Ok {
            old(state).after_cleared()
        } else {
            *old(state)
        },
{
    if !state.active {
        return Ok(());
    }
    if !is_live_at(state, base) {
        return Err(Violation::ForeignBase);
    }
    if state.writable.is_some() {
        if !is_all_zero(bytes) {
            return Err(Violation::NotCleared);
        }
        state.cleared = state.cleared + 1;
    }
    Ok(())
}

/// The backend has asked the system to give back the mapping at `base`;
/// `success` is the system's answer.
pub fn unmapped(state: &mut Observation, base: usize, success: bool) -> (r: Result<(), Violation>)
    requires
        old(state).active && old(state).live_at(base) && success ==> old(state).unmaps
            < usize::MAX,
    ensures
        r == old(state).unmapped_reply(base, success),
        *final(state) == if r is Ok {
            old(state).after_unmapped()
        } else {
            *old(state)
        },
{
    if state.active {
        if !is_live_at(state, base) {
            return Err(Violation::ForeignBase);
        }
        if !success {
            return Err(Violation::UnmapFailed);
        }
        state.mapping = None;
        state.writable = None;
        state.unmaps = state.unmaps + 1;
    }
    Ok(())
}

} // verus!
