//! Requests, layouts and the corner cases of setting an owner up.
use sanitization::mapped::{
    wipe, GuardedSecretVec, LockedSecretVec, ProtectedSecretFillError, SecretLengthError,
};
use sanitization::policy::{
    request, ForkPolicy, ForkProtectionRequest, ProtectionControl, ProtectionRequest,
    ProtectionState, Requirement, TargetOs,
};
use sanitization::probe::{Observation, Probe};
use sanitization::setup::{layout, Layout, NativeOutcomes, Outcome, OwnerKind, RollbackState};

const PAGE: usize = 4096;
const BASE: usize = 65536;

fn native() -> NativeOutcomes {
    NativeOutcomes::granted(TargetOs::Linux, PAGE, BASE)
}

#[test]
fn strict_request_depends_on_owner_and_system() {
    let linux = request(true, TargetOs::Linux);
    assert_eq!(
        linux,
        ProtectionRequest {
            memory_lock: Requirement::Required,
            dump_exclusion: Requirement::Required,
            fork: ForkProtectionRequest {
                policy: ForkPolicy::Exclude,
                requirement: Requirement::Required,
            },
            guard_pages: Requirement::Required,
            canary: Requirement::Required,
            cache_policy: Requirement::NotRequested,
        }
    );
    let mac = request(false, TargetOs::MacOs);
    assert_eq!(mac.dump_exclusion, Requirement::Preferred);
    assert_eq!(mac.guard_pages, Requirement::NotRequested);
    assert_eq!(mac.fork, ForkProtectionRequest::exclude(Requirement::Required));
}

#[test]
fn layout_counts_whole_pages() {
    let guarded = layout(OwnerKind::Guarded, 31, PAGE);
    assert_eq!(
        guarded,
        Some(Layout {
            data_bytes: 4096,
            mapped_bytes: 12288,
        })
    );
    let locked = layout(OwnerKind::Locked, 4097, PAGE);
    assert_eq!(
        locked,
        Some(Layout {
            data_bytes: 8192,
            mapped_bytes: 8192,
        })
    );
    assert_eq!(layout(OwnerKind::Locked, usize::MAX, PAGE), None);
    assert_eq!(layout(OwnerKind::Guarded, 1, usize::MAX), None);
}

#[test]
fn oversized_mapping_is_refused() {
    let mut state = Observation::default();
    // Nothing is mapped, so what stands here is not looked at.
    let mut pages = vec![5u8, 6];
    let result = LockedSecretVec::try_from_capacity_with_protection(
        &mut state,
        &native(),
        &mut pages,
        usize::MAX,
        request(false, TargetOs::Linux),
        |_| Ok::<usize, ()>(0),
    );
    let Err(ProtectedSecretFillError::Protection(error)) = result else {
        panic!("expected a refusal");
    };
    assert_eq!(error.failure.control, ProtectionControl::Mapping);
    assert_eq!(error.failure.state, ProtectionState::Unsupported);
    assert_eq!(error.rollback.unmap, RollbackState::NotNeeded);
    assert_eq!(error.partial_report.mapped_bytes, 0);
    assert_eq!(
        error.partial_report.memory_lock,
        ProtectionState::NotAttempted
    );
    assert_eq!(error.partial_report.canary, ProtectionState::Established);
    assert_eq!(pages, vec![5u8, 6]);
}

#[test]
fn locked_owner_has_no_guard_pages() {
    let mut state = Observation::default();
    let mut pages = vec![0u8; PAGE];
    let result = LockedSecretVec::try_from_capacity_with_protection(
        &mut state,
        &native(),
        &mut pages,
        31,
        request(true, TargetOs::Linux),
        |_| Ok::<usize, ()>(0),
    );
    let Err(ProtectedSecretFillError::Protection(error)) = result else {
        panic!("expected a refusal");
    };
    assert_eq!(error.failure.control, ProtectionControl::GuardPages);
    assert_eq!(error.failure.state, ProtectionState::Unsupported);
    assert_eq!(error.rollback.unmap, RollbackState::Completed);
}

#[test]
fn required_dump_exclusion_and_cache_policy_refuse() {
    let mut asked = request(false, TargetOs::MacOs);
    asked.dump_exclusion = Requirement::Required;
    let outcomes = NativeOutcomes::granted(TargetOs::MacOs, PAGE, BASE);
    let mut state = Observation::default();
    let mut pages = vec![0u8; PAGE];
    let probe = Probe::start(&mut state, None).expect("probe");
    let result = LockedSecretVec::try_from_capacity_with_protection(
        &mut state,
        &outcomes,
        &mut pages,
        31,
        asked,
        |_| Ok::<usize, ()>(0),
    );
    let Err(ProtectedSecretFillError::Protection(error)) = result else {
        panic!("expected a refusal");
    };
    assert_eq!(error.failure.control, ProtectionControl::DumpExclusion);
    assert_eq!(probe.check(&state, 1, 1), Ok(()));

    let mut asked = request(true, TargetOs::Linux);
    asked.cache_policy = Requirement::Required;
    let result = GuardedSecretVec::try_from_capacity_with_protection(
        &mut state,
        &native(),
        &mut pages,
        31,
        asked,
        |_| Ok::<usize, ()>(0),
    );
    let Err(ProtectedSecretFillError::Protection(error)) = result else {
        panic!("expected a refusal");
    };
    assert_eq!(error.failure.control, ProtectionControl::CachePolicy);
    assert_eq!(
        error.partial_report.fork.state,
        ProtectionState::Established
    );
    assert_eq!(
        error.partial_report.memory_lock,
        ProtectionState::NotAttempted
    );
    assert_eq!(error.partial_report.locked_bytes, 0);
    assert_eq!(error.partial_report.mapped_bytes, 12288);
    assert_eq!(probe.check(&state, 2, 2), Ok(()));
}

#[test]
fn failed_cleanup_is_reported() {
    let mut outcomes = native();
    outcomes.memory_lock = Outcome::Refused(1);
    outcomes.unmap = false;
    let mut state = Observation::default();
    let mut pages = vec![0u8; PAGE];
    let result = GuardedSecretVec::try_from_capacity_with_protection(
        &mut state,
        &outcomes,
        &mut pages,
        31,
        request(true, TargetOs::Linux),
        |_| Ok::<usize, ()>(0),
    );
    let Err(ProtectedSecretFillError::Protection(error)) = result else {
        panic!("expected a refusal");
    };
    assert_eq!(error.rollback.unmap, RollbackState::Failed);
    assert_eq!(error.rollback.unlock, RollbackState::NotNeeded);
}

#[test]
fn release_reports_each_step() {
    let mut asked = request(false, TargetOs::Linux);
    asked.memory_lock = Requirement::NotRequested;
    let mut state = Observation::default();
    let mut pages = vec![0u8; PAGE];
    let owner = LockedSecretVec::try_from_capacity_with_protection(
        &mut state,
        &native(),
        &mut pages,
        31,
        asked,
        |_| Ok::<usize, ()>(0),
    )
    .expect("locked owner");
    assert_eq!(owner.protection_report().locked_bytes, 0);
    assert_eq!(
        owner.protection_report().memory_lock,
        ProtectionState::NotRequested
    );
    assert!(owner.protection_report().satisfies(asked));
    assert_eq!(owner.data_address(), BASE);
    let released = owner.release(&mut state, false, false);
    assert_eq!(released.unlock, RollbackState::NotNeeded);
    assert_eq!(released.unmap, RollbackState::Failed);
}

#[test]
fn secret_is_what_the_fill_wrote() {
    let mut state = Observation::default();
    let mut pages = vec![0u8; PAGE];
    let owner = GuardedSecretVec::try_from_capacity_with_protection(
        &mut state,
        &native(),
        &mut pages,
        31,
        request(true, TargetOs::Linux),
        |bytes| {
            assert_eq!(bytes, &[0u8; 31][..]);
            bytes[..3].copy_from_slice(&[7, 8, 9]);
            Ok::<usize, ()>(3)
        },
    )
    .expect("guarded owner");
    assert_eq!(owner.secret(), &[7u8, 8, 9][..]);
    assert_eq!(owner.data_address(), BASE + PAGE);
    let released = owner.release(&mut state, false, true);
    assert_eq!(released.unlock, RollbackState::Failed);
    assert_eq!(released.unmap, RollbackState::Completed);
    // Nobody watched, and the pages are zero all the same.
    assert_eq!(pages, vec![0u8; PAGE]);
}

#[test]
fn fill_errors_carry_their_cause() {
    let mut state = Observation::default();
    let mut pages = vec![0u8; PAGE];
    let result = GuardedSecretVec::try_from_capacity_with_protection(
        &mut state,
        &native(),
        &mut pages,
        31,
        request(true, TargetOs::Linux),
        |bytes| {
            bytes[30] = 1;
            Ok::<usize, u8>(bytes.len() + 1)
        },
    );
    let Err(error) = result else {
        panic!("expected a length error");
    };
    assert_eq!(
        error,
        ProtectedSecretFillError::Length(SecretLengthError {
            length: 32,
            capacity: 31,
        })
    );
    assert_eq!(pages, vec![0u8; PAGE]);
    let result = LockedSecretVec::try_from_capacity_with_protection(
        &mut state,
        &native(),
        &mut pages,
        31,
        request(false, TargetOs::Linux),
        |bytes| {
            bytes.fill(0xa5);
            Err::<usize, u8>(9)
        },
    );
    let Err(error) = result else {
        panic!("expected the fill's error");
    };
    assert_eq!(error, ProtectedSecretFillError::Fill(9));
    assert_eq!(pages, vec![0u8; PAGE]);
}

#[test]
fn wiping_leaves_zeros() {
    let mut region = vec![1u8, 2, 3];
    wipe(&mut region[..2]);
    assert_eq!(region, vec![0u8, 0, 3]);
    wipe(&mut region);
    assert_eq!(region, vec![0u8, 0, 0]);
}

#[test]
fn secret_lives_in_the_supplied_pages() {
    let mut state = Observation::default();
    let mut pages = vec![0u8; 2 * PAGE];
    let owner = LockedSecretVec::try_from_capacity_with_protection(
        &mut state,
        &native(),
        &mut pages,
        4097,
        request(false, TargetOs::Linux),
        |bytes| {
            bytes.fill(7);
            Ok::<usize, ()>(2)
        },
    )
    .expect("locked owner");
    assert_eq!(owner.secret(), &[7u8, 7][..]);
    assert_eq!(owner.inner.pages[4096], 7);
    assert_eq!(owner.inner.pages[4097], 0);
    let released = owner.release(&mut state, true, true);
    assert_eq!(released.unlock, RollbackState::Completed);
    assert_eq!(pages, vec![0u8; 2 * PAGE]);
}

#[test]
fn full_counters_bar_no_path_that_leaves_them_alone() {
    // The canary and the mapping are refused before anything is mapped, so a
    // watched refusal needs no unmap that works and no room in the counters.
    let mut outcomes = native();
    outcomes.unmap = false;
    for control in [ProtectionControl::Canary, ProtectionControl::Mapping] {
        let mut state = Observation {
            active: true,
            failure: Some(control),
            maps: usize::MAX,
            unmaps: usize::MAX,
            cleared: usize::MAX,
            ..Observation::default()
        };
        let before = state;
        let mut pages = vec![5u8];
        let result = GuardedSecretVec::try_from_capacity_with_protection(
            &mut state,
            &outcomes,
            &mut pages,
            31,
            request(true, TargetOs::Linux),
            |_| Ok::<usize, ()>(0),
        );
        let Err(ProtectedSecretFillError::Protection(error)) = result else {
            panic!("expected a refusal");
        };
        assert_eq!(error.failure.control, control);
        assert_eq!(error.failure.state, ProtectionState::Failed { errno: None });
        assert_eq!(error.rollback.unmap, RollbackState::NotNeeded);
        assert_eq!(state, Observation { hit: true, ..before });
        assert_eq!(pages, vec![5u8]);
    }
}

#[test]
fn pages_need_not_come_clean() {
    // Refused with the data pages open: they are zeroed, watched or not.
    let mut refusing = native();
    refusing.memory_lock = Outcome::Refused(12);
    for watched in [true, false] {
        let mut state = Observation::default();
        if watched {
            Probe::start(&mut state, None).expect("probe");
        }
        let mut pages = vec![0xeeu8; PAGE];
        let result = LockedSecretVec::try_from_capacity_with_protection(
            &mut state,
            &refusing,
            &mut pages,
            31,
            request(false, TargetOs::Linux),
            |_| Ok::<usize, ()>(0),
        );
        assert!(matches!(
            result,
            Err(ProtectedSecretFillError::Protection(_))
        ));
        assert_eq!(pages, vec![0u8; PAGE]);
    }
    // Refused before they are open: they stay as they are.
    let mut closed = native();
    closed.guard_pages = Outcome::Refused(12);
    let mut state = Observation::default();
    let mut pages = vec![0xeeu8; PAGE];
    let result = GuardedSecretVec::try_from_capacity_with_protection(
        &mut state,
        &closed,
        &mut pages,
        31,
        request(true, TargetOs::Linux),
        |_| Ok::<usize, ()>(0),
    );
    assert!(matches!(
        result,
        Err(ProtectedSecretFillError::Protection(_))
    ));
    assert_eq!(pages, vec![0xeeu8; PAGE]);
    // Granted: the fill starts from zeros.
    let owner = GuardedSecretVec::try_from_capacity_with_protection(
        &mut state,
        &native(),
        &mut pages,
        31,
        request(true, TargetOs::Linux),
        |bytes| {
            assert_eq!(bytes, &[0u8; 31][..]);
            Ok::<usize, ()>(31)
        },
    )
    .expect("guarded owner");
    assert_eq!(owner.secret(), &[0u8; 31][..]);
    owner.release(&mut state, true, true);
    assert_eq!(pages, vec![0u8; PAGE]);
}
