//! The owners under observation, from setup to cleanup.
use sanitization::mapped::{GuardedSecretVec, LockedSecretVec, ProtectedSecretFillError};
use sanitization::oracle::{PageAnswer, PageScan};
use sanitization::pages::page_start;
use sanitization::policy::{
    request, ForkPolicy, ForkProtectionRequest, ProtectionControl, ProtectionState, Requirement,
    TargetOs,
};
use sanitization::probe::{Observation, Probe};
use sanitization::setup::{layout, NativeOutcomes, Outcome, OwnerKind, RollbackState};

const PAGE: usize = 4096;
const BASE: usize = 0x7f00_0000_0000;
const SYSTEMS: [TargetOs; 2] = [TargetOs::Linux, TargetOs::MacOs];

fn native(os: TargetOs) -> NativeOutcomes {
    NativeOutcomes::granted(os, PAGE, BASE)
}

/// The data pages that the system supplies for `capacity` bytes.
fn data_pages(capacity: usize) -> Vec<u8> {
    let sizes = layout(OwnerKind::Locked, capacity, PAGE).expect("layout");
    vec![0; sizes.data_bytes]
}

fn is_zero(pages: &[u8]) -> bool {
    pages.iter().all(|byte| *byte == 0)
}

#[test]
fn native_guarded_required_failures_precede_fill_and_cleanup() {
    for os in SYSTEMS {
        for control in [
            ProtectionControl::Canary,
            ProtectionControl::Mapping,
            ProtectionControl::GuardPages,
            ProtectionControl::ForkPolicy,
            ProtectionControl::MemoryLock,
        ] {
            let mut state = Observation::default();
            let mut pages = data_pages(31);
            let probe = Probe::start(&mut state, Some(control)).expect("first probe");
            let mut filled = false;
            let result = GuardedSecretVec::try_from_capacity_with_protection(
                &mut state,
                &native(os),
                &mut pages,
                31,
                request(true, os),
                |_| {
                    filled = true;
                    Ok::<usize, ()>(31)
                },
            );
            let Err(ProtectedSecretFillError::Protection(error)) = result else {
                panic!("expected owning-layer failure");
            };
            assert_eq!(error.failure.control, control, "actual failure stage");
            assert!(!filled);
            let has_map = !matches!(
                control,
                ProtectionControl::Canary | ProtectionControl::Mapping
            );
            assert_eq!(
                error.rollback.unmap,
                if has_map {
                    RollbackState::Completed
                } else {
                    RollbackState::NotNeeded
                }
            );
            assert_eq!(error.rollback.unlock, RollbackState::NotNeeded);
            assert!(is_zero(&pages));
            assert_eq!(
                probe.check(
                    &state,
                    usize::from(has_map),
                    usize::from(has_map && control != ProtectionControl::GuardPages),
                ),
                Ok(())
            );
            probe.drop(&mut state);
            assert_eq!(state, Observation::default());
        }
    }
}

#[test]
fn native_locked_required_failures_precede_fill_and_cleanup() {
    for os in SYSTEMS {
        for control in [
            ProtectionControl::Canary,
            ProtectionControl::Mapping,
            ProtectionControl::ForkPolicy,
            ProtectionControl::MemoryLock,
        ] {
            let mut state = Observation::default();
            let mut pages = data_pages(31);
            let probe = Probe::start(&mut state, Some(control)).expect("first probe");
            let mut filled = false;
            let result = LockedSecretVec::try_from_capacity_with_protection(
                &mut state,
                &native(os),
                &mut pages,
                31,
                request(false, os),
                |_| {
                    filled = true;
                    Ok::<usize, ()>(31)
                },
            );
            let Err(ProtectedSecretFillError::Protection(error)) = result else {
                panic!("expected owning-layer failure");
            };
            assert_eq!(error.failure.control, control);
            assert!(!filled);
            let has_map = !matches!(
                control,
                ProtectionControl::Canary | ProtectionControl::Mapping
            );
            assert_eq!(
                error.rollback.unmap,
                if has_map {
                    RollbackState::Completed
                } else {
                    RollbackState::NotNeeded
                }
            );
            assert!(is_zero(&pages));
            assert_eq!(
                probe.check(&state, usize::from(has_map), usize::from(has_map)),
                Ok(())
            );
            probe.drop(&mut state);
        }
    }
}

#[test]
fn native_partial_fill_and_invalid_length_clear_before_unmap() {
    let os = TargetOs::Linux;
    for guarded in [true, false] {
        for invalid_length in [false, true] {
            let mut state = Observation::default();
            let mut pages = data_pages(31);
            let probe = Probe::start(&mut state, None).expect("first probe");
            let mut filled = false;
            let fill = |bytes: &mut [u8]| {
                filled = true;
                bytes[..3].fill(0xa5);
                if invalid_length {
                    Ok(bytes.len() + 1)
                } else {
                    Err(())
                }
            };
            let result = if guarded {
                GuardedSecretVec::try_from_capacity_with_protection(
                    &mut state,
                    &native(os),
                    &mut pages,
                    31,
                    request(true, os),
                    fill,
                )
                .map(|_| ())
            } else {
                LockedSecretVec::try_from_capacity_with_protection(
                    &mut state,
                    &native(os),
                    &mut pages,
                    31,
                    request(false, os),
                    fill,
                )
                .map(|_| ())
            };
            assert!(filled);
            if invalid_length {
                assert!(matches!(result, Err(ProtectedSecretFillError::Length(_))));
            } else {
                assert!(matches!(result, Err(ProtectedSecretFillError::Fill(()))));
            }
            assert!(is_zero(&pages));
            assert_eq!(probe.check(&state, 1, 1), Ok(()));
            probe.drop(&mut state);
        }
    }
}

#[test]
fn native_success_status_and_drop_clear_complete_mapping() {
    for os in SYSTEMS {
        for guarded in [true, false] {
            let mut state = Observation::default();
            let mut pages = data_pages(31);
            let probe = Probe::start(&mut state, None).expect("first probe");
            let fill = |bytes: &mut [u8]| {
                bytes.fill(0xa5);
                Ok::<usize, ()>(bytes.len())
            };
            let report = if guarded {
                let owner = GuardedSecretVec::try_from_capacity_with_protection(
                    &mut state,
                    &native(os),
                    &mut pages,
                    31,
                    request(true, os),
                    fill,
                )
                .expect("guarded owner");
                assert_eq!(owner.secret(), &[0xa5u8; 31][..]);
                let report = *owner.protection_report();
                let released = owner.release(&mut state, true, true);
                assert_eq!(released.unlock, RollbackState::Completed);
                assert_eq!(released.unmap, RollbackState::Completed);
                report
            } else {
                let owner = LockedSecretVec::try_from_capacity_with_protection(
                    &mut state,
                    &native(os),
                    &mut pages,
                    31,
                    request(false, os),
                    fill,
                )
                .expect("locked owner");
                assert_eq!(owner.secret(), &[0xa5u8; 31][..]);
                let report = *owner.protection_report();
                let released = owner.release(&mut state, true, true);
                assert_eq!(released.unlock, RollbackState::Completed);
                report
            };
            // A preferred control counts, so a degraded mapping layer shows.
            assert_eq!(
                report.satisfies(request(guarded, os)),
                os != TargetOs::MacOs
            );
            assert_eq!(report.mapping, ProtectionState::Established);
            assert_eq!(report.memory_lock, ProtectionState::Established);
            assert_eq!(report.canary, ProtectionState::Established);
            if guarded {
                assert_eq!(report.guard_pages, ProtectionState::Established);
            }
            assert_eq!(report.fork.policy, ForkPolicy::Exclude);
            assert_eq!(report.fork.state, ProtectionState::Established);
            // There is no dump exclusion on "macos" at the mapping layer.
            assert_eq!(
                report.dump_exclusion,
                if os == TargetOs::MacOs {
                    ProtectionState::Unsupported
                } else {
                    ProtectionState::Established
                }
            );
            assert!(report.locked_bytes >= 31);
            assert_eq!(report.locked_bytes % report.page_granule, 0);
            assert!(is_zero(&pages));
            assert_eq!(probe.check(&state, 1, 1), Ok(()));
            probe.drop(&mut state);
        }
    }
}

#[test]
fn native_fork_oracle_rejects_a_present_zero_mapping() {
    let os = TargetOs::Linux;
    let mut inherited = request(true, os);
    inherited.fork = ForkProtectionRequest {
        policy: ForkPolicy::Inherit,
        requirement: Requirement::Required,
    };
    let mut state = Observation::default();
    let mut pages = data_pages(31);
    let owner = GuardedSecretVec::try_from_capacity_with_protection(
        &mut state,
        &native(os),
        &mut pages,
        31,
        inherited,
        |bytes| {
            bytes.fill(0);
            Ok::<usize, ()>(bytes.len())
        },
    )
    .expect("inherited owner");
    assert_eq!(owner.secret(), &[0u8; 31][..], "integrity");
    let start = page_start(owner.data_address(), PAGE);
    // The pages are inherited, so a query in the child finds each one present.
    let mut scan = PageScan::new(start, PAGE, PAGE);
    while scan.next_page().is_some() {
        scan.record(PageAnswer { result: 0, errno: 0 });
    }
    assert!(!scan.range_absent());
    owner.release(&mut state, true, true);
}

#[test]
fn native_preferred_control_failures_remain_visible_after_fill() {
    let os = TargetOs::Linux;
    for control in [ProtectionControl::MemoryLock, ProtectionControl::ForkPolicy] {
        let mut observation = Observation::default();
        let mut pages = data_pages(31);
        let probe = Probe::start(&mut observation, Some(control)).expect("first probe");
        let mut policy = request(true, os);
        policy.memory_lock = Requirement::Preferred;
        policy.fork.requirement = Requirement::Preferred;
        let mut calls = 0;
        let owner = GuardedSecretVec::try_from_capacity_with_protection(
            &mut observation,
            &native(os),
            &mut pages,
            31,
            policy,
            |bytes| {
                calls += 1;
                bytes.fill(0xa5);
                Ok::<usize, ()>(bytes.len())
            },
        )
        .expect("explicit preferred failure returns guarded owner");
        let report = owner.protection_report();
        let state = if control == ProtectionControl::MemoryLock {
            report.memory_lock
        } else {
            report.fork.state
        };
        assert!(matches!(state, ProtectionState::Failed { .. }));
        assert_eq!(report.guard_pages, ProtectionState::Established);
        assert_eq!(report.canary, ProtectionState::Established);
        assert!(!report.satisfies(policy));
        assert_eq!(calls, 1);
        owner.release(&mut observation, true, true);
        assert!(is_zero(&pages));
        assert_eq!(probe.check(&observation, 1, 1), Ok(()));
        probe.drop(&mut observation);
    }
}

#[test]
fn native_compact_and_large_boundary_accounting() {
    let os = TargetOs::Linux;
    // Four sizes around the compact and the large boundary, each with the lock
    // budget granted and refused.
    for requested in [
        1024 * 1024,
        1024 * 1024 + 1,
        16 * 1024 * 1024,
        16 * 1024 * 1024 + 1,
    ] {
        for granted in [true, false] {
            let mut outcomes = native(os);
            if !granted {
                outcomes.memory_lock = Outcome::Refused(12);
            }
            let mut state = Observation::default();
            let mut pages = data_pages(requested);
            let probe = Probe::start(&mut state, None).expect("first probe");
            let mut called = false;
            let result = GuardedSecretVec::try_from_capacity_with_protection(
                &mut state,
                &outcomes,
                &mut pages,
                requested,
                request(true, os),
                |bytes| {
                    called = true;
                    bytes.fill(0xa5);
                    Ok::<usize, ()>(bytes.len())
                },
            );
            let (outcome, report) = match result {
                Ok(owner) => {
                    assert!(called);
                    let report = *owner.protection_report();
                    assert_eq!(
                        report.locked_bytes,
                        report.mapped_bytes - 2 * report.page_granule
                    );
                    assert!(report.locked_bytes >= requested);
                    owner.release(&mut state, true, true);
                    ("accepted", report)
                }
                Err(ProtectedSecretFillError::Protection(error)) => {
                    assert!(!called);
                    assert_eq!(
                        error.failure.control,
                        ProtectionControl::MemoryLock,
                        "only native lock budget may refuse this case"
                    );
                    assert_eq!(error.rollback.unmap, RollbackState::Completed);
                    ("refused", error.partial_report)
                }
                Err(_) => panic!("unexpected boundary construction failure"),
            };
            assert_eq!(outcome, if granted { "accepted" } else { "refused" });
            assert!(is_zero(&pages));
            assert_eq!(probe.check(&state, 1, 1), Ok(()));
            println!(
                "requested={} mapped={} locked={} page_granule={} outcome={} cleanup=completed",
                requested, report.mapped_bytes, report.locked_bytes, report.page_granule, outcome
            );
            probe.drop(&mut state);
        }
    }
}

#[test]
fn native_zero_lock_budget_refuses_before_fill() {
    let os = TargetOs::Linux;
    let mut outcomes = native(os);
    outcomes.memory_lock = Outcome::Refused(12);
    for guarded in [true, false] {
        let mut state = Observation::default();
        let mut pages = data_pages(31);
        let probe = Probe::start(&mut state, None).expect("first probe");
        let mut called = false;
        let fill = |_: &mut [u8]| {
            called = true;
            Ok::<usize, ()>(1)
        };
        let result = if guarded {
            GuardedSecretVec::try_from_capacity_with_protection(
                &mut state,
                &outcomes,
                &mut pages,
                31,
                request(true, os),
                fill,
            )
            .map(|_| ())
        } else {
            LockedSecretVec::try_from_capacity_with_protection(
                &mut state,
                &outcomes,
                &mut pages,
                31,
                request(false, os),
                fill,
            )
            .map(|_| ())
        };
        let Err(ProtectedSecretFillError::Protection(error)) = result else {
            panic!("expected native lock refusal");
        };
        assert_eq!(error.failure.control, ProtectionControl::MemoryLock);
        assert_eq!(
            error.failure.state,
            ProtectionState::Failed { errno: Some(12) }
        );
        assert_eq!(error.rollback.unmap, RollbackState::Completed);
        assert!(!called);
        assert!(is_zero(&pages));
        assert_eq!(probe.check(&state, 1, 1), Ok(()));
        probe.drop(&mut state);
    }
}
