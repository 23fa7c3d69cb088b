//! The probe and the backend's reports to it.
use sanitization::policy::ProtectionControl;
use sanitization::probe::{
    before_unmap, fail, mapped, unmapped, writable, Observation, Probe, Violation,
};

#[test]
fn second_probe_is_refused_until_the_first_is_gone() {
    let mut state = Observation::default();
    let probe = Probe::start(&mut state, Some(ProtectionControl::Canary)).expect("first probe");
    let armed = state;
    assert!(armed.active);
    assert_eq!(armed.failure, Some(ProtectionControl::Canary));
    assert_eq!(
        Probe::start(&mut state, None),
        Err(Violation::AlreadyActive)
    );
    assert_eq!(state, armed);
    probe.drop(&mut state);
    assert!(Probe::start(&mut state, None).is_ok());
}

#[test]
fn unarmed_observation_ignores_the_backend() {
    let mut state = Observation::default();
    assert!(!fail(&mut state, ProtectionControl::Mapping));
    assert_eq!(mapped(&mut state, 8192, 4096), Ok(()));
    assert_eq!(mapped(&mut state, 8192, 4096), Ok(()));
    writable(&mut state, 8192, 4096);
    assert_eq!(before_unmap(&mut state, 1, &[1, 2, 3]), Ok(()));
    assert_eq!(unmapped(&mut state, 1, false), Ok(()));
    assert_eq!(state, Observation::default());
}

#[test]
fn only_the_armed_control_fails() {
    let mut state = Observation::default();
    let probe = Probe::start(&mut state, Some(ProtectionControl::ForkPolicy)).expect("probe");
    assert!(!fail(&mut state, ProtectionControl::Canary));
    assert!(!state.hit);
    assert_eq!(probe.check(&state, 0, 0), Err(Violation::Injection));
    assert!(fail(&mut state, ProtectionControl::ForkPolicy));
    assert!(state.hit);
    assert!(!fail(&mut state, ProtectionControl::MemoryLock));
    assert!(state.hit);
    assert_eq!(probe.check(&state, 0, 0), Ok(()));
}

#[test]
fn full_cycle_is_counted() {
    let mut state = Observation::default();
    let probe = Probe::start(&mut state, None).expect("probe");
    assert_eq!(mapped(&mut state, 8192, 12288), Ok(()));
    assert_eq!(state.mapping, Some((8192, 12288)));
    assert_eq!(
        mapped(&mut state, 65536, 4096),
        Err(Violation::SecondMapping)
    );
    assert_eq!(state.maps, 1);
    writable(&mut state, 12288, 3);
    assert_eq!(state.writable, Some((12288, 3)));
    assert_eq!(
        before_unmap(&mut state, 12288, &[0, 0, 0]),
        Err(Violation::ForeignBase)
    );
    assert_eq!(
        before_unmap(&mut state, 8192, &[0, 0, 1]),
        Err(Violation::NotCleared)
    );
    assert_eq!(state.cleared, 0);
    assert_eq!(before_unmap(&mut state, 8192, &[0, 0, 0]), Ok(()));
    assert_eq!(state.cleared, 1);
    assert_eq!(
        unmapped(&mut state, 12288, true),
        Err(Violation::ForeignBase)
    );
    assert_eq!(
        unmapped(&mut state, 8192, false),
        Err(Violation::UnmapFailed)
    );
    assert_eq!(probe.check(&state, 1, 1), Err(Violation::UnmapCount));
    assert_eq!(unmapped(&mut state, 8192, true), Ok(()));
    assert_eq!(state.mapping, None);
    assert_eq!(state.writable, None);
    assert_eq!(probe.check(&state, 1, 1), Ok(()));
    assert_eq!(probe.check(&state, 2, 1), Err(Violation::MapCount));
    assert_eq!(probe.check(&state, 1, 0), Err(Violation::ClearedCount));
}

#[test]
fn mapping_without_writable_region_counts_no_clearing() {
    let mut state = Observation::default();
    let probe = Probe::start(&mut state, None).expect("probe");
    assert_eq!(mapped(&mut state, 8192, 4096), Ok(()));
    assert_eq!(before_unmap(&mut state, 8192, &[]), Ok(()));
    assert_eq!(unmapped(&mut state, 8192, true), Ok(()));
    assert_eq!(probe.check(&state, 1, 0), Ok(()));
}

#[test]
fn live_mapping_fails_the_check() {
    let probe_state = Observation {
        active: true,
        mapping: Some((8192, 4096)),
        maps: 1,
        unmaps: 1,
        ..Observation::default()
    };
    let mut other = Observation::default();
    let probe = Probe::start(&mut other, None).expect("probe");
    assert_eq!(
        probe.check(&probe_state, 1, 0),
        Err(Violation::LiveMapping)
    );
}

#[test]
fn violations_have_messages() {
    for (violation, text) in [
        (Violation::AlreadyActive, "no other probe is active"),
        (Violation::SecondMapping, "no other mapping is live"),
        (Violation::ForeignBase, "base of the live mapping"),
        (Violation::NotCleared, "complete writable region cleared"),
        (Violation::UnmapFailed, "native unmap completed"),
        (Violation::Injection, "injection reached"),
        (Violation::MapCount, "mapping count"),
        (Violation::UnmapCount, "successful cleanup count"),
        (Violation::ClearedCount, "zero-before-unmap observations"),
        (Violation::LiveMapping, "no live allocation remains"),
    ] {
        assert_eq!(violation.message(), text);
    }
}

#[test]
fn foreign_base_needs_no_bytes() {
    let mut state = Observation::default();
    let probe = Probe::start(&mut state, None).expect("probe");
    assert_eq!(mapped(&mut state, 8192, 4096), Ok(()));
    writable(&mut state, 8192, 4096);
    // Another base is turned away before the region is looked at.
    assert_eq!(
        before_unmap(&mut state, 4096, &[]),
        Err(Violation::ForeignBase)
    );
    assert_eq!(state.cleared, 0);
    assert_eq!(probe.check(&state, 1, 0), Err(Violation::UnmapCount));
}

#[test]
fn full_counter_is_no_bar_where_it_stays() {
    let mut state = Observation {
        active: true,
        mapping: Some((8192, 4096)),
        writable: Some((8192, 2)),
        cleared: usize::MAX,
        ..Observation::default()
    };
    let before = state;
    assert_eq!(
        before_unmap(&mut state, 8192, &[0, 1]),
        Err(Violation::NotCleared)
    );
    assert_eq!(state, before);
    state.writable = None;
    assert_eq!(before_unmap(&mut state, 8192, &[]), Ok(()));
    assert_eq!(state.cleared, usize::MAX);
}

#[test]
fn writable_report_without_mapping_keeps_the_books() {
    let mut state = Observation::default();
    let probe = Probe::start(&mut state, None).expect("probe");
    writable(&mut state, 8192, 4096);
    assert_eq!(state.writable, Some((8192, 4096)));
    assert_eq!(probe.check(&state, 0, 0), Ok(()));
    assert_eq!(
        unmapped(&mut state, 8192, true),
        Err(Violation::ForeignBase)
    );
    assert_eq!(probe.check(&state, 0, 0), Ok(()));
}

#[test]
fn dropped_probe_leaves_a_blank_observation() {
    let mut state = Observation::default();
    let probe = Probe::start(&mut state, Some(ProtectionControl::Mapping)).expect("probe");
    assert_eq!(mapped(&mut state, 8192, 4096), Ok(()));
    assert!(fail(&mut state, ProtectionControl::Mapping));
    assert!(state.hit && state.active && state.failure.is_some());
    probe.drop(&mut state);
    assert_eq!(state, Observation::default());
}

#[test]
fn addresses_stay_inside() {
    // The same run at two places, with two lengths.
    let mut answers = Vec::new();
    for (base, data, len) in [(8192, 12288, 3), (1 << 20, 3, 5)] {
        let bytes = vec![0u8; len];
        let mut state = Observation::default();
        let probe = Probe::start(&mut state, None).expect("probe");
        let mut run = Vec::new();
        run.push(mapped(&mut state, base, 2 * len));
        run.push(mapped(&mut state, data, len));
        writable(&mut state, data, len);
        run.push(before_unmap(&mut state, data, &bytes));
        run.push(before_unmap(&mut state, base, &bytes));
        run.push(unmapped(&mut state, data, true));
        run.push(unmapped(&mut state, base, true));
        run.push(probe.check(&state, 1, 1));
        answers.push((run, state));
    }
    assert_eq!(answers[0], answers[1]);
    assert_eq!(
        answers[0].0,
        vec![
            Ok(()),
            Err(Violation::SecondMapping),
            Err(Violation::ForeignBase),
            Ok(()),
            Err(Violation::ForeignBase),
            Ok(()),
            Ok(()),
        ]
    );
}
