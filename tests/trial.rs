use anvil_benchmarks::trial::{Trial, TrialAction, TrialEvent, TrialPhase};

#[test]
fn duration_excludes_teardown() {
    // spawn takes 100 ns, the probe 50 ns; teardown then takes 1000 ns
    let mut t = Trial::new();
    assert_eq!(t.advance(TrialEvent::Started { now: 1_000 }), TrialAction::Spawn);
    assert_eq!(t.advance(TrialEvent::Spawned), TrialAction::Probe);
    assert_eq!(t.advance(TrialEvent::ProbeFinished { now: 1_150 }), TrialAction::Teardown);
    assert_eq!(t.phase, TrialPhase::TearingDown { elapsed: 150 });
    assert_eq!(t.advance(TrialEvent::TornDown), TrialAction::Report { elapsed: 150 });
    assert_eq!(t.phase, TrialPhase::Done);
}

#[test]
fn failed_spawn_abandons_without_probe() {
    let mut t = Trial::new();
    assert_eq!(t.advance(TrialEvent::Started { now: 5 }), TrialAction::Spawn);
    assert_eq!(t.advance(TrialEvent::SpawnFailed), TrialAction::Abandon);
    assert_eq!(t.phase, TrialPhase::Done);
    assert_eq!(t.advance(TrialEvent::Spawned), TrialAction::Reject);
}

#[test]
fn out_of_order_events_are_rejected() {
    let mut t = Trial::new();
    assert_eq!(t.advance(TrialEvent::Spawned), TrialAction::Reject);
    assert_eq!(t.advance(TrialEvent::TornDown), TrialAction::Reject);
    assert_eq!(t.phase, TrialPhase::Ready);
}

#[test]
fn backwards_clock_measures_zero() {
    let mut t = Trial::new();
    t.advance(TrialEvent::Started { now: 500 });
    t.advance(TrialEvent::Spawned);
    t.advance(TrialEvent::ProbeFinished { now: 400 });
    assert_eq!(t.advance(TrialEvent::TornDown), TrialAction::Report { elapsed: 0 });
}
