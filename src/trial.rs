use vstd::prelude::*;

verus! {

/// Where one timed trial stands. Times are nanoseconds on a monotonic clock.
#[derive(Clone, Copy, Debug, PartialEq, Eq, Structural)]
pub enum TrialPhase {
    /// Nothing has happened yet.
    Ready,
    /// The clock started at `start` and the node factory is running.
    Spawning { start: u64 },
    /// The node is up and the shutdown probe is running.
    Probing { start: u64 },
    /// The probe finished after `elapsed`; the node is being released.
    TearingDown { elapsed: u64 },
    /// The trial is over: reported or abandoned.
    Done,
}

/// What the driver of a trial observed.
#[derive(Clone, Copy, Debug, PartialEq, Eq, Structural)]
pub enum TrialEvent {
    /// The clock read `now` just before the factory was invoked.
    Started { now: u64 },
    /// The factory produced a node.
    Spawned,
    /// The factory failed.
    SpawnFailed,
    /// The probe completed and the clock read `now` right after.
    ProbeFinished { now: u64 },
    /// The node's resources have been released.
    TornDown,
}

/// What the driver must do next.
#[derive(Clone, Copy, Debug, PartialEq, Eq, Structural)]
pub enum TrialAction {
    /// Invoke the node factory.
    Spawn,
    /// Run the shutdown probe against the node.
    Probe,
    /// Release the node.
    Teardown,
    /// The trial is over and measured `elapsed` nanoseconds.
    Report { elapsed: u64 },
    /// The factory failed: hand its failure on, with no probe and no teardown.
    Abandon,
    /// The event does not fit the phase; nothing changes.
    Reject,
}

/// Time between two clock readings, zero if the clock appears to run backwards.
pub open spec fn span(start: u64, now: u64) -> u64 {
    if now >= start { (now - start) as u64 } else { 0 }
}

/// The transition table of a trial.
pub open spec fn step(p: TrialPhase, e: TrialEvent) -> (TrialPhase, TrialAction) {
    match (p, e) {
        (TrialPhase::Ready, TrialEvent::Started { now }) =>
            (TrialPhase::Spawning { start: now }, TrialAction::Spawn),
        (TrialPhase::Spawning { start }, TrialEvent::Spawned) =>
            (TrialPhase::Probing { start }, TrialAction::Probe),
        (TrialPhase::Spawning { start }, TrialEvent::SpawnFailed) =>
            (TrialPhase::Done, TrialAction::Abandon),
        (TrialPhase::Probing { start }, TrialEvent::ProbeFinished { now }) =>
            (TrialPhase::TearingDown { elapsed: span(start, now) }, TrialAction::Teardown),
        (TrialPhase::TearingDown { elapsed }, TrialEvent::TornDown) =>
            (TrialPhase::Done, TrialAction::Report { elapsed }),
        _ => (p, TrialAction::Reject),
    }
}

/// Phase and actions after feeding `events` one by one from phase `p`.
pub open spec fn run(p: TrialPhase, events: Seq<TrialEvent>) -> (TrialPhase, Seq<TrialAction>)
    decreases events.len(),
{
    if events.len() == 0 {
        (p, Seq::empty())
    } else {
        let (q, a) = step(p, events[0]);
        let (r, rest) = run(q, events.drop_first());
        (r, seq![a].add(rest))
    }
}

/// One timed trial: spawn, probe, stop the clock, tear down, report.
pub struct Trial {
    pub phase: TrialPhase,
}

impl Trial {
    pub fn new() -> (r: Trial)
        ensures
            r.phase == TrialPhase::Ready,
    {
        Trial { phase: TrialPhase::Ready }
    }

    /// Feeds one event to the trial and returns what to do next.
    pub fn advance(&mut self, e: TrialEvent) -> (a: TrialAction)
        ensures
            (final(self).phase, a) == step(old(self).phase, e),
    {
        match (self.phase, e) {
            (TrialPhase::Ready, TrialEvent::Started { now }) => {
                self.phase = TrialPhase::Spawning { start: now };
                TrialAction::Spawn
            },
            (TrialPhase::Spawning { start }, TrialEvent::Spawned) => {
                self.phase = TrialPhase::Probing { start };
                TrialAction::Probe
            },
            (TrialPhase::Spawning { start }, TrialEvent::SpawnFailed) => {
                self.phase = TrialPhase::Done;
                TrialAction::Abandon
            },
            (TrialPhase::Probing { start }, TrialEvent::ProbeFinished { now }) => {
                let elapsed: u64 = if now >= start { now - start } else { 0 };
                self.phase = TrialPhase::TearingDown { elapsed };
                TrialAction::Teardown
            },
            (TrialPhase::TearingDown { elapsed }, TrialEvent::TornDown) => {
                self.phase = TrialPhase::Done;
                TrialAction::Report { elapsed }
            },
            _ => TrialAction::Reject,
        }
    }
}

/// A trial that spawns at `start` and whose probe ends at `probe_end` reports
/// exactly `probe_end - start`: spawn and probe are timed, the teardown that
/// follows the probe is not.
pub proof fn lemma_duration_excludes_teardown(start: u64, probe_end: u64)
    requires
        start <= probe_end,
    ensures
        run(
            TrialPhase::Ready,
            seq![
                TrialEvent::Started { now: start },
                TrialEvent::Spawned,
                TrialEvent::ProbeFinished { now: probe_end },
                TrialEvent::TornDown,
            ],
        ) == (
            TrialPhase::Done,
            seq![
                TrialAction::Spawn,
                TrialAction::Probe,
                TrialAction::Teardown,
                TrialAction::Report { elapsed: (probe_end - start) as u64 },
            ],
        ),
{
    let e = seq![
        TrialEvent::Started { now: start },
        TrialEvent::Spawned,
        TrialEvent::ProbeFinished { now: probe_end },
        TrialEvent::TornDown,
    ];
    reveal_with_fuel(run, 5);
    assert(e.drop_first() =~= seq![TrialEvent::Spawned, TrialEvent::ProbeFinished { now: probe_end }, TrialEvent::TornDown]);
    assert(e.drop_first().drop_first() =~= seq![TrialEvent::ProbeFinished { now: probe_end }, TrialEvent::TornDown]);
    assert(e.drop_first().drop_first().drop_first() =~= seq![TrialEvent::TornDown]);
    assert(e.drop_first().drop_first().drop_first().drop_first() =~= Seq::<TrialEvent>::empty());
    let r = run(TrialPhase::Ready, e);
    assert(r.1 =~= seq![
        TrialAction::Spawn,
        TrialAction::Probe,
        TrialAction::Teardown,
        TrialAction::Report { elapsed: (probe_end - start) as u64 },
    ]);
}

/// A failed spawn ends the trial at once: no probe, no teardown, no report.
pub proof fn lemma_failed_spawn_abandons(start: u64)
    ensures
        run(TrialPhase::Ready, seq![TrialEvent::Started { now: start }, TrialEvent::SpawnFailed])
            == (TrialPhase::Done, seq![TrialAction::Spawn, TrialAction::Abandon]),
{
    let e = seq![TrialEvent::Started { now: start }, TrialEvent::SpawnFailed];
    reveal_with_fuel(run, 3);
    assert(e.drop_first() =~= seq![TrialEvent::SpawnFailed]);
    assert(e.drop_first().drop_first() =~= Seq::<TrialEvent>::empty());
    let r = run(TrialPhase::Ready, e);
    assert(r.1 =~= seq![TrialAction::Spawn, TrialAction::Abandon]);
}

} // verus!
