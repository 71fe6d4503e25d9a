use vstd::prelude::*;

verus! {

/// How a freshly spawned node reports execution: with full tracing, or silently.
#[derive(Clone, Copy, Debug, PartialEq, Eq, Structural)]
pub enum TraceMode {
    Full,
    Silent,
}

/// The mode chosen for a node when `count` nodes have already claimed the toggle.
pub open spec fn mode_for(count: u8) -> TraceMode {
    if count == 0 { TraceMode::Full } else { TraceMode::Silent }
}

/// The counter value after one more node has claimed the toggle.
pub open spec fn count_after(count: u8) -> u8 {
    if count == 0 { 1 } else { count }
}

/// Reads the process-wide spawn counter: the first spawn gets full tracing and
/// bumps the counter once; every later spawn runs silent and leaves it as it is.
pub fn claim_trace_mode(count: u8) -> (r: (TraceMode, u8))
    ensures
        r.0 == mode_for(count),
        r.1 == count_after(count),
{
    if count == 0 {
        (TraceMode::Full, 1)
    } else {
        (TraceMode::Silent, count)
    }
}

/// The modes observed by `k` successive spawns when the counter starts at `count`.
pub open spec fn modes_from(count: u8, k: nat) -> Seq<TraceMode>
    decreases k,
{
    if k == 0 {
        Seq::empty()
    } else {
        seq![mode_for(count)].add(modes_from(count_after(count), (k - 1) as nat))
    }
}

proof fn lemma_claimed_stays_silent(count: u8, k: nat)
    requires
        count != 0,
    ensures
        modes_from(count, k).len() == k,
        forall|i: int| 0 <= i < k ==> #[trigger] modes_from(count, k)[i] == TraceMode::Silent,
    decreases k,
{
    if k > 0 {
        lemma_claimed_stays_silent(count, (k - 1) as nat);
        let m = modes_from(count, k);
        let rest = modes_from(count, (k - 1) as nat);
        assert forall|i: int| 0 <= i < k implies #[trigger] m[i] == TraceMode::Silent by {
            if i > 0 {
                assert(m[i] == rest[i - 1]);
            }
        }
    }
}

/// Within one process, whatever transports the spawns use and in whatever order,
/// the first spawn gets full tracing and every later spawn runs silent.
pub proof fn lemma_only_first_spawn_traces(k: nat)
    ensures
        modes_from(0, k).len() == k,
        forall|i: int| 0 <= i < k ==> #[trigger] modes_from(0, k)[i] == (if i == 0 {
            TraceMode::Full
        } else {
            TraceMode::Silent
        }),
{
    if k > 0 {
        lemma_claimed_stays_silent(1, (k - 1) as nat);
        let m = modes_from(0, k);
        let rest = modes_from(1, (k - 1) as nat);
        assert forall|i: int| 0 <= i < k implies #[trigger] m[i] == (if i == 0 {
            TraceMode::Full
        } else {
            TraceMode::Silent
        }) by {
            if i > 0 {
                assert(m[i] == rest[i - 1]);
            }
        }
    }
}

} // verus!
