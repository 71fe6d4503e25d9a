use vstd::prelude::*;

verus! {

/// The durations of the successful trials among `o`, in call order.
pub open spec fn successes(o: Seq<Option<u64>>) -> Seq<u64>
    decreases o.len(),
{
    if o.len() == 0 {
        Seq::empty()
    } else {
        let rest = successes(o.drop_last());
        match o.last() {
            Some(d) => rest.push(d),
            None => rest,
        }
    }
}

/// The number of failed trials among `o`.
pub open spec fn failure_count(o: Seq<Option<u64>>) -> nat
    decreases o.len(),
{
    if o.len() == 0 {
        0
    } else {
        failure_count(o.drop_last()) + if o.last() is None { 1nat } else { 0nat }
    }
}

/// What a trial contributes to the record: its duration, or nothing.
pub open spec fn outcome_of<E>(r: Result<u64, E>) -> Option<u64> {
    match r {
        Ok(d) => Some(d),
        Err(_) => None,
    }
}

/// The sampling loop: runs a fixed number of trials one after another and keeps
/// the duration of each that succeeds, in order. A failed trial is handed back to
/// be reported and adds nothing; the loop goes on until every attempt is made.
pub struct SamplingLoop {
    iterations: usize,
    samples: Vec<u64>,
    failures: usize,
    outcomes: Ghost<Seq<Option<u64>>>,
}

impl SamplingLoop {
    /// Outcomes of the trials made so far, in order.
    pub closed spec fn outcomes(&self) -> Seq<Option<u64>> {
        self.outcomes@
    }

    pub closed spec fn iterations_spec(&self) -> nat {
        self.iterations as nat
    }

    pub closed spec fn wf(&self) -> bool {
        &&& self.outcomes@.len() <= self.iterations
        &&& self.samples@ == successes(self.outcomes@)
        &&& self.failures == failure_count(self.outcomes@)
    }

    /// A loop that will make `iterations` attempts.
    pub fn new(iterations: usize) -> (r: SamplingLoop)
        ensures
            r.wf(),
            r.iterations_spec() == iterations,
            r.outcomes() == Seq::<Option<u64>>::empty(),
    {
        SamplingLoop { iterations, samples: Vec::new(), failures: 0, outcomes: Ghost(Seq::empty()) }
    }

    pub fn iterations(&self) -> (r: usize)
        ensures
            r == self.iterations_spec(),
    {
        self.iterations
    }

    /// Number of attempts made so far.
    pub fn attempted(&self) -> (r: usize)
        requires
            self.wf(),
        ensures
            r == self.outcomes().len(),
    {
        proof {
            lemma_outcomes_split(self.outcomes@);
        }
        self.samples.len() + self.failures
    }

    /// Whether every attempt has been made.
    pub fn is_finished(&self) -> (r: bool)
        requires
            self.wf(),
        ensures
            r == (self.outcomes().len() == self.iterations_spec()),
    {
        self.attempted() == self.iterations
    }

    /// Records the outcome of the next trial. A duration is kept; a failure is
    /// counted and handed back so that the caller reports it.
    pub fn record<E>(&mut self, outcome: Result<u64, E>) -> (r: Option<E>)
        requires
            old(self).wf(),
            old(self).outcomes().len() < old(self).iterations_spec(),
        ensures
            final(self).wf(),
            final(self).iterations_spec() == old(self).iterations_spec(),
            final(self).outcomes() == old(self).outcomes().push(outcome_of(outcome)),
            outcome is Ok <==> r is None,
            outcome is Err ==> r == Some(outcome->Err_0),
    {
        let ghost o = self.outcomes@.push(outcome_of(outcome));
        assert(o.drop_last() =~= self.outcomes@);
        proof {
            lemma_outcomes_split(self.outcomes@);
        }
        match outcome {
            Ok(d) => {
                self.samples.push(d);
                self.outcomes = Ghost(o);
                None
            },
            Err(e) => {
                self.failures = self.failures + 1;
                self.outcomes = Ghost(o);
                Some(e)
            },
        }
    }

    /// The durations kept so far, in the order the trials ran.
    pub fn samples(&self) -> (r: &Vec<u64>)
        requires
            self.wf(),
        ensures
            r@ == successes(self.outcomes()),
    {
        &self.samples
    }

    /// Number of failed trials so far.
    pub fn failures(&self) -> (r: usize)
        requires
            self.wf(),
        ensures
            r == failure_count(self.outcomes()),
    {
        self.failures
    }

    /// Ends the loop and hands over the sample set.
    pub fn into_samples(self) -> (r: Vec<u64>)
        requires
            self.wf(),
        ensures
            r@ == successes(self.outcomes()),
    {
        self.samples
    }
}

/// Every attempt either adds one sample or counts one failure.
pub proof fn lemma_outcomes_split(o: Seq<Option<u64>>)
    ensures
        successes(o).len() + failure_count(o) == o.len(),
    decreases o.len(),
{
    if o.len() > 0 {
        lemma_outcomes_split(o.drop_last());
    }
}

/// When every trial fails, the sample set is empty and every attempt is counted
/// as a failure to report.
pub proof fn lemma_all_failed(o: Seq<Option<u64>>)
    requires
        forall|i: int| 0 <= i < o.len() ==> (#[trigger] o[i]) is None,
    ensures
        successes(o) == Seq::<u64>::empty(),
        failure_count(o) == o.len(),
    decreases o.len(),
{
    if o.len() > 0 {
        let t = o.drop_last();
        assert forall|i: int| 0 <= i < t.len() implies (#[trigger] t[i]) is None by {
            assert(t[i] == o[i]);
        }
        lemma_all_failed(t);
        assert(o.last() == o[o.len() - 1]);
    }
}

/// The sample set holds exactly the durations of the successful trials: as many
/// entries as attempts minus failures, each one the duration of its trial, in order.
pub proof fn lemma_samples_are_successes(o: Seq<Option<u64>>)
    ensures
        successes(o).len() == o.len() - failure_count(o),
        forall|i: int| 0 <= i < o.len() && (#[trigger] o[i]) is Some
            ==> successes(o).contains(o[i]->Some_0),
    decreases o.len(),
{
    lemma_outcomes_split(o);
    if o.len() > 0 {
        let t = o.drop_last();
        lemma_samples_are_successes(t);
        assert forall|i: int| 0 <= i < o.len() && (#[trigger] o[i]) is Some
            implies successes(o).contains(o[i]->Some_0) by {
            if i < t.len() {
                assert(t[i] == o[i]);
                let j = choose|j: int| 0 <= j < successes(t).len() && successes(t)[j] == o[i]->Some_0;
                if let Some(d) = o.last() {
                    assert(successes(o)[j] == o[i]->Some_0);
                }
            } else {
                assert(successes(o).last() == o[i]->Some_0);
            }
        }
    }
}

} // verus!
