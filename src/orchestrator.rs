//! Fail-fast supervision of the pipeline's stages.
use vstd::prelude::*;

verus! {

/// The stages below `upto`, other than `stage`, that still run, in
/// increasing order.
pub open spec fn others_running(running: Seq<bool>, stage: int, upto: int) -> Seq<usize>
    decreases upto,
{
    if upto <= 0 {
        Seq::empty()
    } else {
        let prev = others_running(running, stage, upto - 1);
        if upto - 1 != stage && running[upto - 1] {
            prev.push((upto - 1) as usize)
        } else {
            prev
        }
    }
}

/// The stages' state after `stage` stops (`failed` or not): the first stop
/// settles the outcome and stops every stage; a later one only marks its
/// stage stopped.
pub open spec fn exit_step(running: Seq<bool>, outcome: Option<bool>, stage: int, failed: bool) -> (Seq<bool>, Option<bool>) {
    match outcome {
        None => (Seq::new(running.len(), |i: int| false), Some(failed)),
        Some(o) => (running.update(stage, false), Some(o)),
    }
}

/// The stages' state after `n` stages started and then the stops `exits`
/// (a stage and whether it failed) came in, in order.
pub open spec fn exit_run(n: nat, exits: Seq<(int, bool)>) -> (Seq<bool>, Option<bool>)
    decreases exits.len(),
{
    if exits.len() == 0 {
        (Seq::new(n, |i: int| true), None)
    } else {
        let (running, outcome) = exit_run(n, exits.drop_last());
        exit_step(running, outcome, exits.last().0, exits.last().1)
    }
}

/// Once any stage has stopped, successfully (as a stage does on
/// cancellation) or with an error, no stage runs any more, whatever stops
/// come in after; the outcome is that of the first stage to stop.
pub proof fn lemma_first_exit_stops_all(n: nat, exits: Seq<(int, bool)>)
    requires
        exits.len() > 0,
        forall|k: int| 0 <= k < exits.len() ==> 0 <= #[trigger] exits[k].0 < n,
    ensures
        exit_run(n, exits).0.len() == n,
        forall|i: int| 0 <= i < n ==> !#[trigger] exit_run(n, exits).0[i],
        exit_run(n, exits).1 == Some(exits[0].1),
    decreases exits.len(),
{
    let prev = exits.drop_last();
    if prev.len() > 0 {
        assert forall|k: int| 0 <= k < prev.len() implies 0 <= #[trigger] prev[k].0 < n by {
            assert(prev[k] == exits[k]);
        }
        lemma_first_exit_stops_all(n, prev);
        assert(prev[0] == exits[0]);
    } else {
        assert(exit_run(n, prev).1 is None);
    }
}

pub struct Supervisor {
    running: Vec<bool>,
    outcome: Option<bool>,
}

impl Supervisor {
    /// For each stage, whether it still runs.
    pub closed spec fn running(&self) -> Seq<bool> {
        self.running@
    }

    /// Whether the first stage to stop failed; `None` while all run.
    pub closed spec fn outcome(&self) -> Option<bool> {
        self.outcome
    }

    /// A supervisor of `stages` running stages.
    pub fn new(stages: usize) -> (s: Self)
        ensures
            s.running().len() == stages,
            forall|i: int| 0 <= i < stages ==> #[trigger] s.running()[i],
            s.outcome() is None,
            (s.running(), s.outcome()) == exit_run(stages as nat, Seq::empty()),
    {
        let mut running: Vec<bool> = Vec::new();
        let mut i: usize = 0;
        while i < stages
            invariant
                i <= stages,
                running@.len() == i,
                forall|j: int| 0 <= j < i ==> #[trigger] running@[j],
            decreases stages - i,
        {
            running.push(true);
            i = i + 1;
        }
        Supervisor { running, outcome: None }
    }

    /// Takes the news that `stage` stopped, successfully or not, and returns
    /// the stages to abort, in increasing order. The first stop settles the
    /// outcome and stops every other stage that still runs; a later one (an
    /// aborted stage winding down) changes nothing else.
    pub fn on_exit(&mut self, stage: usize, failed: bool) -> (abort: Vec<usize>)
        requires
            stage < old(self).running().len(),
        ensures
            final(self).running().len() == old(self).running().len(),
            (final(self).running(), final(self).outcome()) == exit_step(
                old(self).running(),
                old(self).outcome(),
                stage as int,
                failed,
            ),
            match old(self).outcome() {
                None => {
                    &&& final(self).outcome() == Some(failed)
                    &&& forall|i: int| 0 <= i < final(self).running().len() ==> !#[trigger] final(self).running()[i]
                    &&& abort@ == others_running(
                        old(self).running(),
                        stage as int,
                        old(self).running().len() as int,
                    )
                },
                Some(o) => {
                    &&& final(self).outcome() == Some(o)
                    &&& final(self).running() == old(self).running().update(stage as int, false)
                    &&& abort@.len() == 0
                },
            },
    {
        let mut abort: Vec<usize> = Vec::new();
        match self.outcome {
            Some(_) => {
                self.running.set(stage, false);
            },
            None => {
                self.outcome = Some(failed);
                let n = self.running.len();
                let ghost before = self.running@;
                let mut i: usize = 0;
                while i < n
                    invariant
                        n == before.len(),
                        i <= n,
                        self.running@.len() == n,
                        self.outcome == Some(failed),
                        stage < n,
                        forall|j: int| 0 <= j < i ==> !#[trigger] self.running@[j],
                        forall|j: int| i <= j < n ==> #[trigger] self.running@[j] == before[j],
                        abort@ == others_running(before, stage as int, i as int),
                    decreases n - i,
                {
                    if i != stage && self.running[i] {
                        abort.push(i);
                    }
                    self.running.set(i, false);
                    i = i + 1;
                }
            },
        }
        abort
    }

    /// The process's exit code: non-zero exactly when the first stage to stop
    /// failed.
    pub fn exit_code(&self) -> (code: i32)
        ensures
            (code != 0) <==> self.outcome() == Some(true),
    {
        match self.outcome {
            Some(true) => 1,
            _ => 0,
        }
    }
}

} // verus!
