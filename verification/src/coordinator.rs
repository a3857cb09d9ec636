use vstd::prelude::*;

use crate::config::SimConfig;
use crate::particle::{sampled_from, steps_fit, Nanoparticle};

verus! {

/// Every particle's id equals its index: the ids are 0, 1, 2, ... in order.
pub open spec fn ids_sequential(pop: Seq<Nanoparticle>) -> bool {
    forall|i: int| 0 <= i < pop.len() ==> (#[trigger] pop[i]).id == i
}

/// No two particles of the population share an id.
pub open spec fn ids_distinct(pop: Seq<Nanoparticle>) -> bool {
    forall|i: int, j: int|
        0 <= i < j < pop.len() ==> (#[trigger] pop[i]).id != (#[trigger] pop[j]).id
}

/// Sequential ids are pairwise distinct: within one run no id repeats.
pub proof fn lemma_sequential_ids_distinct(pop: Seq<Nanoparticle>)
    requires
        ids_sequential(pop),
    ensures
        ids_distinct(pop),
{
    assert forall|i: int, j: int|
        0 <= i < j < pop.len() implies (#[trigger] pop[i]).id != (#[trigger] pop[j]).id by {
        assert(pop[i].id == i);
        assert(pop[j].id == j);
    }
}

/// Create the population: exactly `cfg.n` particles with sequential (hence
/// pairwise distinct) ids, each with position and velocity drawn from the
/// configured sampling ranges and able to take all `cfg.k` steps.
pub fn make_population(cfg: &SimConfig) -> (pop: Vec<Nanoparticle>)
    requires
        cfg.wf(),
    ensures
        pop@.len() == cfg.n,
        ids_sequential(pop@),
        ids_distinct(pop@),
        forall|i: int|
            0 <= i < pop@.len() ==> sampled_from(#[trigger] pop@[i], *cfg) && steps_fit(
                pop@[i],
                cfg.k as int,
            ),
{
    let mut pop: Vec<Nanoparticle> = Vec::new();
    let mut i: usize = 0;
    while i < cfg.n
        invariant
            cfg.wf(),
            i <= cfg.n,
            pop@.len() == i,
            ids_sequential(pop@),
            forall|j: int|
                0 <= j < pop@.len() ==> sampled_from(#[trigger] pop@[j], *cfg) && steps_fit(
                    pop@[j],
                    cfg.k as int,
                ),
        decreases cfg.n - i,
    {
        let p = Nanoparticle::new(i, cfg);
        pop.push(p);
        i = i + 1;
    }
    proof {
        lemma_sequential_ids_distinct(pop@);
    }
    pop
}

/// What one task's slot yielded: the final particle it owned, or the fact
/// that the task failed. A failure in one slot never hides another slot.
#[derive(Clone, Copy, Debug, PartialEq, Eq, Structural)]
pub enum TaskOutcome {
    Completed(Nanoparticle),
    Failed,
}

/// How many of the outcomes are completed particles.
pub open spec fn count_completed(s: Seq<TaskOutcome>) -> nat
    decreases s.len(),
{
    if s.len() == 0 {
        0
    } else {
        count_completed(s.drop_last()) + (if s.last() is Completed {
            1nat
        } else {
            0nat
        })
    }
}

/// The tally of one run: how many tasks completed and how many failed.
#[derive(Clone, Copy, Debug, PartialEq, Eq, Structural)]
pub struct RunSummary {
    pub completed: usize,
    pub failed: usize,
}

/// Tally the outcomes of a run. Every slot is counted exactly once, as a
/// completion or as a failure: the two counts always sum to the number of
/// outcomes, so no task is dropped or double-counted.
pub fn summarize(outcomes: &Vec<TaskOutcome>) -> (s: RunSummary)
    ensures
        s.completed == count_completed(outcomes@),
        s.failed == outcomes@.len() - count_completed(outcomes@),
        s.completed + s.failed == outcomes@.len(),
{
    let mut completed: usize = 0;
    let mut idx: usize = 0;
    while idx < outcomes.len()
        invariant
            idx <= outcomes@.len(),
            completed == count_completed(outcomes@.take(idx as int)),
            completed <= idx,
        decreases outcomes@.len() - idx,
    {
        match outcomes[idx] {
            TaskOutcome::Completed(_) => {
                completed = completed + 1;
            },
            TaskOutcome::Failed => {},
        }
        proof {
            let taken = outcomes@.take(idx as int + 1);
            assert(taken.drop_last() =~= outcomes@.take(idx as int));
            assert(taken.last() == outcomes@[idx as int]);
        }
        idx = idx + 1;
    }
    proof {
        assert(outcomes@.take(outcomes@.len() as int) =~= outcomes@);
        lemma_count_completed_le_len(outcomes@);
    }
    RunSummary { completed, failed: outcomes.len() - completed }
}

/// At most every outcome is a completion.
proof fn lemma_count_completed_le_len(s: Seq<TaskOutcome>)
    ensures
        count_completed(s) <= s.len(),
    decreases s.len(),
{
    if s.len() > 0 {
        lemma_count_completed_le_len(s.drop_last());
    }
}

} // verus!
