use vstd::prelude::*;

use crate::particle::{fits_i64, pos_x_after, pos_y_after, pos_z_after, steps_fit, Nanoparticle, Vec3};

verus! {

/// One progress report: which particle, which step (counting from zero), and
/// the position right after that step's update.
#[derive(Clone, Copy, Debug, PartialEq, Eq, Structural)]
pub struct Report {
    pub id: usize,
    pub step: usize,
    pub position: Vec3,
}

/// What the report for step `base + i` of a run from `init` must say.
pub open spec fn report_at(init: Nanoparticle, base: int, i: int, rep: Report) -> bool {
    &&& rep.id == init.id
    &&& rep.step == base + i
    &&& rep.position.x == pos_x_after(init, base + i + 1)
    &&& rep.position.y == pos_y_after(init, base + i + 1)
    &&& rep.position.z == pos_z_after(init, base + i + 1)
}

/// The running state of one task: the particle it exclusively owns, how many
/// steps it has taken so far, and how many it will take in all.
pub struct TaskRun {
    pub particle: Nanoparticle,
    pub steps_done: usize,
    pub total_steps: usize,
    pub initial: Ghost<Nanoparticle>,
}

impl TaskRun {
    /// The particle keeps its identity and velocity, its position is exactly
    /// the initial position advanced `steps_done` times, and every position of
    /// the whole run stays representable.
    pub open spec fn wf(self) -> bool {
        &&& self.steps_done <= self.total_steps
        &&& self.particle.id == self.initial@.id
        &&& self.particle.velocity == self.initial@.velocity
        &&& steps_fit(self.initial@, self.total_steps as int)
        &&& self.particle.position.x == pos_x_after(self.initial@, self.steps_done as int)
        &&& self.particle.position.y == pos_y_after(self.initial@, self.steps_done as int)
        &&& self.particle.position.z == pos_z_after(self.initial@, self.steps_done as int)
    }

    /// Take exclusive ownership of one particle for a run of `k` steps.
    pub fn new(p: Nanoparticle, k: usize) -> (r: TaskRun)
        requires
            steps_fit(p, k as int),
        ensures
            r.wf(),
            r.initial@ == p,
            r.particle == p,
            r.steps_done == 0,
            r.total_steps == k,
    {
        TaskRun { particle: p, steps_done: 0, total_steps: k, initial: Ghost(p) }
    }

    /// Advance the owned particle by one step and report the new position.
    pub fn step_once(&mut self) -> (rep: Report)
        requires
            old(self).wf(),
            old(self).steps_done < old(self).total_steps,
        ensures
            final(self).wf(),
            final(self).initial == old(self).initial,
            final(self).total_steps == old(self).total_steps,
            final(self).steps_done == old(self).steps_done + 1,
            report_at(old(self).initial@, old(self).steps_done as int, 0, rep),
            rep.position == final(self).particle.position,
    {
        let step_index = self.steps_done;
        proof {
            let d = step_index as int;
            let init = self.initial@;
            assert(fits_i64(pos_x_after(init, d + 1)));
            assert((d + 1) * init.velocity.x == d * init.velocity.x + init.velocity.x)
                by (nonlinear_arith);
            assert((d + 1) * init.velocity.y == d * init.velocity.y + init.velocity.y)
                by (nonlinear_arith);
            assert((d + 1) * init.velocity.z == d * init.velocity.z + init.velocity.z)
                by (nonlinear_arith);
        }
        self.particle.update_position();
        self.steps_done = step_index + 1;
        Report { id: self.particle.id, step: step_index, position: self.particle.position }
    }

    /// Run every remaining step in order, collecting one report per step.
    pub fn run_to_end(&mut self) -> (reports: Vec<Report>)
        requires
            old(self).wf(),
        ensures
            final(self).wf(),
            final(self).initial == old(self).initial,
            final(self).total_steps == old(self).total_steps,
            final(self).steps_done == final(self).total_steps,
            reports@.len() == old(self).total_steps - old(self).steps_done,
            forall|i: int|
                0 <= i < reports@.len() ==> #[trigger] report_at(
                    old(self).initial@,
                    old(self).steps_done as int,
                    i,
                    reports@[i],
                ),
    {
        let mut reports: Vec<Report> = Vec::new();
        let base = self.steps_done;
        while self.steps_done < self.total_steps
            invariant
                self.wf(),
                self.initial == old(self).initial,
                self.total_steps == old(self).total_steps,
                base == old(self).steps_done,
                base <= self.steps_done,
                reports@.len() == self.steps_done - base,
                forall|i: int|
                    0 <= i < reports@.len() ==> #[trigger] report_at(
                        self.initial@,
                        base as int,
                        i,
                        reports@[i],
                    ),
            decreases self.total_steps - self.steps_done,
        {
            let rep = self.step_once();
            reports.push(rep);
        }
        reports
    }
}

/// After a completed run, the final position equals the initial position plus
/// the total step count times the velocity, component-wise.
pub proof fn lemma_final_position(r: TaskRun)
    requires
        r.wf(),
        r.steps_done == r.total_steps,
    ensures
        r.particle.position.x == r.initial@.position.x + (r.total_steps as int) * r.initial@.velocity.x,
        r.particle.position.y == r.initial@.position.y + (r.total_steps as int) * r.initial@.velocity.y,
        r.particle.position.z == r.initial@.position.z + (r.total_steps as int) * r.initial@.velocity.z,
{
}

/// Stepping is pure arithmetic and so deterministic: two runs that started
/// from the same initial state and have taken the same number of steps hold
/// identical particles, whichever task or thread performed the calls.
pub proof fn lemma_run_deterministic(a: TaskRun, b: TaskRun)
    requires
        a.wf(),
        b.wf(),
        a.initial@ == b.initial@,
        a.steps_done == b.steps_done,
    ensures
        a.particle == b.particle,
{
    assert(a.particle.position == b.particle.position);
}

} // verus!
