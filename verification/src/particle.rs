use vstd::prelude::*;

use crate::config::{mag_bound, SimConfig};

verus! {

/// A 3-D coordinate in fixed-point units (thousandths of a unit per count).
#[derive(Clone, Copy, Debug, PartialEq, Eq, Structural)]
pub struct Vec3 {
    pub x: i64,
    pub y: i64,
    pub z: i64,
}

/// One simulated particle: an immutable identity, a mutable position, and a
/// velocity that never changes after creation.
#[derive(Clone, Copy, Debug, PartialEq, Eq, Structural)]
pub struct Nanoparticle {
    pub id: usize,
    pub position: Vec3,
    pub velocity: Vec3,
}

pub open spec fn fits_i64(v: int) -> bool {
    i64::MIN <= v <= i64::MAX
}

/// The x axis of the position reached after `k` steps of constant velocity.
pub open spec fn pos_x_after(p: Nanoparticle, k: int) -> int {
    p.position.x + k * p.velocity.x
}

/// The y axis of the position reached after `k` steps of constant velocity.
pub open spec fn pos_y_after(p: Nanoparticle, k: int) -> int {
    p.position.y + k * p.velocity.y
}

/// The z axis of the position reached after `k` steps of constant velocity.
pub open spec fn pos_z_after(p: Nanoparticle, k: int) -> int {
    p.position.z + k * p.velocity.z
}

/// Every position along a `k`-step run from `p` stays representable.
pub open spec fn steps_fit(p: Nanoparticle, k: int) -> bool {
    forall|j: int|
        0 <= j <= k ==> fits_i64(#[trigger] pos_x_after(p, j)) && fits_i64(pos_y_after(p, j))
            && fits_i64(pos_z_after(p, j))
}

/// The particle's coordinates lie in the configuration's sampling ranges.
pub open spec fn sampled_from(p: Nanoparticle, cfg: SimConfig) -> bool {
    &&& cfg.pos_lo <= p.position.x < cfg.pos_hi
    &&& cfg.pos_lo <= p.position.y < cfg.pos_hi
    &&& cfg.pos_lo <= p.position.z < cfg.pos_hi
    &&& cfg.vel_lo <= p.velocity.x < cfg.vel_hi
    &&& cfg.vel_lo <= p.velocity.y < cfg.vel_hi
    &&& cfg.vel_lo <= p.velocity.z < cfg.vel_hi
}

/// One axis never leaves the representable range during a bounded run.
proof fn lemma_axis_bound(pos: int, vel: int, j: int, k: int, pb: int, vb: int)
    by (nonlinear_arith)
    requires
        0 <= j <= k,
        -pb <= pos <= pb,
        -vb <= vel <= vb,
        pb + k * vb <= i64::MAX as int,
    ensures
        i64::MIN <= pos + j * vel <= i64::MAX,
{
}

/// Any state sampled from a well-formed configuration's ranges can take the
/// configured number of steps without a coordinate leaving the representable
/// range.
pub proof fn lemma_sampled_steps_fit(p: Nanoparticle, cfg: SimConfig)
    requires
        cfg.wf(),
        sampled_from(p, cfg),
    ensures
        steps_fit(p, cfg.k as int),
{
    let pb = mag_bound(cfg.pos_lo, cfg.pos_hi);
    let vb = mag_bound(cfg.vel_lo, cfg.vel_hi);
    assert forall|j: int| 0 <= j <= cfg.k as int implies fits_i64(#[trigger] pos_x_after(p, j))
        && fits_i64(pos_y_after(p, j)) && fits_i64(pos_z_after(p, j)) by {
        lemma_axis_bound(p.position.x as int, p.velocity.x as int, j, cfg.k as int, pb, vb);
        lemma_axis_bound(p.position.y as int, p.velocity.y as int, j, cfg.k as int, pb, vb);
        lemma_axis_bound(p.position.z as int, p.velocity.z as int, j, cfg.k as int, pb, vb);
    }
}

/// A run whose `j`-th position is unrepresentable does not fit, for any step
/// budget of at least `j`.
proof fn lemma_unfit_step(p: Nanoparticle, j: int, k: int)
    requires
        0 <= j <= k,
        !fits_i64(pos_x_after(p, j)) || !fits_i64(pos_y_after(p, j)) || !fits_i64(
            pos_z_after(p, j),
        ),
    ensures
        !steps_fit(p, k),
{
}

/// Relies on rand::Rng::gen_range over the half-open range `lo..hi` of `i64`:
/// the drawn sample lies in the range; the call panics only on an empty
/// range, which the precondition rules out.
#[verifier::external_body]
fn sample_range(lo: i64, hi: i64) -> (r: i64)
    requires
        lo < hi,
    ensures
        lo <= r < hi,
{
    rand::Rng::gen_range(&mut rand::thread_rng(), lo..hi)
}

impl Nanoparticle {
    /// Create one particle with the given id, its position and velocity drawn
    /// independently per axis from the configuration's sampling ranges.
    pub fn new(id: usize, cfg: &SimConfig) -> (p: Nanoparticle)
        requires
            cfg.wf(),
        ensures
            p.id == id,
            sampled_from(p, *cfg),
            steps_fit(p, cfg.k as int),
    {
        let position = Vec3 {
            x: sample_range(cfg.pos_lo, cfg.pos_hi),
            y: sample_range(cfg.pos_lo, cfg.pos_hi),
            z: sample_range(cfg.pos_lo, cfg.pos_hi),
        };
        let velocity = Vec3 {
            x: sample_range(cfg.vel_lo, cfg.vel_hi),
            y: sample_range(cfg.vel_lo, cfg.vel_hi),
            z: sample_range(cfg.vel_lo, cfg.vel_hi),
        };
        let p = Nanoparticle { id, position, velocity };
        proof {
            lemma_sampled_steps_fit(p, *cfg);
        }
        p
    }

    /// Decide at run time whether this particle can take `k` steps with every
    /// intermediate position representable: exactly the `steps_fit` condition.
    /// Unverified callers test this before starting a run.
    pub fn can_take_steps(&self, k: usize) -> (b: bool)
        ensures
            b == steps_fit(*self, k as int),
    {
        let mut x = self.position.x;
        let mut y = self.position.y;
        let mut z = self.position.z;
        let mut j: usize = 0;
        while j < k
            invariant
                j <= k,
                x as int == pos_x_after(*self, j as int),
                y as int == pos_y_after(*self, j as int),
                z as int == pos_z_after(*self, j as int),
                forall|i: int|
                    0 <= i <= j ==> fits_i64(#[trigger] pos_x_after(*self, i)) && fits_i64(
                        pos_y_after(*self, i),
                    ) && fits_i64(pos_z_after(*self, i)),
            decreases k - j,
        {
            proof {
                let d = j as int;
                assert((d + 1) * self.velocity.x == d * self.velocity.x + self.velocity.x)
                    by (nonlinear_arith);
                assert((d + 1) * self.velocity.y == d * self.velocity.y + self.velocity.y)
                    by (nonlinear_arith);
                assert((d + 1) * self.velocity.z == d * self.velocity.z + self.velocity.z)
                    by (nonlinear_arith);
            }
            let nx = match x.checked_add(self.velocity.x) {
                Some(v) => v,
                None => {
                    proof {
                        lemma_unfit_step(*self, j as int + 1, k as int);
                    }
                    return false;
                },
            };
            let ny = match y.checked_add(self.velocity.y) {
                Some(v) => v,
                None => {
                    proof {
                        lemma_unfit_step(*self, j as int + 1, k as int);
                    }
                    return false;
                },
            };
            let nz = match z.checked_add(self.velocity.z) {
                Some(v) => v,
                None => {
                    proof {
                        lemma_unfit_step(*self, j as int + 1, k as int);
                    }
                    return false;
                },
            };
            x = nx;
            y = ny;
            z = nz;
            j = j + 1;
        }
        true
    }

    /// Advance the position by the velocity, component-wise, exactly once.
    /// The id and the velocity are untouched.
    pub fn update_position(&mut self)
        requires
            fits_i64(pos_x_after(*old(self), 1)),
            fits_i64(pos_y_after(*old(self), 1)),
            fits_i64(pos_z_after(*old(self), 1)),
        ensures
            final(self).id == old(self).id,
            final(self).velocity == old(self).velocity,
            final(self).position.x == pos_x_after(*old(self), 1),
            final(self).position.y == pos_y_after(*old(self), 1),
            final(self).position.z == pos_z_after(*old(self), 1),
    {
        self.position.x = self.position.x + self.velocity.x;
        self.position.y = self.position.y + self.velocity.y;
        self.position.z = self.position.z + self.velocity.z;
    }
}

} // verus!
