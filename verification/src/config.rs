use vstd::prelude::*;

verus! {

/// Run-wide constants: population size `n`, steps per task `k`, the inter-step
/// delay in milliseconds, and the half-open sampling ranges for the initial
/// position and velocity. Coordinates are fixed-point: thousandths of a unit.
#[derive(Clone, Copy, Debug, PartialEq, Eq, Structural)]
pub struct SimConfig {
    pub n: usize,
    pub k: usize,
    pub delay_ms: u64,
    pub pos_lo: i64,
    pub pos_hi: i64,
    pub vel_lo: i64,
    pub vel_hi: i64,
}

/// The largest magnitude a sample drawn from the half-open range `[lo, hi)`
/// can have.
pub open spec fn mag_bound(lo: i64, hi: i64) -> int {
    if -(lo as int) >= hi as int - 1 {
        -(lo as int)
    } else {
        hi as int - 1
    }
}

impl SimConfig {
    /// Both sampling ranges are nonempty, and they are narrow enough that `k`
    /// steps from any sampled state keep every coordinate representable.
    pub open spec fn wf(self) -> bool {
        &&& self.pos_lo < self.pos_hi
        &&& self.vel_lo < self.vel_hi
        &&& mag_bound(self.pos_lo, self.pos_hi) + (self.k as int) * mag_bound(self.vel_lo, self.vel_hi)
            <= i64::MAX as int
    }
}

impl Default for SimConfig {
    /// Five particles taking ten steps of a tenth of a second each; positions
    /// start in [0, 10) units and velocities in [-1, 1) units per step.
    fn default() -> (c: Self)
        ensures
            c == (SimConfig {
                n: 5,
                k: 10,
                delay_ms: 100,
                pos_lo: 0,
                pos_hi: 10_000,
                vel_lo: -1000i64,
                vel_hi: 1000,
            }),
            c.wf(),
    {
        SimConfig {
            n: 5,
            k: 10,
            delay_ms: 100,
            pos_lo: 0,
            pos_hi: 10_000,
            vel_lo: -1000i64,
            vel_hi: 1000,
        }
    }
}

} // verus!
