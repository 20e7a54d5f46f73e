//! A pursuing bug: a seek-steering agent that steps straight toward its
//! target at its current speed.

use vstd::prelude::*;

use crate::numeric::{
    clamp_i128_to_i64, clamp_spec, div_trunc_i128, div_trunc_spec, isqrt, sqrt_floor,
};
use crate::{SPEED_LIMIT, WORLD_LIMIT};

verus! {

/// One bug: position in milli-units, speed in milli-units per frame.
#[derive(Clone, Copy, Debug, PartialEq, Eq, Structural)]
pub struct Bug {
    /// World x coordinate, milli-units.
    pub x: i64,
    /// World z coordinate, milli-units.
    pub z: i64,
    /// Step length per frame, milli-units.
    pub speed: i64,
}

impl Bug {
    /// Well-formed bug state: position and speed bounded.
    pub open spec fn wf(self) -> bool {
        &&& -WORLD_LIMIT <= self.x <= WORLD_LIMIT
        &&& -WORLD_LIMIT <= self.z <= WORLD_LIMIT
        &&& 0 <= self.speed <= SPEED_LIMIT
    }

    /// A new bug starts at the base speed of 0.12 units per frame.
    pub fn new(x: i64, z: i64) -> (b: Bug)
        ensures
            b == (Bug { x, z, speed: 120 }),
    {
        Bug { x, z, speed: 120 }
    }

    /// One frame of pursuit toward `(px, pz)`: if the distance to the
    /// target exceeds 0.1 units, step `speed` along the straight line
    /// toward it; otherwise hold position exactly.
    #[verifier::opaque]
    pub open spec fn step_spec(self, px: int, pz: int) -> Bug {
        let dx = px - self.x;
        let dz = pz - self.z;
        let dist = sqrt_floor(dx * dx + dz * dz);
        if dist > 100 {
            let sx = div_trunc_spec(dx * self.speed, dist);
            let sz = div_trunc_spec(dz * self.speed, dist);
            Bug {
                x: clamp_spec(self.x + sx, -WORLD_LIMIT as int, WORLD_LIMIT as int) as i64,
                z: clamp_spec(self.z + sz, -WORLD_LIMIT as int, WORLD_LIMIT as int) as i64,
                speed: self.speed,
            }
        } else {
            self
        }
    }

    /// Advances the bug one frame toward the target position.
    pub fn update(&mut self, px: i64, pz: i64)
        requires
            old(self).wf(),
            -WORLD_LIMIT <= px <= WORLD_LIMIT,
            -WORLD_LIMIT <= pz <= WORLD_LIMIT,
        ensures
            *final(self) == old(self).step_spec(px as int, pz as int),
            final(self).wf(),
    {
        proof {
            reveal(Bug::step_spec);
        }
        let dx = px - self.x;
        let dz = pz - self.z;
        proof {
            assert(0 <= (dx as int) * (dx as int) <= 4_000_000_000_000_000_000_000_000)
                by (nonlinear_arith)
                requires
                    -2_000_000_000_000 <= dx as int <= 2_000_000_000_000,
            ;
            assert(0 <= (dz as int) * (dz as int) <= 4_000_000_000_000_000_000_000_000)
                by (nonlinear_arith)
                requires
                    -2_000_000_000_000 <= dz as int <= 2_000_000_000_000,
            ;
        }
        let dx2 = (dx as i128) * (dx as i128);
        let dz2 = (dz as i128) * (dz as i128);
        let nsq = dx2 + dz2;
        let dist = isqrt(nsq as u128);
        if dist > 100 {
            let d = dist as i128;
            proof {
                assert(
                    -2_000_000_000_000_000_000_000_000 <= (dx as int) * (self.speed as int)
                        <= 2_000_000_000_000_000_000_000_000
                ) by (nonlinear_arith)
                    requires
                        -2_000_000_000_000 <= dx as int <= 2_000_000_000_000,
                        0 <= self.speed as int <= 1_000_000_000,
                ;
                assert(
                    -2_000_000_000_000_000_000_000_000 <= (dz as int) * (self.speed as int)
                        <= 2_000_000_000_000_000_000_000_000
                ) by (nonlinear_arith)
                    requires
                        -2_000_000_000_000 <= dz as int <= 2_000_000_000_000,
                        0 <= self.speed as int <= 1_000_000_000,
                ;
            }
            let px_wide = (dx as i128) * (self.speed as i128);
            let pz_wide = (dz as i128) * (self.speed as i128);
            let sx = div_trunc_i128(px_wide, d);
            let sz = div_trunc_i128(pz_wide, d);
            self.x = clamp_i128_to_i64(self.x as i128 + sx, -WORLD_LIMIT, WORLD_LIMIT);
            self.z = clamp_i128_to_i64(self.z as i128 + sz, -WORLD_LIMIT, WORLD_LIMIT);
        }
    }
}

} // verus!
