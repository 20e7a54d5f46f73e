//! The pushable ball: velocity-damped Euler integration with a cosmetic
//! rolling angle.

use vstd::prelude::*;

use crate::numeric::{
    clamp_i64, clamp_spec, damp_velocity, div_trunc_spec, isqrt, sqrt_floor, wrap_angle,
};
use crate::{BALL_VEL_LIMIT, TAU_MRAD, WORLD_LIMIT};

verus! {

/// The ball: position and velocity in milli-units, rotation in
/// milliradians.
pub struct Ball {
    /// World x coordinate, milli-units.
    pub x: i64,
    /// World z coordinate, milli-units.
    pub z: i64,
    /// Velocity along x, milli-units per frame.
    pub vx: i64,
    /// Velocity along z, milli-units per frame.
    pub vz: i64,
    /// Accumulated rolling angle, normalized to `[0, TAU_MRAD)`.
    pub rotation: i64,
}

impl Ball {
    /// Well-formed ball state: position and velocity bounded, rotation
    /// normalized.
    pub open spec fn wf(self) -> bool {
        &&& -WORLD_LIMIT <= self.x <= WORLD_LIMIT
        &&& -WORLD_LIMIT <= self.z <= WORLD_LIMIT
        &&& -BALL_VEL_LIMIT <= self.vx <= BALL_VEL_LIMIT
        &&& -BALL_VEL_LIMIT <= self.vz <= BALL_VEL_LIMIT
        &&& 0 <= self.rotation < TAU_MRAD
    }

    /// The starting ball: at rest at (5, 5) world units.
    pub open spec fn new_spec() -> Ball {
        Ball { x: 5000, z: 5000, vx: 0, vz: 0, rotation: 0 }
    }

    /// Creates the starting ball.
    pub fn new() -> (b: Ball)
        ensures
            b == Ball::new_spec(),
            b.wf(),
    {
        Ball { x: 5000, z: 5000, vx: 0, vz: 0, rotation: 0 }
    }

    /// One frame of ball physics: drag of 19/20 on each velocity axis,
    /// position integration, rotation advanced by five times the speed.
    #[verifier::opaque]
    pub open spec fn step_spec(self) -> Ball {
        let vx = div_trunc_spec(self.vx * 19, 20);
        let vz = div_trunc_spec(self.vz * 19, 20);
        let x = clamp_spec(self.x + vx, -WORLD_LIMIT as int, WORLD_LIMIT as int);
        let z = clamp_spec(self.z + vz, -WORLD_LIMIT as int, WORLD_LIMIT as int);
        let sp = sqrt_floor(vx * vx + vz * vz);
        let rotation = (self.rotation + sp * 5) % (TAU_MRAD as int);
        Ball {
            x: x as i64,
            z: z as i64,
            vx: vx as i64,
            vz: vz as i64,
            rotation: rotation as i64,
        }
    }

    /// Advances the ball by one frame.
    pub fn update(&mut self)
        requires
            old(self).wf(),
        ensures
            *final(self) == old(self).step_spec(),
            final(self).wf(),
    {
        proof {
            reveal(Ball::step_spec);
        }
        let vx = damp_velocity(self.vx);
        let vz = damp_velocity(self.vz);
        self.vx = vx;
        self.vz = vz;
        self.x = clamp_i64(self.x + vx, -WORLD_LIMIT, WORLD_LIMIT);
        self.z = clamp_i64(self.z + vz, -WORLD_LIMIT, WORLD_LIMIT);
        proof {
            assert(0 <= vx * vx <= 90000) by (nonlinear_arith)
                requires
                    -300 <= vx <= 300,
            ;
            assert(0 <= vz * vz <= 90000) by (nonlinear_arith)
                requires
                    -300 <= vz <= 300,
            ;
        }
        let nsq = vx * vx + vz * vz;
        let sp = isqrt(nsq as u128) as i64;
        proof {
            assert(sp <= 425) by (nonlinear_arith)
                requires
                    sp as int * sp as int <= nsq as int,
                    nsq <= 2 * 300 * 300,
                    sp >= 0,
            ;
        }
        self.rotation = wrap_angle(self.rotation + sp * 5);
    }
}

} // verus!
