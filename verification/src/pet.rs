//! The pet: vitality stats with a once-per-second decay tick, life
//! state, movement and look integration, and the three care actions.

use vstd::arithmetic::div_mod::{lemma_div_is_ordered, lemma_div_pos_is_pos};
use vstd::prelude::*;

use crate::numeric::{
    clamp_i64, clamp_spec, damp_velocity, div_trunc, div_trunc_spec, isqrt, sqrt_floor,
    wrap_angle,
};
use crate::trig::{cos_mrad, cos_mrad_spec, sin_mrad, sin_mrad_spec};
use crate::{HALF_PI_MRAD, PET_VEL_LIMIT, STAT_MAX, STAT_SAT, TAU_MRAD, TIME_LIMIT, WORLD_LIMIT};

verus! {

/// The movement input sampled for one frame.
#[derive(Clone, Copy, Debug)]
pub struct MoveInput {
    /// A forward key is held.
    pub forward: bool,
    /// A backward key is held.
    pub backward: bool,
    /// A left key is held.
    pub left: bool,
    /// A right key is held.
    pub right: bool,
    /// Horizontal mouse delta for the frame, milli-screen-units.
    pub mouse_dx: i32,
    /// Vertical mouse delta for the frame, milli-screen-units.
    pub mouse_dy: i32,
}

impl MoveInput {
    /// Whether any movement key is held.
    pub open spec fn any_key(self) -> bool {
        self.forward || self.backward || self.left || self.right
    }

    /// Input with no keys held and no mouse motion.
    pub fn idle() -> (r: MoveInput)
        ensures
            !r.any_key(),
            r.mouse_dx == 0,
            r.mouse_dy == 0,
    {
        MoveInput {
            forward: false,
            backward: false,
            left: false,
            right: false,
            mouse_dx: 0,
            mouse_dy: 0,
        }
    }
}

/// The pet itself. Stats are milli-points, positions and velocities
/// milli-units, angles milliradians, times milliseconds.
pub struct Pet {
    /// The pet's name.
    pub name: String,
    /// Hunger; 100 points is starvation.
    pub hunger: i64,
    /// Happiness.
    pub happiness: i64,
    /// Energy; 0 points is exhaustion.
    pub energy: i64,
    /// Whether the pet lives.
    pub is_alive: bool,
    /// When the once-per-second stat tick last fired.
    pub last_update: i64,
    /// World x coordinate.
    pub x: i64,
    /// Elevation; unused by movement.
    pub y: i64,
    /// World z coordinate.
    pub z: i64,
    /// Velocity along x per frame.
    pub vx: i64,
    /// Velocity along z per frame.
    pub vz: i64,
    /// Rolling-animation angle, normalized.
    pub rotation_v: i64,
    /// Look pitch, clamped to a quarter turn less a margin.
    pub pitch: i64,
    /// Facing yaw, normalized.
    pub yaw: i64,
    /// True when no movement key is held and the pet barely moves;
    /// gates the care actions.
    pub is_stationary: bool,
    /// When this life began.
    pub start_time: i64,
    /// When this life ended; set once, never overwritten.
    pub death_time: Option<i64>,
}

impl Pet {
    /// Well-formed pet state.
    pub open spec fn wf(self) -> bool {
        &&& -STAT_SAT <= self.hunger <= STAT_SAT
        &&& -STAT_SAT <= self.happiness <= STAT_SAT
        &&& -STAT_SAT <= self.energy <= STAT_SAT
        &&& -WORLD_LIMIT <= self.x <= WORLD_LIMIT
        &&& -WORLD_LIMIT <= self.z <= WORLD_LIMIT
        &&& -PET_VEL_LIMIT <= self.vx <= PET_VEL_LIMIT
        &&& -PET_VEL_LIMIT <= self.vz <= PET_VEL_LIMIT
        &&& 0 <= self.yaw < TAU_MRAD
        &&& 0 <= self.rotation_v < TAU_MRAD
        &&& -1500 <= self.pitch <= 1500
        &&& 0 <= self.last_update <= TIME_LIMIT
        &&& 0 <= self.start_time <= TIME_LIMIT
        &&& (self.is_alive <==> self.death_time is None)
        &&& match self.death_time {
            Option::Some(t) => 0 <= t <= TIME_LIMIT,
            Option::None => true,
        }
    }

    /// A newborn pet: half-full stats, at the origin, facing forward,
    /// timers started at `now_ms`.
    pub fn new(name: String, now_ms: i64) -> (p: Pet)
        requires
            0 <= now_ms <= TIME_LIMIT,
        ensures
            p.name == name,
            p.hunger == 50_000,
            p.happiness == 50_000,
            p.energy == 50_000,
            p.is_alive,
            p.death_time is None,
            p.last_update == now_ms,
            p.start_time == now_ms,
            p.x == 0 && p.y == 0 && p.z == 0,
            p.vx == 0 && p.vz == 0,
            p.rotation_v == 0 && p.pitch == 0 && p.yaw == 0,
            p.is_stationary,
            p.wf(),
    {
        Pet {
            name,
            hunger: 50_000,
            happiness: 50_000,
            energy: 50_000,
            is_alive: true,
            last_update: now_ms,
            x: 0,
            y: 0,
            z: 0,
            vx: 0,
            vz: 0,
            rotation_v: 0,
            pitch: 0,
            yaw: 0,
            is_stationary: true,
            start_time: now_ms,
            death_time: Option::None,
        }
    }

    /// One frame of the pet simulation. A dead pet is left untouched.
    /// While alive: classify stationarity from the keys and the incoming
    /// velocity; run the once-per-second stat tick; damp the velocity by
    /// 19/20; in first person, turn by the mouse; accelerate along the
    /// held keys (turning instead of strafing in third person);
    /// integrate the position; advance the rolling angle; charge the
    /// movement cost; die on starvation or exhaustion, recording the
    /// time once; and clamp the stats into their nominal range.
    #[verifier::opaque]
    pub open spec fn step_spec(p: Pet, inp: MoveInput, first_person: bool, now: int) -> Pet {
        if !p.is_alive {
            p
        } else {
            let keys = inp.any_key();
            let stationary = !keys && p.vx * p.vx + p.vz * p.vz < 100;
            let ticked = now - p.last_update > 1000;
            let hunger1 = if ticked {
                p.hunger + 1000
            } else {
                p.hunger as int
            };
            let happiness1 = if ticked {
                p.happiness - 250
            } else {
                p.happiness as int
            };
            let energy1 = if ticked {
                if keys {
                    p.energy - 500
                } else {
                    p.energy + 1000
                }
            } else {
                p.energy as int
            };
            let last_update1 = if ticked {
                now
            } else {
                p.last_update as int
            };
            let vx1 = div_trunc_spec(p.vx * 19, 20);
            let vz1 = div_trunc_spec(p.vz * 19, 20);
            let yaw1 = if first_person {
                (p.yaw + 3 * inp.mouse_dx) % (TAU_MRAD as int)
            } else {
                p.yaw as int
            };
            let pitch1 = if first_person {
                clamp_spec(p.pitch - 3 * inp.mouse_dy, -1500, 1500)
            } else {
                p.pitch as int
            };
            let left_angle = (yaw1 - HALF_PI_MRAD) % (TAU_MRAD as int);
            let right_angle = (yaw1 + HALF_PI_MRAD) % (TAU_MRAD as int);
            let vx2 = vx1 + (if inp.forward {
                div_trunc_spec(sin_mrad_spec(yaw1) * 20, 1000)
            } else {
                0
            }) - (if inp.backward {
                div_trunc_spec(sin_mrad_spec(yaw1) * 20, 1000)
            } else {
                0
            }) + (if first_person && inp.left {
                div_trunc_spec(sin_mrad_spec(left_angle) * 20, 1000)
            } else {
                0
            }) + (if first_person && inp.right {
                div_trunc_spec(sin_mrad_spec(right_angle) * 20, 1000)
            } else {
                0
            });
            let vz2 = vz1 + (if inp.forward {
                div_trunc_spec(cos_mrad_spec(yaw1) * 20, 1000)
            } else {
                0
            }) - (if inp.backward {
                div_trunc_spec(cos_mrad_spec(yaw1) * 20, 1000)
            } else {
                0
            }) + (if first_person && inp.left {
                div_trunc_spec(cos_mrad_spec(left_angle) * 20, 1000)
            } else {
                0
            }) + (if first_person && inp.right {
                div_trunc_spec(cos_mrad_spec(right_angle) * 20, 1000)
            } else {
                0
            });
            let yaw2 = if first_person {
                yaw1
            } else {
                (yaw1 + (if inp.left {
                    -50int
                } else {
                    0int
                }) + (if inp.right {
                    50int
                } else {
                    0int
                })) % (TAU_MRAD as int)
            };
            let moved = inp.forward || inp.backward || (first_person && (inp.left || inp.right));
            let x1 = clamp_spec(p.x + vx2, -WORLD_LIMIT as int, WORLD_LIMIT as int);
            let z1 = clamp_spec(p.z + vz2, -WORLD_LIMIT as int, WORLD_LIMIT as int);
            let sp = sqrt_floor(vx2 * vx2 + vz2 * vz2);
            let dot = vx2 * sin_mrad_spec(yaw2) + vz2 * cos_mrad_spec(yaw2);
            let rot1 = if dot > 0 {
                (p.rotation_v + sp * 5) % (TAU_MRAD as int)
            } else {
                (p.rotation_v - sp * 5) % (TAU_MRAD as int)
            };
            let hunger2 = if moved {
                hunger1 + 20
            } else {
                hunger1
            };
            let energy2 = if moved {
                energy1 - 50
            } else {
                energy1
            };
            let alive = !(hunger2 >= STAT_MAX || energy2 <= 0);
            let death_time1 = if !alive && p.death_time is None {
                Option::Some(now as i64)
            } else {
                p.death_time
            };
            Pet {
                name: p.name,
                hunger: clamp_spec(hunger2, 0, STAT_MAX as int) as i64,
                happiness: clamp_spec(happiness1, 0, STAT_MAX as int) as i64,
                energy: clamp_spec(energy2, 0, STAT_MAX as int) as i64,
                is_alive: alive,
                last_update: last_update1 as i64,
                x: x1 as i64,
                y: p.y,
                z: z1 as i64,
                vx: vx2 as i64,
                vz: vz2 as i64,
                rotation_v: rot1 as i64,
                pitch: pitch1 as i64,
                yaw: yaw2 as i64,
                is_stationary: stationary,
                start_time: p.start_time,
                death_time: death_time1,
            }
        }
    }

    /// Advances the pet by one frame.
    #[verifier::rlimit(100)]
    pub fn update(&mut self, inp: MoveInput, first_person: bool, now_ms: i64)
        requires
            old(self).wf(),
            0 <= now_ms <= TIME_LIMIT,
        ensures
            *final(self) == Pet::step_spec(*old(self), inp, first_person, now_ms as int),
            final(self).wf(),
            old(self).is_alive ==> 0 <= final(self).hunger <= STAT_MAX,
            old(self).is_alive ==> 0 <= final(self).happiness <= STAT_MAX,
            old(self).is_alive ==> 0 <= final(self).energy <= STAT_MAX,
            old(self).death_time is Some ==> final(self).death_time == old(self).death_time,
            final(self).start_time == old(self).start_time,
    {
        proof {
            reveal(Pet::step_spec);
        }
        if !self.is_alive {
            return ;
        }
        let keys = inp.forward || inp.backward || inp.left || inp.right;
        proof {
            assert(0 <= self.vx * self.vx <= 1_440_000) by (nonlinear_arith)
                requires
                    -1200 <= self.vx <= 1200,
            ;
            assert(0 <= self.vz * self.vz <= 1_440_000) by (nonlinear_arith)
                requires
                    -1200 <= self.vz <= 1200,
            ;
        }
        let stationary = !keys && self.vx * self.vx + self.vz * self.vz < 100;
        let ticked = now_ms - self.last_update > 1000;
        let hunger1: i64 = if ticked {
            self.hunger + 1000
        } else {
            self.hunger
        };
        let happiness1: i64 = if ticked {
            self.happiness - 250
        } else {
            self.happiness
        };
        let energy1: i64 = if ticked {
            if keys {
                self.energy - 500
            } else {
                self.energy + 1000
            }
        } else {
            self.energy
        };
        let last_update1: i64 = if ticked {
            now_ms
        } else {
            self.last_update
        };
        let vx1 = damp_velocity(self.vx);
        let vz1 = damp_velocity(self.vz);
        let yaw1: i64 = if first_person {
            wrap_angle(self.yaw + 3 * (inp.mouse_dx as i64))
        } else {
            self.yaw
        };
        let pitch1: i64 = if first_person {
            clamp_i64(self.pitch - 3 * (inp.mouse_dy as i64), -1500, 1500)
        } else {
            self.pitch
        };
        let left_angle = wrap_angle(yaw1 - HALF_PI_MRAD);
        let right_angle = wrap_angle(yaw1 + HALF_PI_MRAD);
        let mut vx2: i64 = vx1;
        let mut vz2: i64 = vz1;
        if inp.forward {
            vx2 = vx2 + accel_from(sin_mrad(yaw1));
            vz2 = vz2 + accel_from(cos_mrad(yaw1));
        }
        if inp.backward {
            vx2 = vx2 - accel_from(sin_mrad(yaw1));
            vz2 = vz2 - accel_from(cos_mrad(yaw1));
        }
        if first_person && inp.left {
            vx2 = vx2 + accel_from(sin_mrad(left_angle));
            vz2 = vz2 + accel_from(cos_mrad(left_angle));
        }
        if first_person && inp.right {
            vx2 = vx2 + accel_from(sin_mrad(right_angle));
            vz2 = vz2 + accel_from(cos_mrad(right_angle));
        }
        let yaw2: i64 = if first_person {
            yaw1
        } else {
            let mut turn: i64 = 0;
            if inp.left {
                turn = turn - 50;
            }
            if inp.right {
                turn = turn + 50;
            }
            wrap_angle(yaw1 + turn)
        };
        let moved = inp.forward || inp.backward || (first_person && (inp.left || inp.right));
        let x1 = clamp_i64(self.x + vx2, -WORLD_LIMIT, WORLD_LIMIT);
        let z1 = clamp_i64(self.z + vz2, -WORLD_LIMIT, WORLD_LIMIT);
        proof {
            assert(0 <= vx2 * vx2 <= 1_440_000) by (nonlinear_arith)
                requires
                    -1200 <= vx2 <= 1200,
            ;
            assert(0 <= vz2 * vz2 <= 1_440_000) by (nonlinear_arith)
                requires
                    -1200 <= vz2 <= 1200,
            ;
        }
        let nsq = vx2 * vx2 + vz2 * vz2;
        let sp = isqrt(nsq as u128) as i64;
        proof {
            assert(sp <= 1697) by (nonlinear_arith)
                requires
                    sp as int * sp as int <= nsq as int,
                    nsq <= 2_880_000,
                    sp >= 0,
            ;
        }
        let sy = sin_mrad(yaw2);
        let cy = cos_mrad(yaw2);
        proof {
            assert(-1_200_000 <= vx2 * sy <= 1_200_000) by (nonlinear_arith)
                requires
                    -1200 <= vx2 <= 1200,
                    -1000 <= sy <= 1000,
            ;
            assert(-1_200_000 <= vz2 * cy <= 1_200_000) by (nonlinear_arith)
                requires
                    -1200 <= vz2 <= 1200,
                    -1000 <= cy <= 1000,
            ;
        }
        let dot = vx2 * sy + vz2 * cy;
        let rot1 = if dot > 0 {
            wrap_angle(self.rotation_v + sp * 5)
        } else {
            wrap_angle(self.rotation_v - sp * 5)
        };
        let hunger2: i64 = if moved {
            hunger1 + 20
        } else {
            hunger1
        };
        let energy2: i64 = if moved {
            energy1 - 50
        } else {
            energy1
        };
        let alive = !(hunger2 >= STAT_MAX || energy2 <= 0);
        if !alive {
            self.is_alive = false;
            if self.death_time.is_none() {
                self.death_time = Option::Some(now_ms);
            }
        }
        self.hunger = clamp_i64(hunger2, 0, STAT_MAX);
        self.happiness = clamp_i64(happiness1, 0, STAT_MAX);
        self.energy = clamp_i64(energy2, 0, STAT_MAX);
        self.last_update = last_update1;
        self.x = x1;
        self.z = z1;
        self.vx = vx2;
        self.vz = vz2;
        self.rotation_v = rot1;
        self.pitch = pitch1;
        self.yaw = yaw2;
        self.is_stationary = stationary;
    }

    /// Feeding lowers hunger by 15 points; it works only while the pet
    /// is alive and stationary, and changes nothing otherwise. The
    /// nominal clamp happens on the next frame, not here.
    pub fn feed(&mut self) -> (r: bool)
        requires
            old(self).wf(),
        ensures
            r == (old(self).is_alive && old(self).is_stationary),
            !r ==> *final(self) == *old(self),
            r ==> *final(self) == (Pet {
                hunger: clamp_spec(
                    old(self).hunger - 15_000,
                    -STAT_SAT as int,
                    STAT_SAT as int,
                ) as i64,
                ..*old(self)
            }),
            final(self).wf(),
    {
        if self.is_alive && self.is_stationary {
            self.hunger = clamp_i64(self.hunger - 15_000, -STAT_SAT, STAT_SAT);
            true
        } else {
            false
        }
    }

    /// Playing raises happiness by 15 points and costs 10 points of
    /// energy; it works only while the pet is alive and stationary, and
    /// changes nothing otherwise.
    pub fn play(&mut self) -> (r: bool)
        requires
            old(self).wf(),
        ensures
            r == (old(self).is_alive && old(self).is_stationary),
            !r ==> *final(self) == *old(self),
            r ==> *final(self) == (Pet {
                happiness: clamp_spec(
                    old(self).happiness + 15_000,
                    -STAT_SAT as int,
                    STAT_SAT as int,
                ) as i64,
                energy: clamp_spec(
                    old(self).energy - 10_000,
                    -STAT_SAT as int,
                    STAT_SAT as int,
                ) as i64,
                ..*old(self)
            }),
            final(self).wf(),
    {
        if self.is_alive && self.is_stationary {
            self.happiness = clamp_i64(self.happiness + 15_000, -STAT_SAT, STAT_SAT);
            self.energy = clamp_i64(self.energy - 10_000, -STAT_SAT, STAT_SAT);
            true
        } else {
            false
        }
    }

    /// Sleeping restores 20 points of energy and adds 5 points of
    /// hunger; it works only while the pet is alive and stationary, and
    /// changes nothing otherwise.
    pub fn sleep(&mut self) -> (r: bool)
        requires
            old(self).wf(),
        ensures
            r == (old(self).is_alive && old(self).is_stationary),
            !r ==> *final(self) == *old(self),
            r ==> *final(self) == (Pet {
                energy: clamp_spec(
                    old(self).energy + 20_000,
                    -STAT_SAT as int,
                    STAT_SAT as int,
                ) as i64,
                hunger: clamp_spec(
                    old(self).hunger + 5_000,
                    -STAT_SAT as int,
                    STAT_SAT as int,
                ) as i64,
                ..*old(self)
            }),
            final(self).wf(),
    {
        if self.is_alive && self.is_stationary {
            self.energy = clamp_i64(self.energy + 20_000, -STAT_SAT, STAT_SAT);
            self.hunger = clamp_i64(self.hunger + 5_000, -STAT_SAT, STAT_SAT);
            true
        } else {
            false
        }
    }

    /// How long this life has lasted: up to `now_ms` while alive, frozen
    /// at the recorded time of death afterwards.
    pub fn survival_ms(&self, now_ms: i64) -> (r: i64)
        requires
            self.wf(),
            0 <= now_ms <= TIME_LIMIT,
        ensures
            r == match self.death_time {
                Option::Some(t) => t - self.start_time,
                Option::None => now_ms - self.start_time,
            },
    {
        match self.death_time {
            Option::Some(t) => t - self.start_time,
            Option::None => now_ms - self.start_time,
        }
    }
}

/// The nominal stat range is an inductive invariant of the frame
/// update: a pet whose stats lie in `[0, STAT_MAX]` keeps them there
/// through any update, whatever the input, whether it lives or dies.
/// With `Pet::new` starting at the midpoint, stats stay nominal after
/// any sequence of updates.
pub proof fn lemma_update_keeps_stats_nominal(p: Pet, inp: MoveInput, fp: bool, now: int)
    requires
        0 <= p.hunger <= STAT_MAX,
        0 <= p.happiness <= STAT_MAX,
        0 <= p.energy <= STAT_MAX,
    ensures
        ({
            let q = Pet::step_spec(p, inp, fp, now);
            &&& 0 <= q.hunger <= STAT_MAX
            &&& 0 <= q.happiness <= STAT_MAX
            &&& 0 <= q.energy <= STAT_MAX
        }),
{
    reveal(Pet::step_spec);
}

/// The per-key acceleration: a trig component in milli scaled by the
/// per-frame acceleration of 0.02 units.
fn accel_from(s: i64) -> (r: i64)
    requires
        -1000 <= s <= 1000,
    ensures
        r == div_trunc_spec(s as int * 20, 1000),
        -20 <= r <= 20,
{
    proof {
        if s >= 0 {
            lemma_div_pos_is_pos(s as int * 20, 1000);
            lemma_div_is_ordered(s as int * 20, 20000, 1000);
        } else {
            lemma_div_pos_is_pos(-(s as int * 20), 1000);
            lemma_div_is_ordered(-(s as int * 20), 20000, 1000);
        }
    }
    div_trunc(s * 20, 1000)
}

} // verus!
