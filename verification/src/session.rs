//! The session controller: per-frame orchestration of the pet, the
//! ball, and the bug swarm, the spawn and difficulty timers, the camera
//! mode, the HUD message, and the naming / playing / dead / renaming
//! lifecycle.

use vstd::arithmetic::div_mod::{lemma_div_is_ordered, lemma_div_pos_is_pos};
use vstd::prelude::*;

use crate::ball::Ball;
use crate::bug::Bug;
use crate::numeric::{clamp_i64, clamp_spec, div_trunc, div_trunc_spec, isqrt, sqrt_floor};
use crate::pet::{MoveInput, Pet};
use crate::trig::{cos_mrad, cos_mrad_spec, sin_mrad, sin_mrad_spec};
use crate::{SPEED_LIMIT, STAT_SAT, TAU_MRAD, TIME_LIMIT, WORLD_LIMIT};

verus! {

/// The camera perspective.
#[derive(Clone, Copy, Debug, PartialEq, Eq, Structural)]
pub enum CameraMode {
    /// Looking out of the pet's head.
    FirstPerson,
    /// Following the pet from behind.
    ThirdPerson,
}

/// Where the session stands in its lifecycle.
#[derive(Clone, Copy, Debug, PartialEq, Eq, Structural)]
pub enum Phase {
    /// Waiting for the first name.
    Naming,
    /// The simulation runs.
    Playing,
    /// The pet has died; waiting for a restart request.
    Dead,
    /// Waiting for the new name after a restart request.
    Renaming,
}

/// What the HUD currently reports. The presentation layer renders the
/// words; the pet's name is available beside it.
#[derive(Clone, Copy, Debug, PartialEq, Eq, Structural)]
pub enum Message {
    /// The opening greeting.
    Welcome,
    /// The greeting after a restart.
    WelcomeBack,
    /// The camera switched to the given mode.
    SwitchedPov(CameraMode),
    /// A bug is within two units of the pet.
    BugWarning,
    /// A bug reached the pet.
    KilledByBug,
    /// The difficulty speed went up.
    SpeedIncreased,
    /// The pet was fed.
    Fed,
    /// Feeding was refused: the pet must stand still.
    FeedRefused,
    /// The pet played.
    Played,
    /// Playing was refused: the pet must stand still.
    PlayRefused,
    /// The pet sleeps.
    Sleeping,
    /// Sleeping was refused: the pet must stand still.
    SleepRefused,
}

/// The whole session state.
pub struct Session {
    /// The pet.
    pub pet: Pet,
    /// The ball.
    pub ball: Ball,
    /// The bug swarm; it only ever grows within one life.
    pub bugs: Vec<Bug>,
    /// The shared difficulty speed applied to every bug each frame.
    pub speed: i64,
    /// When the last spawn burst fired.
    pub last_spawn: i64,
    /// When the difficulty speed last rose.
    pub last_speed_increase: i64,
    /// The camera perspective.
    pub camera: CameraMode,
    /// The HUD message.
    pub message: Message,
    /// The lifecycle phase.
    pub phase: Phase,
}

/// The other camera mode.
pub open spec fn flip_camera(c: CameraMode) -> CameraMode {
    match c {
        CameraMode::FirstPerson => CameraMode::ThirdPerson,
        CameraMode::ThirdPerson => CameraMode::FirstPerson,
    }
}

/// The three bugs a fresh life starts with, placed away from the
/// origin.
pub open spec fn seed_bugs_spec() -> Seq<Bug> {
    seq![
        Bug { x: 30_000i64, z: 30_000i64, speed: 120i64 },
        Bug { x: -30_000i64, z: 45_000i64, speed: 120i64 },
        Bug { x: 45_000i64, z: -30_000i64, speed: 120i64 },
    ]
}

/// The distance between a pet and a bug.
pub open spec fn contact_dist(p: Pet, b: Bug) -> int {
    sqrt_floor((p.x - b.x) * (p.x - b.x) + (p.z - b.z) * (p.z - b.z))
}

/// What one bug does to the pet after moving: within one unit it kills
/// instantly (recording the death time once); within two units it
/// drains happiness and energy and raises a warning.
pub open spec fn apply_bug_contact(p: Pet, b: Bug, now: int, m: Message) -> (Pet, Message) {
    let d = contact_dist(p, b);
    if d < 1000 && p.is_alive {
        (
            Pet {
                is_alive: false,
                death_time: if p.death_time is None {
                    Option::Some(now as i64)
                } else {
                    p.death_time
                },
                ..p
            },
            Message::KilledByBug,
        )
    } else if d < 2000 && p.is_alive {
        (
            Pet {
                happiness: clamp_spec(p.happiness - 100, -STAT_SAT as int, STAT_SAT as int) as i64,
                energy: clamp_spec(p.energy - 50, -STAT_SAT as int, STAT_SAT as int) as i64,
                ..p
            },
            Message::BugWarning,
        )
    } else {
        (p, m)
    }
}

/// The pet and message after the first `n` bugs of the swarm have had
/// their contact resolved, in order.
pub open spec fn drain_upto(bugs: Seq<Bug>, n: int, p: Pet, now: int, m: Message) -> (Pet, Message)
    decreases n,
{
    if n <= 0 {
        (p, m)
    } else {
        let prev = drain_upto(bugs, n - 1, p, now, m);
        apply_bug_contact(prev.0, bugs[n - 1], now, prev.1)
    }
}

/// The swarm after every bug took the shared speed and stepped toward
/// the pet.
pub open spec fn moved_bugs(bugs: Seq<Bug>, speed: int, px: int, pz: int) -> Seq<Bug> {
    Seq::new(bugs.len(), |i: int| (Bug { speed: speed as i64, ..bugs[i] }).step_spec(px, pz))
}

/// A whole-degree spawn angle in milliradians.
pub open spec fn spawn_angle_mrad(deg: int) -> int {
    deg * TAU_MRAD / 360
}

/// The spawn radius: 50 units plus the capped difficulty bonus.
pub open spec fn spawn_dist(speed: int) -> int {
    50_000 + (if speed * 2 < 500_000 {
        speed * 2
    } else {
        500_000
    })
}

/// A bug spawned around `(px, pz)` at the given whole-degree angle.
pub open spec fn spawn_bug_spec(px: int, pz: int, speed: int, deg: int) -> Bug {
    let a = spawn_angle_mrad(deg);
    let d = spawn_dist(speed);
    Bug {
        x: clamp_spec(
            px + div_trunc_spec(cos_mrad_spec(a) * d, 1000),
            -WORLD_LIMIT as int,
            WORLD_LIMIT as int,
        ) as i64,
        z: clamp_spec(
            pz + div_trunc_spec(sin_mrad_spec(a) * d, 1000),
            -WORLD_LIMIT as int,
            WORLD_LIMIT as int,
        ) as i64,
        speed: 120,
    }
}

/// How one frame transforms the session, given the spawn angles that
/// chance provided: camera toggle first, then the pet, the ball, the
/// bug pass, the spawn burst, the difficulty timer, the pet–ball
/// interaction, and last the phase from the pet's life state.
#[verifier::opaque]
pub open spec fn step_post(
    s0: Session,
    s1: Session,
    inp: MoveInput,
    toggle: bool,
    now: int,
    angles: Seq<int>,
) -> bool {
    let cam = if toggle {
        flip_camera(s0.camera)
    } else {
        s0.camera
    };
    let msg0 = if toggle {
        Message::SwitchedPov(cam)
    } else {
        s0.message
    };
    let pet1 = Pet::step_spec(s0.pet, inp, cam is FirstPerson, now);
    let ball1 = s0.ball.step_spec();
    let bugs1 = moved_bugs(s0.bugs@, s0.speed as int, pet1.x as int, pet1.z as int);
    let pm = drain_upto(bugs1, bugs1.len() as int, pet1, now, msg0);
    let do_spawn = now - s0.last_spawn > 1000;
    let spawned = Seq::new(
        angles.len(),
        |i: int| spawn_bug_spec(pm.0.x as int, pm.0.z as int, s0.speed as int, angles[i]),
    );
    let do_speed = now - s0.last_speed_increase > 5000;
    let speed1 = if do_speed && s0.speed + 20 <= SPEED_LIMIT {
        s0.speed + 20
    } else {
        s0.speed as int
    };
    let msg2 = if do_speed {
        Message::SpeedIncreased
    } else {
        pm.1
    };
    let bdx = pm.0.x - ball1.x;
    let bdz = pm.0.z - ball1.z;
    let hit = sqrt_floor(bdx * bdx + bdz * bdz) < 1500;
    let ball2 = if hit {
        Ball {
            vx: div_trunc_spec(-bdx, 5) as i64,
            vz: div_trunc_spec(-bdz, 5) as i64,
            ..ball1
        }
    } else {
        ball1
    };
    let pet3 = if hit {
        Pet {
            happiness: clamp_spec(pm.0.happiness + 1000, -STAT_SAT as int, STAT_SAT as int) as i64,
            ..pm.0
        }
    } else {
        pm.0
    };
    &&& (do_spawn ==> angles.len() == 67)
    &&& (!do_spawn ==> angles.len() == 0)
    &&& s1.pet == pet3
    &&& s1.ball == ball2
    &&& s1.bugs@ == bugs1 + spawned
    &&& s1.speed == speed1
    &&& s1.last_spawn == (if do_spawn {
        now
    } else {
        s0.last_spawn as int
    })
    &&& s1.last_speed_increase == (if do_speed {
        now
    } else {
        s0.last_speed_increase as int
    })
    &&& s1.camera == cam
    &&& s1.message == msg2
    &&& s1.phase == (if pet3.is_alive {
        Phase::Playing
    } else {
        Phase::Dead
    })
}

/// Resolving bug contact keeps the pet well-formed and in place, never
/// revives it, and never rewrites a recorded death time.
pub proof fn lemma_drain_props(bugs: Seq<Bug>, n: int, p: Pet, now: int, m: Message)
    requires
        p.wf(),
        0 <= now <= TIME_LIMIT,
        n <= bugs.len(),
    ensures
        ({
            let r = drain_upto(bugs, n, p, now, m);
            &&& r.0.wf()
            &&& r.0.x == p.x && r.0.z == p.z && r.0.y == p.y
            &&& r.0.name == p.name
            &&& r.0.start_time == p.start_time
            &&& (p.death_time is Some ==> r.0.death_time == p.death_time)
            &&& (!p.is_alive ==> r.0 == p && r.1 == m)
            &&& (r.0.is_alive ==> p.is_alive)
        }),
    decreases n,
{
    if n > 0 {
        lemma_drain_props(bugs, n - 1, p, now, m);
    }
}

/// Relies on macroquad's `rand::gen_range`: it maps one PCG draw into
/// `[low, high)` through a proportional scaling, so with bounds 0 and
/// 360 it returns a whole-degree angle below 360.
#[verifier::external_body]
fn random_angle_deg() -> (r: u32)
    ensures
        r < 360,
{
    macroquad::rand::gen_range(0u32, 360u32)
}

impl Session {
    /// Well-formed session state.
    pub open spec fn wf(self) -> bool {
        &&& self.pet.wf()
        &&& self.ball.wf()
        &&& forall|i: int| 0 <= i < self.bugs@.len() ==> (#[trigger] self.bugs@[i]).wf()
        &&& 0 <= self.speed <= SPEED_LIMIT
        &&& 0 <= self.last_spawn <= TIME_LIMIT
        &&& 0 <= self.last_speed_increase <= TIME_LIMIT
        &&& (self.phase is Playing ==> self.pet.is_alive)
        &&& (self.phase is Naming ==> self.pet.is_alive)
    }

    /// A fresh session, waiting in the naming phase: an unnamed pet,
    /// the ball at its start, the three seed bugs, base speed, timers
    /// at `now_ms`.
    pub fn new(now_ms: i64) -> (s: Session)
        requires
            0 <= now_ms <= TIME_LIMIT,
        ensures
            s.wf(),
            s.phase == Phase::Naming,
            s.camera == CameraMode::ThirdPerson,
            s.message == Message::Welcome,
            s.pet.name@ == Seq::<char>::empty(),
            s.pet.is_alive,
            s.pet.start_time == now_ms,
            s.ball == Ball::new_spec(),
            s.bugs@ == seed_bugs_spec(),
            s.speed == 120,
            s.last_spawn == now_ms,
            s.last_speed_increase == now_ms,
    {
        let pet = Pet::new(String::new(), now_ms);
        let ball = Ball::new();
        let mut bugs: Vec<Bug> = Vec::new();
        bugs.push(Bug::new(30_000, 30_000));
        bugs.push(Bug::new(-30_000, 45_000));
        bugs.push(Bug::new(45_000, -30_000));
        proof {
            assert(bugs@ =~= seed_bugs_spec());
        }
        Session {
            pet,
            ball,
            bugs,
            speed: 120,
            last_spawn: now_ms,
            last_speed_increase: now_ms,
            camera: CameraMode::ThirdPerson,
            message: Message::Welcome,
            phase: Phase::Naming,
        }
    }

    /// Confirms a name while naming or renaming. An empty name is
    /// rejected and nothing changes. In the naming phase the waiting
    /// pet takes the name and play begins with the timers restarted;
    /// in the renaming phase the whole world is rebuilt: a newborn pet
    /// with the name, a fresh ball, the three seed bugs, base speed.
    pub fn confirm_name(&mut self, name: String, now_ms: i64) -> (r: bool)
        requires
            old(self).wf(),
            0 <= now_ms <= TIME_LIMIT,
            old(self).phase == Phase::Naming || old(self).phase == Phase::Renaming,
        ensures
            final(self).wf(),
            r == (name@.len() > 0),
            !r ==> *final(self) == *old(self),
            r ==> final(self).phase == Phase::Playing,
            r ==> final(self).pet.name == name,
            r ==> final(self).pet.is_alive,
            r ==> final(self).last_spawn == now_ms && final(self).last_speed_increase == now_ms,
            r && old(self).phase == Phase::Naming ==> *final(self) == (Session {
                pet: Pet { name, ..old(self).pet },
                last_spawn: now_ms,
                last_speed_increase: now_ms,
                phase: Phase::Playing,
                ..*old(self)
            }),
            r && old(self).phase == Phase::Renaming ==> final(self).pet.start_time == now_ms
                && final(self).pet.hunger == 50_000 && final(self).pet.happiness == 50_000
                && final(self).pet.energy == 50_000 && final(self).pet.x == 0
                && final(self).pet.z == 0 && final(self).ball == Ball::new_spec()
                && final(self).bugs@ == seed_bugs_spec() && final(self).speed == 120
                && final(self).message == Message::WelcomeBack
                && final(self).camera == old(self).camera,
    {
        if name.as_str().is_empty() {
            return false;
        }
        if matches!(self.phase, Phase::Naming) {
            self.pet.name = name;
            self.last_spawn = now_ms;
            self.last_speed_increase = now_ms;
            self.phase = Phase::Playing;
        } else {
            self.pet = Pet::new(name, now_ms);
            self.ball = Ball::new();
            let mut bugs: Vec<Bug> = Vec::new();
            bugs.push(Bug::new(30_000, 30_000));
            bugs.push(Bug::new(-30_000, 45_000));
            bugs.push(Bug::new(45_000, -30_000));
            proof {
                assert(bugs@ =~= seed_bugs_spec());
            }
            self.bugs = bugs;
            self.speed = 120;
            self.last_spawn = now_ms;
            self.last_speed_increase = now_ms;
            self.message = Message::WelcomeBack;
            self.phase = Phase::Playing;
        }
        true
    }

    /// Asks to restart after death: moves from the dead phase to the
    /// renaming phase and reports whether it did.
    pub fn request_restart(&mut self) -> (r: bool)
        requires
            old(self).wf(),
        ensures
            final(self).wf(),
            r == (old(self).phase is Dead),
            r ==> *final(self) == (Session { phase: Phase::Renaming, ..*old(self) }),
            !r ==> *final(self) == *old(self),
    {
        if matches!(self.phase, Phase::Dead) {
            self.phase = Phase::Renaming;
            true
        } else {
            false
        }
    }

    /// Flips the camera perspective and reports it on the HUD.
    pub fn toggle_camera(&mut self)
        requires
            old(self).wf(),
        ensures
            final(self).wf(),
            *final(self) == (Session {
                camera: flip_camera(old(self).camera),
                message: Message::SwitchedPov(flip_camera(old(self).camera)),
                ..*old(self)
            }),
    {
        self.camera = match self.camera {
            CameraMode::FirstPerson => CameraMode::ThirdPerson,
            CameraMode::ThirdPerson => CameraMode::FirstPerson,
        };
        self.message = Message::SwitchedPov(self.camera);
    }

    /// Feeds the pet and reports the outcome on the HUD.
    pub fn feed(&mut self) -> (r: bool)
        requires
            old(self).wf(),
            old(self).phase == Phase::Playing,
        ensures
            final(self).wf(),
            r == old(self).pet.is_stationary,
            r ==> *final(self) == (Session {
                pet: Pet {
                    hunger: clamp_spec(
                        old(self).pet.hunger - 15_000,
                        -STAT_SAT as int,
                        STAT_SAT as int,
                    ) as i64,
                    ..old(self).pet
                },
                message: Message::Fed,
                ..*old(self)
            }),
            !r ==> *final(self) == (Session { message: Message::FeedRefused, ..*old(self) }),
    {
        let ok = self.pet.feed();
        self.message = if ok {
            Message::Fed
        } else {
            Message::FeedRefused
        };
        ok
    }

    /// Plays with the pet and reports the outcome on the HUD.
    pub fn play(&mut self) -> (r: bool)
        requires
            old(self).wf(),
            old(self).phase == Phase::Playing,
        ensures
            final(self).wf(),
            r == old(self).pet.is_stationary,
            r ==> *final(self) == (Session {
                pet: Pet {
                    happiness: clamp_spec(
                        old(self).pet.happiness + 15_000,
                        -STAT_SAT as int,
                        STAT_SAT as int,
                    ) as i64,
                    energy: clamp_spec(
                        old(self).pet.energy - 10_000,
                        -STAT_SAT as int,
                        STAT_SAT as int,
                    ) as i64,
                    ..old(self).pet
                },
                message: Message::Played,
                ..*old(self)
            }),
            !r ==> *final(self) == (Session { message: Message::PlayRefused, ..*old(self) }),
    {
        let ok = self.pet.play();
        self.message = if ok {
            Message::Played
        } else {
            Message::PlayRefused
        };
        ok
    }

    /// Puts the pet to sleep and reports the outcome on the HUD.
    pub fn sleep(&mut self) -> (r: bool)
        requires
            old(self).wf(),
            old(self).phase == Phase::Playing,
        ensures
            final(self).wf(),
            r == old(self).pet.is_stationary,
            r ==> *final(self) == (Session {
                pet: Pet {
                    energy: clamp_spec(
                        old(self).pet.energy + 20_000,
                        -STAT_SAT as int,
                        STAT_SAT as int,
                    ) as i64,
                    hunger: clamp_spec(
                        old(self).pet.hunger + 5_000,
                        -STAT_SAT as int,
                        STAT_SAT as int,
                    ) as i64,
                    ..old(self).pet
                },
                message: Message::Sleeping,
                ..*old(self)
            }),
            !r ==> *final(self) == (Session { message: Message::SleepRefused, ..*old(self) }),
    {
        let ok = self.pet.sleep();
        self.message = if ok {
            Message::Sleeping
        } else {
            Message::SleepRefused
        };
        ok
    }

    /// How long the current life has lasted, frozen at death.
    pub fn survival_ms(&self, now_ms: i64) -> (r: i64)
        requires
            self.wf(),
            0 <= now_ms <= TIME_LIMIT,
        ensures
            r == match self.pet.death_time {
                Option::Some(t) => t - self.pet.start_time,
                Option::None => now_ms - self.pet.start_time,
            },
    {
        self.pet.survival_ms(now_ms)
    }

    /// Runs one frame while playing or dead: the camera toggle, the
    /// pet, the ball, every bug with collision and proximity drain, the
    /// once-per-second spawn burst of 67 bugs at random angles around
    /// the pet, the five-second difficulty rise of 0.02 units, and the
    /// pet–ball push. The swarm never shrinks; the difficulty speed
    /// never falls; a recorded death time is never rewritten.
    #[verifier::rlimit(100)]
    pub fn step(&mut self, inp: MoveInput, toggle_cam: bool, now_ms: i64)
        requires
            old(self).wf(),
            0 <= now_ms <= TIME_LIMIT,
            old(self).phase == Phase::Playing || old(self).phase == Phase::Dead,
        ensures
            final(self).wf(),
            final(self).phase == Phase::Playing || final(self).phase == Phase::Dead,
            (exists|angles: Seq<int>|
                (forall|i: int| 0 <= i < angles.len() ==> 0 <= #[trigger] angles[i] < 360)
                    && step_post(*old(self), *final(self), inp, toggle_cam, now_ms as int, angles)),
            final(self).bugs@.len() == old(self).bugs@.len() + (if now_ms - old(self).last_spawn
                > 1000 {
                67int
            } else {
                0int
            }),
            final(self).bugs@.len() >= old(self).bugs@.len(),
            old(self).speed <= final(self).speed,
            now_ms - old(self).last_speed_increase > 5000 && old(self).speed + 20 <= SPEED_LIMIT
                ==> final(self).speed == old(self).speed + 20,
            !(now_ms - old(self).last_speed_increase > 5000) ==> final(self).speed == old(
                self,
            ).speed,
            old(self).pet.death_time is Some ==> final(self).pet.death_time == old(
                self,
            ).pet.death_time,
    {
        let ghost s0 = *old(self);
        if toggle_cam {
            self.camera = match self.camera {
                CameraMode::FirstPerson => CameraMode::ThirdPerson,
                CameraMode::ThirdPerson => CameraMode::FirstPerson,
            };
            self.message = Message::SwitchedPov(self.camera);
        }
        let fp = matches!(self.camera, CameraMode::FirstPerson);
        self.pet.update(inp, fp, now_ms);
        self.ball.update();
        let ghost pet1 = self.pet;
        let ghost msg0 = if toggle_cam {
            Message::SwitchedPov(flip_camera(s0.camera))
        } else {
            s0.message
        };
        let ghost bugs0 = self.bugs@;
        let ghost bugs1 = moved_bugs(bugs0, self.speed as int, self.pet.x as int,
            self.pet.z as int);
        let px = self.pet.x;
        let pz = self.pet.z;
        let speed = self.speed;
        let n = self.bugs.len();
        let mut i: usize = 0;
        while i < n
            invariant
                self.bugs@.len() == bugs0.len(),
                n == bugs0.len(),
                i <= n,
                -WORLD_LIMIT <= px <= WORLD_LIMIT,
                -WORLD_LIMIT <= pz <= WORLD_LIMIT,
                0 <= speed <= SPEED_LIMIT,
                0 <= now_ms <= TIME_LIMIT,
                bugs1 == moved_bugs(bugs0, speed as int, px as int, pz as int),
                forall|k: int| 0 <= k < bugs0.len() ==> (#[trigger] bugs0[k]).wf(),
                forall|k: int| 0 <= k < i ==> self.bugs@[k] == bugs1[k],
                forall|k: int| 0 <= k < i ==> (#[trigger] self.bugs@[k]).wf(),
                forall|k: int| i <= k < n ==> self.bugs@[k] == bugs0[k],
                (self.pet, self.message) == drain_upto(bugs1, i as int, pet1, now_ms as int, msg0),
                self.pet.wf(),
                self.pet.x == px && self.pet.z == pz,
                self.ball == s0.ball.step_spec(),
                self.speed == speed,
                self.last_spawn == s0.last_spawn,
                self.last_speed_increase == s0.last_speed_increase,
                self.camera == (if toggle_cam {
                    flip_camera(s0.camera)
                } else {
                    s0.camera
                }),
                self.phase == s0.phase,
                pet1.wf(),
            decreases n - i,
        {
            proof {
                assert(self.bugs@[i as int] == bugs0[i as int]);
                assert(bugs0[i as int].wf());
            }
            let mut b = self.bugs[i];
            b.speed = speed;
            b.update(px, pz);
            self.bugs[i] = b;
            let dx = px - b.x;
            let dz = pz - b.z;
            proof {
                assert(0 <= (dx as int) * (dx as int) <= 4_000_000_000_000_000_000_000_000)
                    by (nonlinear_arith)
                    requires
                        -2_000_000_000_000 <= dx as int <= 2_000_000_000_000,
                ;
                assert(0 <= (dz as int) * (dz as int) <= 4_000_000_000_000_000_000_000_000)
                    by (nonlinear_arith)
                    requires
                        -2_000_000_000_000 <= dz as int <= 2_000_000_000_000,
                ;
            }
            let nsq = (dx as i128) * (dx as i128) + (dz as i128) * (dz as i128);
            let d = isqrt(nsq as u128);
            if d < 1000 && self.pet.is_alive {
                self.pet.is_alive = false;
                if self.pet.death_time.is_none() {
                    self.pet.death_time = Option::Some(now_ms);
                }
                self.message = Message::KilledByBug;
            } else if d < 2000 && self.pet.is_alive {
                self.pet.happiness = clamp_i64(self.pet.happiness - 100, -STAT_SAT, STAT_SAT);
                self.pet.energy = clamp_i64(self.pet.energy - 50, -STAT_SAT, STAT_SAT);
                self.message = Message::BugWarning;
            }
            i = i + 1;
        }
        proof {
            assert((self.pet, self.message) == drain_upto(
                bugs1,
                bugs1.len() as int,
                pet1,
                now_ms as int,
                msg0,
            ));
        }
        let ghost pet2 = self.pet;
        let ghost msg1 = self.message;
        let do_spawn = now_ms - self.last_spawn > 1000;
        let ghost mut angles: Seq<int> = Seq::empty();
        if do_spawn {
            let ghost bugs_mid = self.bugs@;
            let mut k: usize = 0;
            while k < 67
                invariant
                    k <= 67,
                    angles.len() == k,
                    forall|t: int| 0 <= t < k ==> 0 <= #[trigger] angles[t] < 360,
                    -WORLD_LIMIT <= px <= WORLD_LIMIT,
                    -WORLD_LIMIT <= pz <= WORLD_LIMIT,
                    0 <= speed <= SPEED_LIMIT,
                    self.bugs@.len() == bugs_mid.len() + k,
                    forall|t: int| 0 <= t < self.bugs@.len() ==> (#[trigger] self.bugs@[t]).wf(),
                    forall|t: int| 0 <= t < bugs_mid.len() ==> self.bugs@[t] == bugs_mid[t],
                    forall|t: int|
                        0 <= t < k ==> self.bugs@[bugs_mid.len() + t] == spawn_bug_spec(
                            px as int,
                            pz as int,
                            speed as int,
                            angles[t],
                        ),
                    self.pet == pet2,
                    self.message == msg1,
                    self.ball == s0.ball.step_spec(),
                    self.speed == speed,
                    self.last_spawn == s0.last_spawn,
                    self.last_speed_increase == s0.last_speed_increase,
                    self.camera == (if toggle_cam {
                        flip_camera(s0.camera)
                    } else {
                        s0.camera
                    }),
                    self.phase == s0.phase,
                decreases 67 - k,
            {
                let deg = random_angle_deg();
                let dg = deg as i64;
                let a_mrad = dg * TAU_MRAD / 360;
                proof {
                    lemma_div_pos_is_pos(dg as int * 6283, 360);
                    lemma_div_is_ordered(dg as int * 6283, 2_255_597, 360);
                }
                let c = cos_mrad(a_mrad);
                let s = sin_mrad(a_mrad);
                let dist: i64 = 50_000 + (if speed * 2 < 500_000 {
                    speed * 2
                } else {
                    500_000
                });
                proof {
                    assert(-550_000_000 <= c * dist <= 550_000_000) by (nonlinear_arith)
                        requires
                            -1000 <= c <= 1000,
                            0 <= dist <= 550_000,
                    ;
                    assert(-550_000_000 <= s * dist <= 550_000_000) by (nonlinear_arith)
                        requires
                            -1000 <= s <= 1000,
                            0 <= dist <= 550_000,
                    ;
                }
                let offx = div_trunc(c * dist, 1000);
                let offz = div_trunc(s * dist, 1000);
                let bx = clamp_i64(px + offx, -WORLD_LIMIT, WORLD_LIMIT);
                let bz = clamp_i64(pz + offz, -WORLD_LIMIT, WORLD_LIMIT);
                self.bugs.push(Bug::new(bx, bz));
                proof {
                    angles = angles.push(deg as int);
                }
                k = k + 1;
            }
            self.last_spawn = now_ms;
        }
        let do_speed = now_ms - self.last_speed_increase > 5000;
        if do_speed {
            if self.speed + 20 <= SPEED_LIMIT {
                self.speed = self.speed + 20;
            }
            self.last_speed_increase = now_ms;
            self.message = Message::SpeedIncreased;
        }
        let bdx = self.pet.x - self.ball.x;
        let bdz = self.pet.z - self.ball.z;
        proof {
            assert(0 <= (bdx as int) * (bdx as int) <= 4_000_000_000_000_000_000_000_000)
                by (nonlinear_arith)
                requires
                    -2_000_000_000_000 <= bdx as int <= 2_000_000_000_000,
            ;
            assert(0 <= (bdz as int) * (bdz as int) <= 4_000_000_000_000_000_000_000_000)
                by (nonlinear_arith)
                requires
                    -2_000_000_000_000 <= bdz as int <= 2_000_000_000_000,
            ;
        }
        let bsq = (bdx as i128) * (bdx as i128) + (bdz as i128) * (bdz as i128);
        let bd = isqrt(bsq as u128);
        if bd < 1500 {
            proof {
                assert((bdx as int) * (bdx as int) + (bdz as int) * (bdz as int) < 2_250_000)
                    by (nonlinear_arith)
                    requires
                        (bdx as int) * (bdx as int) + (bdz as int) * (bdz as int) < (bd as int
                            + 1) * (bd as int + 1),
                        0 <= bd as int <= 1499,
                ;
                assert(-1499 <= bdx as int <= 1499 && -1499 <= bdz as int <= 1499)
                    by (nonlinear_arith)
                    requires
                        (bdx as int) * (bdx as int) + (bdz as int) * (bdz as int) < 2_250_000,
                ;
                if bdx >= 0 {
                    lemma_div_pos_is_pos(bdx as int, 5);
                    lemma_div_is_ordered(bdx as int, 1499, 5);
                } else {
                    lemma_div_pos_is_pos(-(bdx as int), 5);
                    lemma_div_is_ordered(-(bdx as int), 1499, 5);
                }
                if bdz >= 0 {
                    lemma_div_pos_is_pos(bdz as int, 5);
                    lemma_div_is_ordered(bdz as int, 1499, 5);
                } else {
                    lemma_div_pos_is_pos(-(bdz as int), 5);
                    lemma_div_is_ordered(-(bdz as int), 1499, 5);
                }
            }
            self.ball.vx = div_trunc(-bdx, 5);
            self.ball.vz = div_trunc(-bdz, 5);
            self.pet.happiness = clamp_i64(self.pet.happiness + 1000, -STAT_SAT, STAT_SAT);
        }
        self.phase = if self.pet.is_alive {
            Phase::Playing
        } else {
            Phase::Dead
        };
        proof {
            lemma_drain_props(bugs1, bugs1.len() as int, pet1, now_ms as int, msg0);
            assert(self.bugs@ =~= bugs1 + Seq::new(
                angles.len(),
                |t: int| spawn_bug_spec(pet2.x as int, pet2.z as int, speed as int, angles[t]),
            ));
            assert(step_post(s0, *self, inp, toggle_cam, now_ms as int, angles)) by {
                reveal(step_post);
            }
        }
    }
}

} // verus!

