use petsim::ball::Ball;
use petsim::bug::Bug;
use petsim::pet::{MoveInput, Pet};

fn fwd() -> MoveInput {
    MoveInput { forward: true, backward: false, left: false, right: false, mouse_dx: 0, mouse_dy: 0 }
}

#[test]
fn newborn_pet_state() {
    let p = Pet::new("Rex".to_string(), 42);
    assert_eq!(p.name, "Rex");
    assert_eq!(p.hunger, 50_000);
    assert_eq!(p.happiness, 50_000);
    assert_eq!(p.energy, 50_000);
    assert!(p.is_alive);
    assert_eq!(p.death_time, None);
    assert_eq!(p.start_time, 42);
    assert_eq!(p.last_update, 42);
    assert!(p.is_stationary);
    assert_eq!((p.x, p.y, p.z), (0, 0, 0));
}

#[test]
fn starvation_tick_kills_and_clamps() {
    // hunger at 99.5 points; one tick across the one-second boundary
    // with no movement: hunger reaches 100 (clamped), the pet dies,
    // and the death time is recorded as the current instant
    let mut p = Pet::new("Mo".to_string(), 0);
    p.hunger = 99_500;
    p.update(MoveInput::idle(), false, 1500);
    assert_eq!(p.hunger, 100_000);
    assert!(!p.is_alive);
    assert_eq!(p.death_time, Some(1500));
    // the idle tick also fed energy and took a little happiness
    assert_eq!(p.energy, 51_000);
    assert_eq!(p.happiness, 49_750);
}

#[test]
fn death_time_never_rewritten() {
    let mut p = Pet::new("Mo".to_string(), 0);
    p.hunger = 99_500;
    p.update(MoveInput::idle(), false, 1500);
    assert_eq!(p.death_time, Some(1500));
    for t in 0..50 {
        p.update(fwd(), t % 2 == 0, 2000 + t * 700);
        assert_eq!(p.death_time, Some(1500));
        assert!(!p.is_alive);
    }
}

#[test]
fn stats_stay_in_range_under_any_inputs() {
    let mut p = Pet::new("Iter".to_string(), 0);
    let mut t = 0i64;
    let mut k = 0i64;
    while p.is_alive {
        t += 800;
        k += 1;
        let inp = MoveInput {
            forward: k % 2 == 0,
            backward: k % 3 == 0,
            left: k % 5 == 0,
            right: k % 7 == 0,
            mouse_dx: ((k * 37) % 2000 - 1000) as i32,
            mouse_dy: ((k * 53) % 2000 - 1000) as i32,
        };
        p.update(inp, k % 4 == 0, t);
        assert!(p.hunger >= 0 && p.hunger <= 100_000);
        assert!(p.happiness >= 0 && p.happiness <= 100_000);
        assert!(p.energy >= 0 && p.energy <= 100_000);
        assert!(k < 1_000_000, "the decay must end this life");
    }
}

#[test]
fn dead_pet_update_is_inert() {
    let mut p = Pet::new("Mo".to_string(), 0);
    p.hunger = 99_500;
    p.update(MoveInput::idle(), false, 1500);
    let snapshot = (p.hunger, p.happiness, p.energy, p.x, p.z, p.yaw);
    p.update(fwd(), true, 9000);
    assert_eq!(snapshot, (p.hunger, p.happiness, p.energy, p.x, p.z, p.yaw));
}

#[test]
fn care_actions_refused_when_moving_or_dead() {
    let mut p = Pet::new("Rex".to_string(), 0);
    p.is_stationary = false;
    let before = (p.hunger, p.happiness, p.energy);
    assert!(!p.feed());
    assert!(!p.play());
    assert!(!p.sleep());
    assert_eq!(before, (p.hunger, p.happiness, p.energy));
    let mut d = Pet::new("Gone".to_string(), 0);
    d.hunger = 99_500;
    d.update(MoveInput::idle(), false, 1500);
    assert!(d.is_stationary);
    let before = (d.hunger, d.happiness, d.energy);
    assert!(!d.feed());
    assert!(!d.play());
    assert!(!d.sleep());
    assert_eq!(before, (d.hunger, d.happiness, d.energy));
}

#[test]
fn care_actions_apply_their_exact_deltas() {
    let mut p = Pet::new("Rex".to_string(), 0);
    assert!(p.feed());
    assert_eq!(p.hunger, 35_000);
    assert!(p.play());
    assert_eq!(p.happiness, 65_000);
    assert_eq!(p.energy, 40_000);
    assert!(p.sleep());
    assert_eq!(p.energy, 60_000);
    assert_eq!(p.hunger, 40_000);
}

#[test]
fn survival_time_freezes_at_death() {
    let mut p = Pet::new("Rex".to_string(), 100);
    assert_eq!(p.survival_ms(5100), 5000);
    p.hunger = 99_500;
    p.update(MoveInput::idle(), false, 7000);
    assert_eq!(p.survival_ms(900_000), 6900);
}

#[test]
fn forward_key_moves_the_pet() {
    let mut p = Pet::new("Run".to_string(), 0);
    for i in 0..10 {
        p.update(fwd(), false, 100 + i);
    }
    // facing yaw 0 means movement along +z
    assert_eq!(p.x, 0);
    assert!(p.z > 0);
    assert!(!p.is_stationary);
}

#[test]
fn bug_steps_exactly_toward_target() {
    // bug at (10, 0), pet at the origin, speed 0.12: one update moves
    // it exactly 0.12 units along the line toward the pet
    let mut b = Bug::new(10_000, 0);
    assert_eq!(b.speed, 120);
    b.update(0, 0);
    assert_eq!(b.x, 9_880);
    assert_eq!(b.z, 0);
}

#[test]
fn bug_distance_decreases_then_holds() {
    let mut b = Bug::new(10_000, 0);
    let mut last = b.x;
    loop {
        b.update(0, 0);
        if b.x == last {
            break;
        }
        assert!(b.x < last);
        last = b.x;
    }
    // it stopped only once within 0.1 units of the target
    assert!(b.x <= 100);
    let held = b.x;
    for _ in 0..5 {
        b.update(0, 0);
        assert_eq!(b.x, held);
    }
}

#[test]
fn bug_diagonal_pursuit_closes_in() {
    let mut b = Bug::new(3_000, 4_000);
    b.speed = 500;
    let d0 = 5_000.0f64;
    b.update(0, 0);
    let d1 = ((b.x as f64).powi(2) + (b.z as f64).powi(2)).sqrt();
    assert!(d1 < d0);
    assert!((d0 - d1 - 500.0).abs() < 5.0);
}

#[test]
fn ball_starts_at_rest() {
    let b = Ball::new();
    assert_eq!((b.x, b.z, b.vx, b.vz, b.rotation), (5000, 5000, 0, 0, 0));
}

#[test]
fn ball_drag_and_integration() {
    let mut b = Ball::new();
    b.vx = 200;
    b.vz = -100;
    b.update();
    assert_eq!(b.vx, 190);
    assert_eq!(b.vz, -95);
    assert_eq!(b.x, 5190);
    assert_eq!(b.z, 4905);
    assert!(b.rotation > 0);
    let r = b.rotation;
    b.update();
    // the rolling angle keeps growing while the ball moves
    assert!(b.rotation > r);
}

#[test]
fn resting_ball_stays_put() {
    let mut b = Ball::new();
    for _ in 0..10 {
        b.update();
    }
    assert_eq!((b.x, b.z, b.vx, b.vz, b.rotation), (5000, 5000, 0, 0, 0));
}
