use petsim::pet::MoveInput;
use petsim::session::{CameraMode, Message, Phase, Session};

fn named(now: i64) -> Session {
    let mut s = Session::new(now);
    assert!(s.confirm_name("Rex".to_string(), now));
    s
}

#[test]
fn session_starts_naming() {
    let s = Session::new(0);
    assert_eq!(s.phase, Phase::Naming);
    assert_eq!(s.camera, CameraMode::ThirdPerson);
    assert_eq!(s.message, Message::Welcome);
    assert_eq!(s.bugs.len(), 3);
    assert_eq!(s.speed, 120);
    assert_eq!(s.bugs[0].x, 30_000);
    assert_eq!(s.bugs[1].x, -30_000);
    assert_eq!(s.bugs[2].z, -30_000);
}

#[test]
fn empty_name_is_rejected() {
    let mut s = Session::new(0);
    assert!(!s.confirm_name(String::new(), 0));
    assert_eq!(s.phase, Phase::Naming);
    assert!(s.confirm_name("Pip".to_string(), 0));
    assert_eq!(s.phase, Phase::Playing);
    assert_eq!(s.pet.name, "Pip");
}

#[test]
fn camera_toggle_flips_and_reports() {
    let mut s = named(0);
    s.toggle_camera();
    assert_eq!(s.camera, CameraMode::FirstPerson);
    assert_eq!(s.message, Message::SwitchedPov(CameraMode::FirstPerson));
    s.toggle_camera();
    assert_eq!(s.camera, CameraMode::ThirdPerson);
}

#[test]
fn spawn_burst_adds_exactly_67() {
    let mut s = named(0);
    assert_eq!(s.bugs.len(), 3);
    // below the one-second boundary nothing spawns
    s.step(MoveInput::idle(), false, 900);
    assert_eq!(s.bugs.len(), 3);
    // crossing it adds exactly 67
    s.step(MoveInput::idle(), false, 1500);
    assert_eq!(s.bugs.len(), 70);
    // and again for the next boundary
    s.step(MoveInput::idle(), false, 2000);
    assert_eq!(s.bugs.len(), 70);
    s.step(MoveInput::idle(), false, 2600);
    assert_eq!(s.bugs.len(), 137);
}

#[test]
fn bug_count_never_decreases() {
    let mut s = named(0);
    let mut last = s.bugs.len();
    for t in 1..40 {
        s.step(MoveInput::idle(), t % 10 == 0, t * 400);
        assert!(s.bugs.len() >= last);
        last = s.bugs.len();
    }
}

#[test]
fn spawned_bugs_sit_on_the_spawn_ring() {
    let mut s = named(0);
    s.step(MoveInput::idle(), false, 1500);
    assert_eq!(s.bugs.len(), 70);
    let px = s.pet.x as f64;
    let pz = s.pet.z as f64;
    for b in &s.bugs[3..] {
        assert_eq!(b.speed, 120);
        let d = ((b.x as f64 - px).powi(2) + (b.z as f64 - pz).powi(2)).sqrt() / 1000.0;
        // the ring radius is 50 units plus the small speed bonus
        assert!(d > 45.0 && d < 56.0, "spawn distance {d}");
    }
}

#[test]
fn difficulty_rises_in_exact_steps() {
    let mut s = named(0);
    assert_eq!(s.speed, 120);
    s.step(MoveInput::idle(), false, 4000);
    assert_eq!(s.speed, 120);
    s.step(MoveInput::idle(), false, 5500);
    assert_eq!(s.speed, 140);
    assert_eq!(s.message, Message::SpeedIncreased);
    s.step(MoveInput::idle(), false, 9000);
    assert_eq!(s.speed, 140);
    s.step(MoveInput::idle(), false, 11_000);
    assert_eq!(s.speed, 160);
}

#[test]
fn ball_push_scenario() {
    // ball at rest one unit from the pet: its velocity is set straight
    // away from the pet at a fifth of the separation, and the pet
    // gains one point of happiness
    let mut s = named(0);
    s.ball.x = 1000;
    s.ball.z = 0;
    s.ball.vx = 0;
    s.ball.vz = 0;
    let h0 = s.pet.happiness;
    s.step(MoveInput::idle(), false, 500);
    assert_eq!(s.ball.vx, 200);
    assert_eq!(s.ball.vz, 0);
    assert_eq!(s.pet.happiness, h0 + 1000);
}

#[test]
fn distant_ball_is_untouched() {
    let mut s = named(0);
    let (bx, bz) = (s.ball.x, s.ball.z);
    s.step(MoveInput::idle(), false, 500);
    assert_eq!((s.ball.x, s.ball.z), (bx, bz));
    assert_eq!((s.ball.vx, s.ball.vz), (0, 0));
}

#[test]
fn close_bug_kills_instantly() {
    let mut s = named(0);
    s.bugs[0].x = 500;
    s.bugs[0].z = 0;
    s.step(MoveInput::idle(), false, 500);
    assert!(!s.pet.is_alive);
    assert_eq!(s.pet.death_time, Some(500));
    assert_eq!(s.phase, Phase::Dead);
    assert_eq!(s.message, Message::KilledByBug);
}

#[test]
fn near_bug_drains_and_warns() {
    let mut s = named(0);
    // 1.8 units away, outside the kill radius but inside the warning one;
    // after its 0.12-unit step it stays beyond the kill radius
    s.bugs[0].x = 1800;
    s.bugs[0].z = 0;
    let h0 = s.pet.happiness;
    let e0 = s.pet.energy;
    s.step(MoveInput::idle(), false, 500);
    assert!(s.pet.is_alive);
    assert_eq!(s.pet.happiness, h0 - 100);
    assert_eq!(s.pet.energy, e0 - 50);
    assert_eq!(s.message, Message::BugWarning);
}

#[test]
fn death_time_survives_more_frames() {
    let mut s = named(0);
    s.bugs[0].x = 500;
    s.bugs[0].z = 0;
    s.step(MoveInput::idle(), false, 500);
    assert_eq!(s.pet.death_time, Some(500));
    for t in 1..10 {
        s.step(MoveInput::idle(), false, 500 + t * 777);
        assert_eq!(s.pet.death_time, Some(500));
    }
}

#[test]
fn restart_rebuilds_the_world() {
    let mut s = named(0);
    s.bugs[0].x = 500;
    s.bugs[0].z = 0;
    s.step(MoveInput::idle(), false, 1500);
    assert_eq!(s.phase, Phase::Dead);
    assert!(s.bugs.len() > 3);
    assert!(s.request_restart());
    assert_eq!(s.phase, Phase::Renaming);
    assert!(!s.confirm_name(String::new(), 9000));
    assert_eq!(s.phase, Phase::Renaming);
    assert!(s.confirm_name("Neo".to_string(), 9000));
    assert_eq!(s.phase, Phase::Playing);
    assert_eq!(s.pet.name, "Neo");
    assert!(s.pet.is_alive);
    assert_eq!(s.pet.start_time, 9000);
    assert_eq!(s.bugs.len(), 3);
    assert_eq!(s.speed, 120);
    assert_eq!(s.message, Message::WelcomeBack);
    assert_eq!((s.ball.x, s.ball.z), (5000, 5000));
}

#[test]
fn restart_only_from_dead() {
    let mut s = named(0);
    assert!(!s.request_restart());
    assert_eq!(s.phase, Phase::Playing);
}

#[test]
fn session_care_actions_set_messages() {
    let mut s = named(0);
    assert!(s.feed());
    assert_eq!(s.message, Message::Fed);
    assert_eq!(s.pet.hunger, 35_000);
    assert!(s.play());
    assert_eq!(s.message, Message::Played);
    assert!(s.sleep());
    assert_eq!(s.message, Message::Sleeping);
    s.pet.is_stationary = false;
    assert!(!s.feed());
    assert_eq!(s.message, Message::FeedRefused);
    assert!(!s.play());
    assert_eq!(s.message, Message::PlayRefused);
    assert!(!s.sleep());
    assert_eq!(s.message, Message::SleepRefused);
}

#[test]
fn session_survival_matches_pet() {
    let s = named(100);
    assert_eq!(s.survival_ms(4100), 4000);
}

#[test]
fn shared_speed_reaches_every_bug() {
    let mut s = named(0);
    s.step(MoveInput::idle(), false, 5500);
    assert_eq!(s.speed, 140);
    s.step(MoveInput::idle(), false, 5800);
    for b in &s.bugs[..3] {
        assert_eq!(b.speed, 140);
    }
}
