use std::cell::Cell;

use boids::config::{BoundaryMode, Settings};
use boids::simulation::Simulation;
use boids::ui::ControlOutcome;

fn counter_spawn(next: &Cell<u32>) -> impl Fn() -> u32 + '_ {
    move || {
        let v = next.get();
        next.set(v + 1);
        v
    }
}

fn trail_lengths(sim: &Simulation<u32, i32>) -> Vec<usize> {
    (0..sim.len()).map(|i| sim.trail(i).len()).collect()
}

#[test]
fn new_builds_default_flock_with_empty_trails() {
    let next = Cell::new(0);
    let sim: Simulation<u32, i32> = Simulation::new(counter_spawn(&next));
    assert_eq!(sim.len(), 80);
    assert_eq!(sim.settings(), Settings::default());
    assert_eq!(sim.snapshot(), (0..80).collect::<Vec<u32>>());
    assert!(trail_lengths(&sim).iter().all(|&n| n == 0));
}

#[test]
fn reconcile_shrinks_from_the_end() {
    let next = Cell::new(0);
    let mut sim: Simulation<u32, i32> = Simulation::new(counter_spawn(&next));
    sim.record_trail(2, 7);
    let mut s = sim.settings();
    s.boid_count = 3;
    sim.set_settings(s);
    sim.reconcile_flock_size(counter_spawn(&next));
    assert_eq!(sim.len(), 3);
    assert_eq!(sim.snapshot(), vec![0, 1, 2]);
    assert_eq!(trail_lengths(&sim), vec![0, 0, 1]);
    assert_eq!(next.get(), 80);
}

#[test]
fn reconcile_grows_with_new_boids_and_empty_trails() {
    let next = Cell::new(0);
    let mut sim: Simulation<u32, i32> = Simulation::new(counter_spawn(&next));
    let mut s = sim.settings();
    s.boid_count = 2;
    sim.set_settings(s);
    sim.reconcile_flock_size(counter_spawn(&next));
    sim.record_trail(0, 1);
    sim.record_trail(1, 2);
    s.boid_count = 4;
    sim.set_settings(s);
    sim.reconcile_flock_size(counter_spawn(&next));
    assert_eq!(sim.snapshot(), vec![0, 1, 80, 81]);
    assert_eq!(trail_lengths(&sim), vec![1, 1, 0, 0]);
}

#[test]
fn reconcile_at_target_changes_nothing() {
    let next = Cell::new(0);
    let mut sim: Simulation<u32, i32> = Simulation::new(counter_spawn(&next));
    sim.record_trail(5, 3);
    let before = sim.snapshot();
    sim.reconcile_flock_size(counter_spawn(&next));
    assert_eq!(sim.snapshot(), before);
    assert_eq!(next.get(), 80);
    assert_eq!(sim.trail(5).len(), 1);
}

#[test]
fn record_trail_uses_current_trail_length() {
    let next = Cell::new(0);
    let mut sim: Simulation<u32, i32> = Simulation::new(counter_spawn(&next));
    let mut s = sim.settings();
    s.trail_length = 2;
    sim.set_settings(s);
    for p in 0..5 {
        sim.record_trail(0, p);
    }
    assert_eq!(sim.trail(0).segments(), vec![(3, 4)]);
    assert_eq!(sim.trail(1).len(), 0);
}

#[test]
fn set_boid_replaces_one_boid() {
    let next = Cell::new(0);
    let mut sim: Simulation<u32, i32> = Simulation::new(counter_spawn(&next));
    sim.set_boid(4, 1000);
    assert_eq!(*sim.boid(4), 1000);
    assert_eq!(*sim.boid(3), 3);
    assert_eq!(sim.len(), 80);
}

#[test]
fn clear_trails_outcome_erases_paths_only() {
    let next = Cell::new(0);
    let mut sim: Simulation<u32, i32> = Simulation::new(counter_spawn(&next));
    sim.record_trail(0, 1);
    sim.record_trail(79, 1);
    let mut s = sim.settings();
    s.boundary_mode = BoundaryMode::Wrap;
    sim.set_settings(s);
    let outcome = ControlOutcome { reset_requested: false, clear_trails_requested: true };
    sim.apply_outcome(outcome, counter_spawn(&next));
    assert!(trail_lengths(&sim).iter().all(|&n| n == 0));
    assert_eq!(sim.snapshot(), (0..80).collect::<Vec<u32>>());
    assert_eq!(sim.settings().boundary_mode, BoundaryMode::Wrap);
}

#[test]
fn reset_outcome_restores_defaults_and_rebuilds() {
    let next = Cell::new(0);
    let mut sim: Simulation<u32, i32> = Simulation::new(counter_spawn(&next));
    sim.record_trail(0, 1);
    let mut s = sim.settings();
    s.boid_count = 5;
    s.trails_enabled = false;
    sim.set_settings(s);
    let outcome = ControlOutcome { reset_requested: true, clear_trails_requested: false };
    sim.apply_outcome(outcome, counter_spawn(&next));
    assert_eq!(sim.settings(), Settings::default());
    assert_eq!(sim.len(), 80);
    assert_eq!(sim.snapshot(), (80..160).collect::<Vec<u32>>());
    assert!(trail_lengths(&sim).iter().all(|&n| n == 0));
}

#[test]
fn empty_outcome_changes_nothing() {
    let next = Cell::new(0);
    let mut sim: Simulation<u32, i32> = Simulation::new(counter_spawn(&next));
    sim.record_trail(3, 9);
    sim.apply_outcome(ControlOutcome::default(), counter_spawn(&next));
    assert_eq!(sim.trail(3).len(), 1);
    assert_eq!(sim.snapshot(), (0..80).collect::<Vec<u32>>());
    assert_eq!(next.get(), 80);
}

#[test]
fn begin_frame_resizes_to_new_count() {
    let next = Cell::new(0);
    let mut sim: Simulation<u32, i32> = Simulation::new(counter_spawn(&next));
    sim.record_trail(0, 4);
    let mut s = sim.settings();
    s.boid_count = 82;
    sim.set_settings(s);
    let spawn = counter_spawn(&next);
    sim.begin_frame(ControlOutcome::default(), &spawn);
    assert_eq!(sim.len(), 82);
    assert_eq!(*sim.boid(81), 81);
    assert_eq!(sim.trail(0).len(), 1);
    assert_eq!(sim.trail(81).len(), 0);
}

#[test]
fn begin_frame_after_reset_has_default_count() {
    let next = Cell::new(0);
    let mut sim: Simulation<u32, i32> = Simulation::new(counter_spawn(&next));
    let mut s = sim.settings();
    s.boid_count = 3;
    s.trail_length = 9;
    sim.set_settings(s);
    let spawn = counter_spawn(&next);
    let outcome = ControlOutcome { reset_requested: true, clear_trails_requested: true };
    sim.begin_frame(outcome, &spawn);
    assert_eq!(sim.len(), 80);
    assert_eq!(sim.settings(), Settings::default());
    assert_eq!(*sim.boid(0), 80);
    assert!(trail_lengths(&sim).iter().all(|&n| n == 0));
}

#[test]
fn advance_steps_every_boid_and_records_its_position() {
    let next = Cell::new(0);
    let mut sim: Simulation<u32, i32> = Simulation::new(counter_spawn(&next));
    let mut s = sim.settings();
    s.boid_count = 3;
    s.trail_length = 2;
    sim.set_settings(s);
    sim.reconcile_flock_size(counter_spawn(&next));
    for _ in 0..3 {
        sim.advance(|b: u32| b + 10, |b: &u32| *b as i32 * -1);
    }
    assert_eq!(sim.snapshot(), vec![30, 31, 32]);
    assert_eq!(sim.trail(0).segments(), vec![(-20, -30)]);
    assert_eq!(sim.trail(2).segments(), vec![(-22, -32)]);
    assert_eq!(sim.settings().trail_length, 2);
}

#[test]
fn advance_with_zero_trail_length_keeps_no_history() {
    let next = Cell::new(0);
    let mut sim: Simulation<u32, i32> = Simulation::new(counter_spawn(&next));
    let mut s = sim.settings();
    s.trail_length = 0;
    sim.set_settings(s);
    sim.advance(|b: u32| b + 1, |b: &u32| *b as i32);
    assert_eq!(*sim.boid(79), 80);
    assert!(trail_lengths(&sim).iter().all(|&n| n == 0));
}

#[test]
fn ordinary_frame_keeps_trails() {
    let next = Cell::new(0);
    let mut sim: Simulation<u32, i32> = Simulation::new(counter_spawn(&next));
    sim.advance(|b: u32| b, |b: &u32| *b as i32);
    sim.advance(|b: u32| b, |b: &u32| *b as i32);
    let spawn = counter_spawn(&next);
    sim.begin_frame(ControlOutcome::default(), &spawn);
    assert!(trail_lengths(&sim).iter().all(|&n| n == 2));
}
