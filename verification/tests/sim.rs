use nanosim::config::SimConfig;
use nanosim::coordinator::{make_population, summarize, TaskOutcome};
use nanosim::particle::{Nanoparticle, Vec3};
use nanosim::runner::TaskRun;

fn particle(id: usize, position: [i64; 3], velocity: [i64; 3]) -> Nanoparticle {
    Nanoparticle {
        id,
        position: Vec3 { x: position[0], y: position[1], z: position[2] },
        velocity: Vec3 { x: velocity[0], y: velocity[1], z: velocity[2] },
    }
}

#[test]
fn stepper_adds_velocity_once() {
    let mut p = particle(7, [1, 2, 3], [10, -5, 0]);
    p.update_position();
    assert_eq!(p.position, Vec3 { x: 11, y: -3, z: 3 });
    assert_eq!(p.velocity, Vec3 { x: 10, y: -5, z: 0 });
    assert_eq!(p.id, 7);
}

#[test]
fn single_run_reaches_three_zero_zero() {
    let p = particle(0, [0, 0, 0], [1, 0, 0]);
    assert!(p.can_take_steps(3));
    let mut run = TaskRun::new(p, 3);
    let reports = run.run_to_end();
    assert_eq!(run.particle.position, Vec3 { x: 3, y: 0, z: 0 });
    assert_eq!(run.particle.id, 0);
    assert_eq!(reports.len(), 3);
    for (i, rep) in reports.iter().enumerate() {
        assert_eq!(rep.id, 0);
        assert_eq!(rep.step, i);
        assert_eq!(rep.position, Vec3 { x: i as i64 + 1, y: 0, z: 0 });
    }
}

#[test]
fn final_position_is_initial_plus_k_times_velocity() {
    let p = particle(2, [100, 200, 300], [7, -7, 0]);
    assert!(p.can_take_steps(10));
    let mut run = TaskRun::new(p, 10);
    let _ = run.run_to_end();
    assert_eq!(run.particle.position, Vec3 { x: 170, y: 130, z: 300 });
    assert_eq!(run.steps_done, 10);
    assert_eq!(run.total_steps, 10);
}

#[test]
fn step_once_reports_in_increasing_order() {
    let p = particle(4, [0, 0, 0], [2, 3, -1]);
    assert!(p.can_take_steps(2));
    let mut run = TaskRun::new(p, 2);
    let first = run.step_once();
    let second = run.step_once();
    assert_eq!(first.step, 0);
    assert_eq!(second.step, 1);
    assert_eq!(first.position, Vec3 { x: 2, y: 3, z: -1 });
    assert_eq!(second.position, Vec3 { x: 4, y: 6, z: -2 });
}

#[test]
fn repeated_stepping_is_deterministic() {
    let p = particle(9, [5, -5, 12], [3, 2, -4]);
    assert!(p.can_take_steps(6));
    let mut by_whole_run = TaskRun::new(p, 6);
    let _ = by_whole_run.run_to_end();
    let mut by_single_steps = TaskRun::new(p, 6);
    for _ in 0..6 {
        let _ = by_single_steps.step_once();
    }
    assert_eq!(by_whole_run.particle, by_single_steps.particle);
}

#[test]
fn can_take_steps_accepts_and_rejects() {
    let small = particle(0, [0, 0, 0], [1, 1, 1]);
    assert!(small.can_take_steps(1000));
    let at_edge = particle(1, [i64::MAX, 0, 0], [1, 0, 0]);
    assert!(!at_edge.can_take_steps(1));
    assert!(at_edge.can_take_steps(0));
    let falling = particle(2, [i64::MIN, 0, 0], [-1, 0, 0]);
    assert!(!falling.can_take_steps(5));
}

#[test]
fn population_has_sequential_distinct_ids() {
    let cfg = SimConfig::default();
    let pop = make_population(&cfg);
    assert_eq!(pop.len(), 5);
    for (i, p) in pop.iter().enumerate() {
        assert_eq!(p.id, i);
        for axis in [p.position.x, p.position.y, p.position.z] {
            assert!(cfg.pos_lo <= axis && axis < cfg.pos_hi);
        }
        for axis in [p.velocity.x, p.velocity.y, p.velocity.z] {
            assert!(cfg.vel_lo <= axis && axis < cfg.vel_hi);
        }
    }
    for i in 0..pop.len() {
        for j in (i + 1)..pop.len() {
            assert_ne!(pop[i].id, pop[j].id);
        }
    }
}

#[test]
fn empty_population_is_allowed() {
    let mut cfg = SimConfig::default();
    cfg.n = 0;
    let pop = make_population(&cfg);
    assert_eq!(pop.len(), 0);
}

#[test]
fn zero_step_run_changes_nothing() {
    let p = particle(3, [8, -8, 8], [5, 5, 5]);
    assert!(p.can_take_steps(0));
    let mut run = TaskRun::new(p, 0);
    let reports = run.run_to_end();
    assert!(reports.is_empty());
    assert_eq!(run.particle, p);
}

#[test]
fn summarize_counts_each_slot_once() {
    let a = particle(0, [1, 1, 1], [0, 0, 0]);
    let b = particle(1, [2, 2, 2], [0, 0, 0]);
    let outcomes = vec![
        TaskOutcome::Completed(a),
        TaskOutcome::Failed,
        TaskOutcome::Completed(b),
    ];
    let s = summarize(&outcomes);
    assert_eq!(s.completed, 2);
    assert_eq!(s.failed, 1);
    assert_eq!(s.completed + s.failed, outcomes.len());
}

#[test]
fn summarize_empty_run() {
    let outcomes: Vec<TaskOutcome> = Vec::new();
    let s = summarize(&outcomes);
    assert_eq!(s.completed, 0);
    assert_eq!(s.failed, 0);
}
