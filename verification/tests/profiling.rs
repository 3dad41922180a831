//! Phase timing bookkeeping with caller-supplied clock readings.

use vortex_particle_simulation::{Phase, Profiling};

#[test]
fn test_profiling() {
    let mut profiling = Profiling::new();
    profiling.start(Phase::StepVorticity, 1_000);
    profiling.finish(Phase::StepVorticity, 1_501);
    assert!(*profiling.get(Phase::StepVorticity).as_ref().unwrap() > 500);
}

#[test]
fn spans_accumulate_per_phase() {
    let mut p = Profiling::new();
    p.start(Phase::StepVorticity, 0);
    p.finish(Phase::StepVorticity, 100);
    p.start(Phase::AdvectVortons, 100);
    p.finish(Phase::AdvectVortons, 400);
    p.start(Phase::StepVorticity, 400);
    p.finish(Phase::StepVorticity, 450);
    assert_eq!(p.get(Phase::StepVorticity), Some(150));
    assert_eq!(p.get(Phase::AdvectVortons), Some(300));
}

#[test]
fn finishing_an_unstarted_phase_counts_zero() {
    let mut p = Profiling::new();
    p.finish(Phase::AdvectVortons, 9_000);
    assert_eq!(p.get(Phase::AdvectVortons), Some(0));
    assert_eq!(p.get(Phase::StepVorticity), None);
}

#[test]
fn restarting_overwrites_the_running_phase() {
    let mut p = Profiling::new();
    p.start(Phase::StepVorticity, 0);
    p.start(Phase::StepVorticity, 90);
    p.finish(Phase::StepVorticity, 100);
    assert_eq!(p.get(Phase::StepVorticity), Some(10));
}
