use keplemon::enums::KeplerianType;
use keplemon::estimation::solver::{SeedPlan, Setting, SolverPhase, SolverState, DEFAULT_MAX_ITERATIONS};

#[test]
fn new_solver_is_uninitialized() {
    let s = SolverState::new(KeplerianType::MeanBrouwerXP);
    assert_eq!(s.get_iteration_count(), 0);
    assert!(!s.get_converged());
    assert_eq!(s.get_max_iterations(), DEFAULT_MAX_ITERATIONS);
    assert_eq!(s.get_max_iterations(), 20);
    assert_eq!(s.phase(), SolverPhase::Uninitialized);
    assert_eq!(s.parameter_count(), 6);
    assert_eq!(s.get_output_type(), KeplerianType::MeanBrouwerXP);
}

#[test]
fn repeated_reset_setters_leave_solver_uninitialized() {
    let mut s = SolverState::new(KeplerianType::MeanBrouwerXP);
    for k in 0..10 {
        s.set_estimate_drag(k % 2 == 0);
        assert_eq!(s.get_iteration_count(), 0);
        assert!(!s.get_converged());
    }
    s.set_estimate_srp(true);
    s.set_estimate_srp(true);
    s.apply(Setting::Inputs);
    assert_eq!(s.get_iteration_count(), 0);
    assert!(!s.get_converged());
    assert_eq!(s.phase(), SolverPhase::Uninitialized);
}

#[test]
fn setter_resets_after_iterations() {
    let mut s = SolverState::new(KeplerianType::MeanBrouwerXP);
    s.begin_solve();
    s.record_iteration(false, true);
    s.record_iteration(true, true);
    assert!(s.get_converged());
    assert_eq!(s.get_iteration_count(), 2);
    s.set_estimate_drag(true);
    assert_eq!(s.get_iteration_count(), 0);
    assert!(!s.get_converged());
    assert!(!s.has_update);
    assert!(!s.has_weighted_rms);
}

#[test]
fn srp_disabled_for_mean_gp_outputs() {
    let mut s = SolverState::new(KeplerianType::MeanKozaiGP);
    let plan = s.set_estimate_srp(true);
    assert_eq!(plan, SeedPlan { seed_drag: false, seed_srp: true });
    assert!(!s.get_estimate_srp());

    let mut s = SolverState::new(KeplerianType::MeanBrouwerXP);
    s.set_estimate_srp(true);
    assert!(s.get_estimate_srp());
    s.set_output_type(KeplerianType::MeanBrouwerGP);
    assert!(!s.get_estimate_srp());
    s.set_output_type(KeplerianType::Osculating);
    assert!(!s.get_estimate_srp());
}

#[test]
fn seed_plan_follows_estimated_coefficients() {
    let mut s = SolverState::new(KeplerianType::MeanBrouwerXP);
    assert_eq!(s.set_estimate_drag(true), SeedPlan { seed_drag: true, seed_srp: false });
    assert_eq!(s.set_estimate_srp(true), SeedPlan { seed_drag: true, seed_srp: true });
    assert_eq!(s.reset(), SeedPlan { seed_drag: true, seed_srp: true });
}

#[test]
fn parameter_columns() {
    let mut s = SolverState::new(KeplerianType::MeanBrouwerXP);
    assert_eq!(s.drag_column(), None);
    assert_eq!(s.srp_column(), None);
    s.set_estimate_drag(true);
    assert_eq!(s.parameter_count(), 7);
    assert_eq!(s.drag_column(), Some(6));
    s.set_estimate_srp(true);
    assert_eq!(s.parameter_count(), 8);
    assert_eq!(s.srp_column(), Some(7));
    s.set_estimate_drag(false);
    assert_eq!(s.parameter_count(), 7);
    assert_eq!(s.srp_column(), Some(6));
}

#[test]
fn convergence_needs_previous_rms_and_update() {
    let mut s = SolverState::new(KeplerianType::MeanBrouwerXP);
    s.begin_solve();
    assert!(s.wants_iteration());
    assert!(s.record_iteration(true, true));
    assert!(!s.get_converged());
    assert_eq!(s.phase(), SolverPhase::Iterating);
    assert!(!s.record_iteration(true, false));
    assert!(!s.get_converged());
    assert!(!s.has_update);
    s.record_iteration(true, true);
    assert!(s.get_converged());
    assert_eq!(s.phase(), SolverPhase::Converged);
    assert!(!s.wants_iteration());
}

#[test]
fn solve_stops_at_cap() {
    let mut s = SolverState::new(KeplerianType::MeanBrouwerXP);
    s.set_max_iterations(3);
    s.begin_solve();
    let mut runs = 0;
    while s.wants_iteration() {
        s.record_iteration(false, true);
        runs += 1;
    }
    assert_eq!(runs, 3);
    assert_eq!(s.get_iteration_count(), 3);
    assert_eq!(s.phase(), SolverPhase::MaxIterationsReached);
    s.begin_solve();
    assert_eq!(s.get_iteration_count(), 0);
    assert_eq!(s.get_max_iterations(), 3);
}

#[test]
fn default_cap_allows_twenty_iterations() {
    let mut s = SolverState::new(KeplerianType::MeanKozaiGP);
    s.begin_solve();
    let mut runs = 0;
    while s.wants_iteration() {
        s.record_iteration(false, true);
        runs += 1;
    }
    assert_eq!(runs, 20);
}
