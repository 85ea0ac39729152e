use crate::enums::KeplerianType;
use vstd::prelude::*;

verus! {

/// Iteration cap a new estimator starts with.
pub const DEFAULT_MAX_ITERATIONS: usize = 20;

/// Number of equinoctial elements every estimate solves for.
pub const ORBIT_PARAMETER_COUNT: usize = 6;

/// Where an estimator stands in its solve.
#[derive(Debug, Clone, Copy, PartialEq, Eq, Structural)]
pub enum SolverPhase {
    /// Nothing has been iterated since the last reset.
    Uninitialized,
    /// At least one iteration ran, without convergence, below the cap.
    Iterating,
    /// The weighted RMS settled.
    Converged,
    /// The cap was reached without convergence.
    MaxIterationsReached,
}

/// An input of the estimator whose change starts the solve over.
#[derive(Debug, Clone, Copy, PartialEq, Eq, Structural)]
pub enum Setting {
    /// Whether the drag coefficient is estimated.
    EstimateDrag(bool),
    /// Whether the solar-radiation-pressure coefficient is estimated.
    EstimateSrp(bool),
    /// The element-set variant of the estimate.
    OutputType(KeplerianType),
    /// The a priori orbit or the observation set was replaced.
    Inputs,
}

/// Which force coefficients a reset seeds with their default value, each only
/// where the a priori holds zero for it.
#[derive(Debug, Clone, Copy, PartialEq, Eq, Structural)]
pub struct SeedPlan {
    pub seed_drag: bool,
    pub seed_srp: bool,
}

/// The estimator's configuration and iteration state, without the numbers
/// that the iterations compute.
#[derive(Debug, Clone, Copy, PartialEq, Eq, Structural)]
pub struct SolverState {
    pub use_drag: bool,
    pub use_srp: bool,
    pub max_iterations: usize,
    pub iteration_count: usize,
    pub converged: bool,
    pub output_type: KeplerianType,
    /// A state-update vector is held from the last iteration.
    pub has_update: bool,
    /// A weighted RMS is held from the last iteration.
    pub has_weighted_rms: bool,
}

/// The state after a reset: iteration state cleared, and SRP estimation
/// switched off where the output variant has no SRP term.
pub open spec fn reset_state(s: SolverState) -> SolverState {
    SolverState {
        use_srp: s.use_srp && s.output_type.spec_has_srp_term(),
        iteration_count: 0,
        converged: false,
        has_update: false,
        has_weighted_rms: false,
        ..s
    }
}

/// The coefficients a reset of `s` seeds: those estimated before the reset.
pub open spec fn seed_plan_of(s: SolverState) -> SeedPlan {
    SeedPlan { seed_drag: s.use_drag, seed_srp: s.use_srp }
}

/// The state with the setting changed, before the reset that follows.
pub open spec fn with_setting(s: SolverState, setting: Setting) -> SolverState {
    match setting {
        Setting::EstimateDrag(b) => SolverState { use_drag: b, ..s },
        Setting::EstimateSrp(b) => SolverState { use_srp: b, ..s },
        Setting::OutputType(t) => SolverState { output_type: t, ..s },
        Setting::Inputs => s,
    }
}

/// The state after a setter: the setting changed, then a reset.
pub open spec fn apply_setting(s: SolverState, setting: Setting) -> SolverState {
    reset_state(with_setting(s, setting))
}

/// The state after a sequence of setters, in order.
pub open spec fn apply_settings(s: SolverState, settings: Seq<Setting>) -> SolverState
    decreases settings.len(),
{
    if settings.len() == 0 {
        s
    } else {
        apply_settings(apply_setting(s, settings[0]), settings.subrange(1, settings.len() as int))
    }
}

/// The state at the start of a solve: iteration state cleared, configuration
/// kept.
pub open spec fn solve_start_state(s: SolverState) -> SolverState {
    SolverState {
        iteration_count: 0,
        converged: false,
        has_update: false,
        has_weighted_rms: false,
        ..s
    }
}

/// The state after one iteration. `rms_settled` says whether the weighted
/// RMS of this iteration differs from the previous one by less than the
/// convergence tolerance; `solved` whether the normal equations gave an
/// update. Convergence needs a previous RMS and an update.
pub open spec fn iterated_state(s: SolverState, rms_settled: bool, solved: bool) -> SolverState {
    SolverState {
        iteration_count: (s.iteration_count + 1) as usize,
        converged: s.converged || (s.has_weighted_rms && rms_settled && solved),
        has_update: solved,
        has_weighted_rms: true,
        ..s
    }
}

/// Number of estimated parameters: the six elements, plus one column each
/// for drag and SRP when estimated.
pub open spec fn parameter_count_of(use_drag: bool, use_srp: bool) -> nat {
    6 + (if use_drag { 1nat } else { 0nat }) + (if use_srp { 1nat } else { 0nat })
}

/// The states a solve passes through: one iteration per event while the
/// solver wants one; events left over once it stops are not used. An event
/// is the pair handed to `record_iteration`.
pub open spec fn run_iterations(s: SolverState, events: Seq<(bool, bool)>) -> SolverState
    decreases events.len(),
{
    if events.len() == 0 || !s.spec_wants_iteration() {
        s
    } else {
        run_iterations(
            iterated_state(s, events[0].0, events[0].1),
            events.subrange(1, events.len() as int),
        )
    }
}

/// Changing the same input twice in a row leaves the estimator as changing
/// it once does.
pub proof fn lemma_setting_idempotent(s: SolverState, setting: Setting)
    ensures
        apply_setting(apply_setting(s, setting), setting) == apply_setting(s, setting),
{
}

/// Before any iteration, any number of input changes leave the iteration
/// count at zero and the estimator unconverged.
pub proof fn lemma_settings_keep_uninitialized(s: SolverState, settings: Seq<Setting>)
    requires
        s.iteration_count == 0,
        !s.converged,
    ensures
        apply_settings(s, settings).iteration_count == 0,
        !apply_settings(s, settings).converged,
        apply_settings(s, settings).spec_phase() == SolverPhase::Uninitialized,
    decreases settings.len(),
{
    if settings.len() > 0 {
        lemma_settings_keep_uninitialized(
            apply_setting(s, settings[0]),
            settings.subrange(1, settings.len() as int),
        );
    }
}

/// After any input change, SRP is estimated only for a variant that carries
/// an SRP term.
pub proof fn lemma_setting_respects_srp_term(s: SolverState, setting: Setting)
    ensures
        apply_setting(s, setting).use_srp ==> apply_setting(s, setting).output_type.spec_has_srp_term(),
{
}

/// A solve never runs past its iteration cap, and once it has been handed as
/// many events as the cap allows it has stopped, converged or at the cap.
pub proof fn lemma_solve_within_cap(s: SolverState, events: Seq<(bool, bool)>)
    requires
        s.iteration_count <= s.max_iterations,
    ensures
        run_iterations(s, events).iteration_count <= s.max_iterations,
        run_iterations(s, events).iteration_count <= s.iteration_count + events.len(),
        events.len() >= s.max_iterations - s.iteration_count ==> !run_iterations(
            s,
            events,
        ).spec_wants_iteration(),
        s.converged ==> run_iterations(s, events) == s,
    decreases events.len(),
{
    if events.len() > 0 && s.spec_wants_iteration() {
        lemma_solve_within_cap(
            iterated_state(s, events[0].0, events[0].1),
            events.subrange(1, events.len() as int),
        );
    }
}

impl SolverState {
    pub open spec fn spec_phase(self) -> SolverPhase {
        if self.converged {
            SolverPhase::Converged
        } else if self.iteration_count == 0 {
            SolverPhase::Uninitialized
        } else if self.iteration_count >= self.max_iterations {
            SolverPhase::MaxIterationsReached
        } else {
            SolverPhase::Iterating
        }
    }

    /// Whether a solve runs another iteration.
    pub open spec fn spec_wants_iteration(self) -> bool {
        !self.converged && self.iteration_count < self.max_iterations
    }

    /// A fresh estimator for the given output variant: nothing estimated
    /// beyond the elements, the default iteration cap, nothing iterated.
    pub fn new(output_type: KeplerianType) -> (r: SolverState)
        ensures
            r == (SolverState {
                use_drag: false,
                use_srp: false,
                max_iterations: DEFAULT_MAX_ITERATIONS,
                iteration_count: 0,
                converged: false,
                output_type,
                has_update: false,
                has_weighted_rms: false,
            }),
            r.spec_phase() == SolverPhase::Uninitialized,
    {
        SolverState {
            use_drag: false,
            use_srp: false,
            max_iterations: DEFAULT_MAX_ITERATIONS,
            iteration_count: 0,
            converged: false,
            output_type,
            has_update: false,
            has_weighted_rms: false,
        }
    }

    pub fn phase(&self) -> (r: SolverPhase)
        ensures
            r == self.spec_phase(),
    {
        if self.converged {
            SolverPhase::Converged
        } else if self.iteration_count == 0 {
            SolverPhase::Uninitialized
        } else if self.iteration_count >= self.max_iterations {
            SolverPhase::MaxIterationsReached
        } else {
            SolverPhase::Iterating
        }
    }

    /// Starts over from the a priori: clears the iteration state and
    /// switches SRP estimation off for the Brouwer and Kozai mean variants.
    /// Returns the coefficients to seed, decided before that switch.
    pub fn reset(&mut self) -> (plan: SeedPlan)
        ensures
            *final(self) == reset_state(*old(self)),
            plan == seed_plan_of(*old(self)),
    {
        let plan = SeedPlan { seed_drag: self.use_drag, seed_srp: self.use_srp };
        self.iteration_count = 0;
        self.converged = false;
        self.has_update = false;
        self.has_weighted_rms = false;
        if self.use_srp && !self.output_type.has_srp_term() {
            self.use_srp = false;
        }
        plan
    }

    /// Changes one input and resets.
    pub fn apply(&mut self, setting: Setting) -> (plan: SeedPlan)
        ensures
            *final(self) == apply_setting(*old(self), setting),
            plan == seed_plan_of(with_setting(*old(self), setting)),
    {
        match setting {
            Setting::EstimateDrag(b) => self.use_drag = b,
            Setting::EstimateSrp(b) => self.use_srp = b,
            Setting::OutputType(t) => self.output_type = t,
            Setting::Inputs => {},
        }
        self.reset()
    }

    pub fn set_estimate_drag(&mut self, use_drag: bool) -> (plan: SeedPlan)
        ensures
            *final(self) == apply_setting(*old(self), Setting::EstimateDrag(use_drag)),
            plan == seed_plan_of(with_setting(*old(self), Setting::EstimateDrag(use_drag))),
    {
        self.apply(Setting::EstimateDrag(use_drag))
    }

    pub fn set_estimate_srp(&mut self, use_srp: bool) -> (plan: SeedPlan)
        ensures
            *final(self) == apply_setting(*old(self), Setting::EstimateSrp(use_srp)),
            plan == seed_plan_of(with_setting(*old(self), Setting::EstimateSrp(use_srp))),
    {
        self.apply(Setting::EstimateSrp(use_srp))
    }

    pub fn set_output_type(&mut self, output_type: KeplerianType) -> (plan: SeedPlan)
        ensures
            *final(self) == apply_setting(*old(self), Setting::OutputType(output_type)),
            plan == seed_plan_of(with_setting(*old(self), Setting::OutputType(output_type))),
    {
        self.apply(Setting::OutputType(output_type))
    }

    /// Changes the iteration cap; the iteration state is kept.
    pub fn set_max_iterations(&mut self, max_iterations: usize)
        ensures
            *final(self) == (SolverState { max_iterations, ..*old(self) }),
    {
        self.max_iterations = max_iterations;
    }

    pub fn get_max_iterations(&self) -> (r: usize)
        ensures
            r == self.max_iterations,
    {
        self.max_iterations
    }

    pub fn get_estimate_drag(&self) -> (r: bool)
        ensures
            r == self.use_drag,
    {
        self.use_drag
    }

    pub fn get_estimate_srp(&self) -> (r: bool)
        ensures
            r == self.use_srp,
    {
        self.use_srp
    }

    pub fn get_output_type(&self) -> (r: KeplerianType)
        ensures
            r == self.output_type,
    {
        self.output_type
    }

    pub fn get_converged(&self) -> (r: bool)
        ensures
            r == self.converged,
    {
        self.converged
    }

    pub fn get_iteration_count(&self) -> (r: usize)
        ensures
            r == self.iteration_count,
    {
        self.iteration_count
    }

    /// Clears the iteration state at the start of a solve.
    pub fn begin_solve(&mut self)
        ensures
            *final(self) == solve_start_state(*old(self)),
            final(self).spec_phase() == SolverPhase::Uninitialized,
    {
        self.iteration_count = 0;
        self.converged = false;
        self.has_update = false;
        self.has_weighted_rms = false;
    }

    /// Whether a solve runs another iteration: not converged and below the
    /// cap.
    pub fn wants_iteration(&self) -> (r: bool)
        ensures
            r == self.spec_wants_iteration(),
    {
        !self.converged && self.iteration_count < self.max_iterations
    }

    /// Records one iteration (see `iterated_state`). Returns whether its
    /// update is to be applied to the estimate.
    pub fn record_iteration(&mut self, rms_settled: bool, solved: bool) -> (apply_update: bool)
        requires
            old(self).iteration_count < usize::MAX,
        ensures
            *final(self) == iterated_state(*old(self), rms_settled, solved),
            apply_update == solved,
    {
        self.iteration_count = self.iteration_count + 1;
        if self.has_weighted_rms && rms_settled && solved {
            self.converged = true;
        }
        self.has_update = solved;
        self.has_weighted_rms = true;
        solved
    }

    /// Number of estimated parameters, the columns of the Jacobian.
    pub fn parameter_count(&self) -> (n: usize)
        ensures
            n == parameter_count_of(self.use_drag, self.use_srp),
    {
        let mut n: usize = ORBIT_PARAMETER_COUNT;
        if self.use_drag {
            n = n + 1;
        }
        if self.use_srp {
            n = n + 1;
        }
        n
    }

    /// The column of the drag coefficient, when it is estimated: right after
    /// the elements.
    pub fn drag_column(&self) -> (c: Option<usize>)
        ensures
            c == (if self.use_drag { Some(ORBIT_PARAMETER_COUNT) } else { None::<usize> }),
    {
        if self.use_drag {
            Some(ORBIT_PARAMETER_COUNT)
        } else {
            None
        }
    }

    /// The column of the SRP coefficient, when it is estimated: the last one.
    pub fn srp_column(&self) -> (c: Option<usize>)
        ensures
            c == (if self.use_srp {
                Some((parameter_count_of(self.use_drag, self.use_srp) - 1) as usize)
            } else {
                None::<usize>
            }),
    {
        if self.use_srp {
            Some(self.parameter_count() - 1)
        } else {
            None
        }
    }
}

} // verus!
