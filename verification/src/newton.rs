use vstd::prelude::*;

verus! {

/// Upper bound on the number of Newton steps taken when searching for the
/// curve parameter closest to a point.
pub const MAX_NEWTON_STEPS: u32 = 64;

/// Outcome of the tests made at one Newton step of the closest-point search.
#[derive(Clone, Copy, Debug, PartialEq, Eq, Structural)]
pub struct NewtonTests {
    /// The current point is within tolerance of the target.
    pub residual_small: bool,
    /// The Newton denominator is too close to zero to divide by.
    pub denominator_tiny: bool,
    /// The clamped step moves the point by less than the tolerance.
    pub step_small: bool,
}

/// What to do after one Newton step.
#[derive(Clone, Copy, Debug, PartialEq, Eq, Structural)]
pub enum NewtonAction {
    /// Stop and answer the current parameter.
    KeepCurrent,
    /// Stop and answer the parameter that the step leads to.
    AcceptNext,
    /// Move to the parameter that the step leads to and go on.
    Step,
}

/// The tests are made in order: a small residual or a vanishing denominator
/// ends the search at the current parameter; otherwise a small step ends it
/// at the next parameter; otherwise the search goes on.
pub open spec fn spec_newton_action(tests: NewtonTests) -> NewtonAction {
    if tests.residual_small || tests.denominator_tiny {
        NewtonAction::KeepCurrent
    } else if tests.step_small {
        NewtonAction::AcceptNext
    } else {
        NewtonAction::Step
    }
}

/// The control state of one closest-point search: how many steps it has taken.
pub struct NewtonSearch {
    steps: u32,
}

impl NewtonSearch {
    #[verifier::type_invariant]
    spec fn within_budget(self) -> bool {
        self.steps <= MAX_NEWTON_STEPS
    }

    /// Number of steps taken so far.
    pub closed spec fn steps(self) -> nat {
        self.steps as nat
    }

    pub fn new() -> (search: Self)
        ensures
            search.steps() == 0,
    {
        NewtonSearch { steps: 0 }
    }

    /// Whether the step budget is used up; the search then answers the
    /// current parameter.
    pub fn exhausted(&self) -> (b: bool)
        ensures
            b == (self.steps() == MAX_NEWTON_STEPS),
            b == (self.steps() == 64),
            self.steps() <= 64,
    {
        proof {
            use_type_invariant(self);
        }
        self.steps == MAX_NEWTON_STEPS
    }

    /// Decides the outcome of one step from its tests; only a step that
    /// goes on counts against the budget.
    pub fn decide(&mut self, tests: NewtonTests) -> (action: NewtonAction)
        requires
            old(self).steps() < MAX_NEWTON_STEPS,
        ensures
            action == spec_newton_action(tests),
            tests.residual_small ==> action == NewtonAction::KeepCurrent,
            tests.denominator_tiny ==> action == NewtonAction::KeepCurrent,
            !tests.residual_small && !tests.denominator_tiny && tests.step_small ==> action
                == NewtonAction::AcceptNext,
            !tests.residual_small && !tests.denominator_tiny && !tests.step_small ==> action
                == NewtonAction::Step,
            final(self).steps() == old(self).steps() + if action == NewtonAction::Step {
                1nat
            } else {
                0nat
            },
            final(self).steps() <= 64,
    {
        if tests.residual_small || tests.denominator_tiny {
            NewtonAction::KeepCurrent
        } else if tests.step_small {
            NewtonAction::AcceptNext
        } else {
            self.steps = self.steps + 1;
            NewtonAction::Step
        }
    }
}

} // verus!
