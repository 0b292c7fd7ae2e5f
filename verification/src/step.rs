//! One step of the target engine, as the bridge orders it.

use crate::geometry::Scalar;
use vstd::prelude::*;

verus! {

/// The integration parameters that the bridge hands from the source engine's
/// configuration to the target's. Whatever else the target can be configured
/// with stays as the target has it.
#[derive(Clone, Copy, Debug, PartialEq, Eq, Structural)]
pub struct IntegrationParameters {
    /// The largest number of iterations of the position solver.
    pub max_position_iterations: usize,
    /// The largest number of iterations of the velocity solver.
    pub max_velocity_iterations: usize,
    /// The length of the time step.
    pub dt: Scalar,
}

/// One thing for the caller to do during a step.
#[derive(Clone, Copy, Debug, PartialEq, Eq, Structural)]
pub enum StepAction {
    /// Write the three parameters into the target's configuration.
    Configure(IntegrationParameters),
    /// Tell the counters that the step starts now.
    StepStarted,
    /// Advance the target engine by one step.
    Advance,
    /// Tell the counters that the step is over.
    StepCompleted,
}

/// What a step consists of: the parameters are written first, then the
/// target is advanced once, with the two marks for the counters right before
/// and right after.
pub open spec fn step_actions(params: IntegrationParameters) -> Seq<StepAction> {
    seq![
        StepAction::Configure(params),
        StepAction::StepStarted,
        StepAction::Advance,
        StepAction::StepCompleted,
    ]
}

} // verus!
