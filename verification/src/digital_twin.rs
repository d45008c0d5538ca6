//! The persisted twin: identity plus the current cut (mode and context).

use vstd::prelude::*;
use crate::fsm::{FsmState, StepResult};
use crate::vehicle_state::VehicleContext;

verus! {

/// A digital twin of one physical car.
#[derive(Debug, Clone, PartialEq, Eq)]
pub struct DigitalTwinCar {
    pub identity: String,
    pub current_state: FsmState,
    pub context: VehicleContext,
}

impl DigitalTwinCar {
    /// A powered-off twin of the car named `identity`, in context `context`.
    pub fn new(identity: String, context: VehicleContext) -> (car: Self)
        ensures
            car.identity == identity,
            car.current_state == FsmState::Off,
            car.context == context,
    {
        DigitalTwinCar { identity, current_state: FsmState::Off, context }
    }

    /// The twin's current context.
    pub fn context(&self) -> (ctx: &VehicleContext)
        ensures
            *ctx == self.context,
    {
        &self.context
    }

    /// Persists the exit cut of a step; the identity is kept.
    pub fn apply_step(&mut self, result: &StepResult)
        ensures
            final(self).identity == old(self).identity,
            final(self).current_state == result.next_state,
            final(self).context == result.modified_ctx,
    {
        self.current_state = result.next_state;
        self.context = result.modified_ctx;
    }
}

} // verus!
