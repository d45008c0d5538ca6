//! Detectors: read the exit cut of a hop and may propose an internal event.
//! They never choose the next mode themselves.

use vstd::prelude::*;
use crate::fsm::{FsmEvent, FsmState, Operational};
use crate::vehicle_physics::LUX_ON_THRESHOLD;
use crate::vehicle_state::{HeadlampState, VehicleContext};

verus! {

/// Whether the exit cut is driving in the dark with the lamp confirmed off.
pub open spec fn lighting_unsafe(state: FsmState, ctx: VehicleContext) -> bool {
    state == FsmState::Driving
        && ctx.visibility.ambient_lux <= LUX_ON_THRESHOLD
        && ctx.headlamp.state == HeadlampState::Off
}

/// The internal event the detector catalog proposes for an exit cut, if any.
pub open spec fn detection(state: FsmState, ctx: VehicleContext) -> Option<FsmEvent> {
    if lighting_unsafe(state, ctx) {
        Some(FsmEvent::Internal(Operational::LightingUnsafe))
    } else {
        None
    }
}

/// Runs the detector catalog on the exit cut of a hop.
pub fn detect_internal_after_hop(next_state: &FsmState, ctx: &VehicleContext) -> (r: Option<FsmEvent>)
    ensures
        r == detection(*next_state, *ctx),
{
    if *next_state == FsmState::Driving
        && ctx.visibility.ambient_lux <= LUX_ON_THRESHOLD
        && ctx.headlamp.state == HeadlampState::Off {
        Some(FsmEvent::Internal(Operational::LightingUnsafe))
    } else {
        None
    }
}


/// The lighting-unsafe event is proposed only for a `Driving` exit cut in the
/// dark (at or below `LUX_ON_THRESHOLD`) with the lamp confirmed off: never
/// while an ON request is pending, never from another mode (so a hop that
/// reached the warning mode takes precedence).
pub proof fn law_lighting_unsafe_only_when_driving_dark_lamp_off(state: FsmState, ctx: VehicleContext)
    ensures
        detection(state, ctx) is Some <==> {
            &&& state == FsmState::Driving
            &&& ctx.visibility.ambient_lux <= LUX_ON_THRESHOLD
            &&& ctx.headlamp.state == HeadlampState::Off
        },
        detection(state, ctx) is Some ==> detection(state, ctx) == Some(FsmEvent::Internal(Operational::LightingUnsafe)),
{
}

} // verus!
