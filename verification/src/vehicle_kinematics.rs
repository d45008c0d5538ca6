//! Wheel RPM to ground speed: the kinematic expectation of the twin.

use vstd::prelude::*;
use crate::vehicle_physics::kph_from_rpm;
use crate::vehicle_state::{powertrain_refreshed, VehicleContext};

verus! {

/// Derives the stored speed (rounded km/h) from the latest wheel RPM.
pub fn refresh_context_speed(ctx: &mut VehicleContext)
    ensures
        *final(ctx) == (VehicleContext { powertrain: powertrain_refreshed(old(ctx).powertrain), ..*old(ctx) }),
        final(ctx).powertrain.speed_kph == kph_from_rpm(old(ctx).powertrain.wheel_rpm.front_left),
{
    ctx.powertrain.refresh_speed();
}

} // verus!
