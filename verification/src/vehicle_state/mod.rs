//! The summated world of the twin: powertrain, visibility, health and the
//! front headlamp zone, each owned by its own assembly.

pub mod front_headlamp;

use vstd::prelude::*;
use crate::vehicle_physics::{kph_from_rpm, rounded_kph_from_rpm};

pub use front_headlamp::{
    ActuationIncompleteCause, HeadlampContext, HeadlampDirection, HeadlampMessage,
    HeadlampOutcome, HeadlampOutcomeView, HeadlampState, HeadlampZoneReply,
    HeadlampZoneReplyView,
};

verus! {

/// Latest RPM reported for each wheel.
#[derive(Clone, Copy, Debug, PartialEq, Eq, Structural)]
pub struct WheelRpm {
    pub front_left: u16,
    pub front_right: u16,
    pub rear_left: u16,
    pub rear_right: u16,
}

/// Powertrain assembly: wheel RPM and the speed derived from it.
#[derive(Clone, Copy, Debug, PartialEq, Eq, Structural)]
pub struct Powertrain {
    pub wheel_rpm: WheelRpm,
    pub speed_kph: u16,
}

/// Visibility assembly: the latest ambient light reading.
#[derive(Clone, Copy, Debug, PartialEq, Eq, Structural)]
pub struct Visibility {
    pub ambient_lux: u16,
}

/// Health flags of the vehicle.
#[derive(Clone, Copy, Debug, PartialEq, Eq, Structural)]
pub struct Health {
    pub fuel_level: u8,
    pub oil_pressure: u8,
    pub tyre_pressure_ok: bool,
}

/// The summated world the FSM guards read.
#[derive(Clone, Copy, Debug, PartialEq, Eq, Structural)]
pub struct VehicleContext {
    pub powertrain: Powertrain,
    pub visibility: Visibility,
    pub health: Health,
    pub headlamp: HeadlampContext,
}

/// The powertrain after a bus RPM reading: every wheel takes the reading.
pub open spec fn powertrain_with_rpm(p: Powertrain, rpm: u16) -> Powertrain {
    Powertrain {
        wheel_rpm: WheelRpm { front_left: rpm, front_right: rpm, rear_left: rpm, rear_right: rpm },
        ..p
    }
}

/// The powertrain with its speed derived again from the front-left wheel.
pub open spec fn powertrain_refreshed(p: Powertrain) -> Powertrain {
    Powertrain { speed_kph: kph_from_rpm(p.wheel_rpm.front_left) as u16, ..p }
}

/// A powertrain at standstill: wheels stopped, speed zero.
pub open spec fn powertrain_standstill() -> Powertrain {
    Powertrain {
        wheel_rpm: WheelRpm { front_left: 0, front_right: 0, rear_left: 0, rear_right: 0 },
        speed_kph: 0,
    }
}

impl Powertrain {
    /// The wheel RPM the operational rules read.
    pub open spec fn rpm(self) -> u16 {
        self.wheel_rpm.front_left
    }

    /// Records a bus RPM reading on every wheel; the speed is left as it was.
    pub fn apply_rpm(&mut self, rpm: u16)
        ensures
            *final(self) == powertrain_with_rpm(*old(self), rpm),
    {
        self.wheel_rpm = WheelRpm { front_left: rpm, front_right: rpm, rear_left: rpm, rear_right: rpm };
    }

    /// Derives the speed (rounded km/h) from the front-left wheel RPM.
    pub fn refresh_speed(&mut self)
        ensures
            *final(self) == powertrain_refreshed(*old(self)),
    {
        self.speed_kph = rounded_kph_from_rpm(self.wheel_rpm.front_left);
    }

    /// Brings the powertrain to standstill (the vehicle is not powered).
    pub fn freeze_standstill(&mut self)
        ensures
            *final(self) == powertrain_standstill(),
    {
        self.wheel_rpm = WheelRpm { front_left: 0, front_right: 0, rear_left: 0, rear_right: 0 };
        self.speed_kph = 0;
    }

    /// Records an observed ground speed.
    pub fn apply_speed(&mut self, speed_kph: u16)
        ensures
            *final(self) == (Powertrain { speed_kph, ..*old(self) }),
    {
        self.speed_kph = speed_kph;
    }
}

impl Visibility {
    /// Records an ambient light reading.
    pub fn apply_lux(&mut self, lux: u16)
        ensures
            final(self).ambient_lux == lux,
    {
        self.ambient_lux = lux;
    }
}

/// The context of a freshly started twin: stationary, healthy, daylight, lamp off.
pub open spec fn default_vehicle_context() -> VehicleContext {
    VehicleContext {
        powertrain: powertrain_standstill(),
        visibility: Visibility { ambient_lux: 100 },
        health: Health { fuel_level: 85, oil_pressure: 30, tyre_pressure_ok: true },
        headlamp: HeadlampContext { state: HeadlampState::Off, ack_pending_since: None },
    }
}

impl Default for VehicleContext {
    fn default() -> (ctx: Self)
        ensures
            ctx == default_vehicle_context(),
    {
        VehicleContext {
            powertrain: Powertrain {
                wheel_rpm: WheelRpm { front_left: 0, front_right: 0, rear_left: 0, rear_right: 0 },
                speed_kph: 0,
            },
            visibility: Visibility { ambient_lux: 100 },
            health: Health { fuel_level: 85, oil_pressure: 30, tyre_pressure_ok: true },
            headlamp: HeadlampContext { state: HeadlampState::Off, ack_pending_since: None },
        }
    }
}

} // verus!
