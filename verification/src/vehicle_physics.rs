//! Physical constants and derived quantities shared by every layer.

use vstd::prelude::*;

verus! {

/// Wheel RPM at or above which an idle vehicle is considered to be driving.
pub const RPM_DRIVING_THRESHOLD: u16 = 1000;

/// Wheel RPM at or above which a driving vehicle enters the warning mode.
pub const RPM_WARNING_THRESHOLD: u16 = 6000;

/// Wheel RPM at or below which a warning may recover (after the cooldown).
pub const RPM_RECOVERY_THRESHOLD: u16 = 4000;

/// Minimum time (milliseconds) a warning lasts before it may recover.
pub const WARNING_COOLDOWN_MS: u64 = 5000;

/// Ambient lux at or below which the front headlamp is requested ON.
pub const LUX_ON_THRESHOLD: u16 = 50;

/// Ambient lux at or above which the front headlamp is requested OFF.
pub const LUX_OFF_THRESHOLD: u16 = 150;

/// How long (milliseconds) the headlamp zone waits for an ON acknowledgement.
pub const FRONT_HEADLAMP_ON_ACK_WAIT: u64 = 2000;

/// How long (milliseconds) the headlamp zone waits for an OFF acknowledgement.
pub const FRONT_HEADLAMP_OFF_ACK_WAIT: u64 = 2000;

/// Ground speed (km/h) of a wheel turning at `rpm`, rounded to the nearest
/// integer: `rpm * 0.114`, the multiplier `(2 * pi * 0.303 m * 3.6) / 60`.
pub open spec fn kph_from_rpm(rpm: u16) -> int {
    (rpm * 114 + 500) / 1000
}

/// Rounded ground speed for a wheel RPM.
pub fn rounded_kph_from_rpm(rpm: u16) -> (kph: u16)
    ensures
        kph == kph_from_rpm(rpm),
        kph * 1000 <= rpm * 114 + 500 < (kph + 1) * 1000,
{
    let wide: u32 = rpm as u32;
    let k: u32 = (wide * 114 + 500) / 1000;
    k as u16
}


/// Speed is monotone in wheel RPM, and zero RPM is standstill.
pub proof fn law_speed_monotone_in_rpm(a: u16, b: u16)
    ensures
        a <= b ==> kph_from_rpm(a) <= kph_from_rpm(b),
        kph_from_rpm(0) == 0,
        kph_from_rpm(a) <= 7471,
{
    if a <= b {
        assert(a * 114 + 500 <= b * 114 + 500) by (nonlinear_arith)
            requires a <= b;
        vstd::arithmetic::div_mod::lemma_div_is_ordered((a * 114 + 500) as int, (b * 114 + 500) as int, 1000);
    }
    assert(a * 114 + 500 <= 65535 * 114 + 500) by (nonlinear_arith)
        requires a <= 65535;
    vstd::arithmetic::div_mod::lemma_div_is_ordered((a * 114 + 500) as int, 65535int * 114 + 500, 1000);
}

} // verus!
