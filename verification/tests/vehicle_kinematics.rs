//! Wheel RPM to rounded ground speed.

use sdv_common::vehicle_kinematics::refresh_context_speed;
use sdv_common::vehicle_physics::rounded_kph_from_rpm;
use sdv_common::vehicle_state::VehicleContext;

#[test]
fn refresh_stores_rounded_kph_in_context() {
    let mut ctx = VehicleContext::default();
    ctx.powertrain.wheel_rpm.front_left = 3000;
    refresh_context_speed(&mut ctx);
    assert_eq!(ctx.powertrain.speed_kph, 342);
}

#[test]
fn zero_rpm_is_zero_rounded_kph() {
    assert_eq!(rounded_kph_from_rpm(0), 0);
}

#[test]
fn known_rpm_maps_to_expected_rounded_kph() {
    assert_eq!(rounded_kph_from_rpm(1000), 114);
}

#[test]
fn rounded_speed_is_monotonic_in_rpm() {
    assert!(rounded_kph_from_rpm(1500) > rounded_kph_from_rpm(500));
    assert!(rounded_kph_from_rpm(3000) > rounded_kph_from_rpm(1500));
}

#[test]
fn high_rpm_rounded_speed_is_not_capped_at_255_kph() {
    assert_eq!(rounded_kph_from_rpm(3000), 342);
    assert_eq!(rounded_kph_from_rpm(65535), 7471);
}

#[test]
fn rounding_goes_to_nearest_kph() {
    // 4 * 0.114 = 0.456 -> 0; 5 * 0.114 = 0.57 -> 1; 13 * 0.114 = 1.482 -> 1
    assert_eq!(rounded_kph_from_rpm(4), 0);
    assert_eq!(rounded_kph_from_rpm(5), 1);
    assert_eq!(rounded_kph_from_rpm(13), 1);
}
