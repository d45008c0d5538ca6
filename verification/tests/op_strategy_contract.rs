//! Compatibility contract tests: the `fsm` re-exports are the transition map.

use sdv_common::fsm::transition_map;
use sdv_common::fsm::{output, transition, FsmEvent, FsmState, VehicleContext};

fn valid_twin_context() -> VehicleContext {
    VehicleContext::default()
}

#[test]
fn given_driving_when_high_rpm_then_shim_and_strategy_transition_match() {
    let now = 1_000_000;
    let mut ctx = valid_twin_context();
    ctx.powertrain.apply_rpm(6500);

    let via_shim = transition(&FsmState::Driving, &FsmEvent::UpdateRpm(6500), &ctx, now);
    let via_strategy = transition_map::transition(&FsmState::Driving, &FsmEvent::UpdateRpm(6500), &ctx, now);

    assert_eq!(via_shim, via_strategy);
}

#[test]
fn given_warning_recovery_when_transition_occurs_then_shim_and_strategy_output_match() {
    let old_state = FsmState::Warning(1_000_000);
    let new_state = FsmState::Driving;

    let via_shim = output(&old_state, &new_state);
    let via_strategy = transition_map::output(&old_state, &new_state);

    assert_eq!(via_shim, via_strategy);
}
