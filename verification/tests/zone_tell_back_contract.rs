//! Unit tests for tell-back retry / synthetic embed policy.

use sdv_common::fsm::DomainAction;
use sdv_common::fsm::{FsmEvent, FsmState};
use sdv_common::twin_runtime::constants::ZONE_TELL_BACK_MAX_RETRIES;
use sdv_common::twin_runtime::twin_turn;
use sdv_common::twin_runtime::zone_tell_back::{
    on_tell_back_timeout, synthetic_unresponsive_headlamp_reply, TellBackTimeoutOutcome, TellBackWait,
};
use sdv_common::vehicle_physics::{LUX_ON_THRESHOLD, RPM_DRIVING_THRESHOLD};
use sdv_common::vehicle_state::{HeadlampContext, HeadlampOutcome};

#[test]
fn tell_back_wait_retries_then_synthesizes_unresponsive_embed() {
    let ctx = HeadlampContext::default();
    let mut wait = TellBackWait::new(7);

    for remaining in (0..ZONE_TELL_BACK_MAX_RETRIES).rev() {
        assert_eq!(wait.retries_remaining, remaining + 1);
        match on_tell_back_timeout(&ctx, wait) {
            TellBackTimeoutOutcome::Retry(next) => wait = next,
            TellBackTimeoutOutcome::Exhausted(_) => panic!("expected retry"),
        }
    }

    match on_tell_back_timeout(&ctx, wait) {
        TellBackTimeoutOutcome::Exhausted(reply) => {
            assert_eq!(reply.ctx, ctx);
            assert!(matches!(
                &reply.outcomes[0],
                HeadlampOutcome::LogWarning(msg) if msg.contains("unresponsive")
            ));
        }
        TellBackTimeoutOutcome::Retry(_) => panic!("expected synthetic embed"),
    }
}

#[test]
fn synthetic_unresponsive_embed_surfaces_log_warning_on_commit() {
    let t0 = 1_000_000;
    let ctx = HeadlampContext::default();
    let synthetic = synthetic_unresponsive_headlamp_reply(&ctx);
    let result = twin_turn::commit_brain_turn(
        &FsmState::Driving,
        &driving_ctx(),
        &FsmEvent::TimerTick,
        t0,
        Some(synthetic),
        None,
    );
    assert!(
        result.actions.iter().any(|a| matches!(a, DomainAction::LogWarning(msg) if msg.contains("unresponsive"))),
        "ledger path must carry unresponsive warning, got {:?}",
        result.actions
    );
}

fn driving_ctx() -> sdv_common::vehicle_state::VehicleContext {
    let mut ctx = sdv_common::vehicle_state::VehicleContext::default();
    ctx.visibility.ambient_lux = LUX_ON_THRESHOLD;
    ctx.powertrain.apply_rpm(RPM_DRIVING_THRESHOLD + 100);
    ctx.powertrain.refresh_speed();
    ctx
}
