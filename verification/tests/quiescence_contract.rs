//! Quiescent turns, detectors, ignition-off and the ledger rows of each hop.

use sdv_common::digital_twin::DigitalTwinCar;
use sdv_common::fsm::{
    step, ActorModeHintFromDomain, DomainAction, FsmEvent, FsmState, HeadlampState, Operational,
};
use sdv_common::twin_runtime::detectors::detect_internal_after_hop;
use sdv_common::twin_runtime::outcome_map::headlamp_outcomes_to_domain_actions;
use sdv_common::twin_runtime::twin_turn::fsm_step_lands_off;
use sdv_common::twin_runtime::zone_turn::{fsm_event_headlamp_message, zone_turn};
use sdv_common::twin_runtime::{commit_resolved_turn, run_to_quiescence, twin_turn, ResolvedTurn, ZoneReplies};
use sdv_common::vehicle_physics::{LUX_ON_THRESHOLD, RPM_DRIVING_THRESHOLD};
use sdv_common::vehicle_state::{HeadlampContext, HeadlampMessage, HeadlampOutcome, HeadlampZoneReply, VehicleContext};

const T0: u64 = 1_000_000;

fn driving_ctx(lux: u16) -> VehicleContext {
    let mut ctx = VehicleContext::default();
    ctx.visibility.ambient_lux = lux;
    ctx.powertrain.apply_rpm(RPM_DRIVING_THRESHOLD + 200);
    ctx.powertrain.refresh_speed();
    ctx
}

#[test]
fn daylight_turn_is_a_single_hop() {
    let q = run_to_quiescence(&FsmState::Driving, &driving_ctx(100), &FsmEvent::TimerTick, T0, None, None);
    assert_eq!(q.hops.len(), 1);
    assert_eq!(q.hops[0].event, FsmEvent::TimerTick);
    assert_eq!(q.final_step().next_state, FsmState::Driving);
}

#[test]
fn dark_with_lamp_off_adds_internal_hop_to_driving_dangerously() {
    let q = run_to_quiescence(&FsmState::Driving, &driving_ctx(20), &FsmEvent::TimerTick, T0, None, None);
    assert_eq!(q.hops.len(), 2);
    assert_eq!(q.hops[1].event, FsmEvent::Internal(Operational::LightingUnsafe));
    assert_eq!(q.hops[1].result.next_state, FsmState::DrivingDangerously);
    assert!(q.hops[1].result.actions.contains(&DomainAction::StartBuzzer));
    // The internal hop runs no zone work: the assemblies are those of the first exit cut.
    assert_eq!(q.hops[1].result.modified_ctx, q.hops[0].result.modified_ctx);
    // Merged actions are the hops' actions in order.
    let mut expected = Vec::new();
    for h in &q.hops {
        expected.extend(h.result.actions.iter().cloned());
    }
    assert_eq!(q.merged_actions(), expected);
}

#[test]
fn dark_low_lux_ingress_requests_lamp_and_stays_driving() {
    // The lux reading itself asks the lamp ON: OnRequested is not unsafe.
    let q = run_to_quiescence(&FsmState::Driving, &driving_ctx(100), &FsmEvent::UpdateAmbientLux(10), T0, None, None);
    assert_eq!(q.hops.len(), 1);
    let last = q.final_step();
    assert_eq!(last.next_state, FsmState::Driving);
    assert_eq!(last.modified_ctx.headlamp.state, HeadlampState::OnRequested);
    assert_eq!(last.actions, vec![DomainAction::RequestFrontHeadlampOn]);
}

#[test]
fn redline_in_the_dark_takes_precedence_over_lighting() {
    let q = run_to_quiescence(&FsmState::Driving, &driving_ctx(20), &FsmEvent::UpdateRpm(6500), T0, None, None);
    assert_eq!(q.hops.len(), 1);
    assert_eq!(q.final_step().next_state, FsmState::Warning(T0));
}

#[test]
fn confirmed_lamp_recovers_from_driving_dangerously() {
    let mut ctx = driving_ctx(20);
    ctx.headlamp = HeadlampContext { state: HeadlampState::OnRequested, ack_pending_since: Some(T0) };
    let q = run_to_quiescence(&FsmState::DrivingDangerously, &ctx, &FsmEvent::FrontHeadlampOnAck, T0 + 5, None, None);
    assert_eq!(q.hops.len(), 1);
    let last = q.final_step();
    assert_eq!(last.next_state, FsmState::Driving);
    assert_eq!(last.modified_ctx.headlamp.state, HeadlampState::On);
    assert!(last.actions.contains(&DomainAction::StopBuzzer));
}

#[test]
fn landing_off_resets_the_headlamp_zone() {
    let mut ctx = VehicleContext::default();
    ctx.headlamp = HeadlampContext { state: HeadlampState::On, ack_pending_since: None };
    let r = twin_turn(&FsmState::Idle, &ctx, &FsmEvent::PowerOff, T0);
    assert_eq!(r.next_state, FsmState::Off);
    assert_eq!(r.modified_ctx.headlamp, HeadlampContext::default());
    assert_eq!(r.actions[0], DomainAction::RequestFrontHeadlampOff);
    assert_eq!(r.transition_record.current_ctx, r.modified_ctx);
    assert!(fsm_step_lands_off(&FsmState::Idle, &ctx, &FsmEvent::PowerOff, T0, None));
    assert!(!fsm_step_lands_off(&FsmState::Off, &ctx, &FsmEvent::PowerOff, T0, None));
}

#[test]
fn ignition_off_tell_back_wins_over_local_reset() {
    let mut ctx = VehicleContext::default();
    ctx.headlamp = HeadlampContext { state: HeadlampState::On, ack_pending_since: None };
    let embed = HeadlampZoneReply {
        ctx: HeadlampContext { state: HeadlampState::Off, ack_pending_since: None },
        outcomes: vec![HeadlampOutcome::LogWarning("reset by zone".to_string())],
    };
    let mut replies = ZoneReplies::simulate_locally();
    replies.headlamp.ignition_off = Some(embed);
    let q = commit_resolved_turn(
        &FsmState::Idle,
        &ctx,
        ResolvedTurn { ingress: FsmEvent::PowerOff, now: T0, zone_replies: replies },
    );
    assert_eq!(q.hops.len(), 1);
    assert_eq!(q.final_step().actions[0], DomainAction::LogWarning("reset by zone".to_string()));
}

#[test]
fn refused_power_off_is_logged_and_mode_kept() {
    let ctx = driving_ctx(100);
    let r = step(&FsmState::Driving, &ctx, &FsmEvent::PowerOff, T0);
    assert_eq!(r.next_state, FsmState::Driving);
    assert_eq!(
        r.actions,
        vec![DomainAction::LogWarning("Power off rejected while the vehicle is moving".to_string())]
    );
}

#[test]
fn off_ignores_everything_but_power_on() {
    let ctx = VehicleContext::default();
    for e in [FsmEvent::UpdateRpm(3000), FsmEvent::TimerTick, FsmEvent::PowerOff, FsmEvent::UpdateSpeed(40)] {
        let r = step(&FsmState::Off, &ctx, &e, T0);
        assert_eq!(r.next_state, FsmState::Off);
        assert!(r.actions.is_empty());
        assert_eq!(r.modified_ctx.powertrain.speed_kph, 0);
    }
    let r = step(&FsmState::Off, &ctx, &FsmEvent::PowerOn, T0);
    assert_eq!(r.next_state, FsmState::Idle);
}

#[test]
fn mode_change_actions_and_record_omit_mode_hint() {
    let r = step(&FsmState::Off, &VehicleContext::default(), &FsmEvent::PowerOn, T0);
    assert_eq!(
        r.actions,
        vec![DomainAction::PublishStateSync, DomainAction::EnterMode(ActorModeHintFromDomain::Normal)]
    );
    assert_eq!(r.transition_record.actions, vec![DomainAction::PublishStateSync]);
    assert_eq!(r.transition_record.old_state, FsmState::Off);
    assert_eq!(r.transition_record.next_state, FsmState::Idle);
    assert_eq!(r.transition_record.at, T0);
}

#[test]
fn detector_fires_only_for_driving_dark_and_lamp_off() {
    let dark = driving_ctx(LUX_ON_THRESHOLD);
    assert_eq!(
        detect_internal_after_hop(&FsmState::Driving, &dark),
        Some(FsmEvent::Internal(Operational::LightingUnsafe))
    );
    assert_eq!(detect_internal_after_hop(&FsmState::Idle, &dark), None);
    assert_eq!(detect_internal_after_hop(&FsmState::Driving, &driving_ctx(LUX_ON_THRESHOLD + 1)), None);
    let mut pending = dark;
    pending.headlamp.state = HeadlampState::OnRequested;
    assert_eq!(detect_internal_after_hop(&FsmState::Driving, &pending), None);
}

#[test]
fn zone_turn_demuxes_only_headlamp_messages() {
    let ctx = driving_ctx(100);
    let z = zone_turn(&ctx, &FsmEvent::UpdateRpm(2000), &FsmState::Driving, T0, &ZoneReplies::simulate_locally());
    assert_eq!(z.ctx.powertrain.wheel_rpm.front_left, 2000);
    assert_eq!(z.ctx.powertrain.speed_kph, 228);
    assert_eq!(z.ctx.headlamp, ctx.headlamp);
    assert!(z.headlamp_outcomes.is_empty());
    let z = zone_turn(&ctx, &FsmEvent::UpdateRpm(2000), &FsmState::Off, T0, &ZoneReplies::simulate_locally());
    assert_eq!(z.ctx.powertrain.speed_kph, 0);
    assert_eq!(fsm_event_headlamp_message(&FsmEvent::TimerTick), None);
    assert_eq!(fsm_event_headlamp_message(&FsmEvent::FrontHeadlampOnAck), Some(HeadlampMessage::AckOn));
}

#[test]
fn outcomes_map_one_to_one_in_order() {
    let actions = headlamp_outcomes_to_domain_actions(vec![
        HeadlampOutcome::RequestOff,
        HeadlampOutcome::LogWarning("w".to_string()),
        HeadlampOutcome::RequestOn,
    ]);
    assert_eq!(
        actions,
        vec![
            DomainAction::RequestFrontHeadlampOff,
            DomainAction::LogWarning("w".to_string()),
            DomainAction::RequestFrontHeadlampOn,
        ]
    );
}

#[test]
fn twin_persists_the_exit_cut() {
    let mut car = DigitalTwinCar::new("NASHIK-VC-001".to_string(), VehicleContext::default());
    let r = step(&car.current_state, &car.context, &FsmEvent::PowerOn, T0);
    car.apply_step(&r);
    assert_eq!(car.current_state, FsmState::Idle);
    assert_eq!(car.context(), &r.modified_ctx);
    assert_eq!(car.identity, "NASHIK-VC-001");
}
