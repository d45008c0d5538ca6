//! Front headlamp zone: hysteresis, pending states, acknowledgements, timeouts.

use sdv_common::twin_runtime::HeadlampActor;
use sdv_common::vehicle_physics::{
    FRONT_HEADLAMP_OFF_ACK_WAIT, FRONT_HEADLAMP_ON_ACK_WAIT, LUX_OFF_THRESHOLD, LUX_ON_THRESHOLD,
};
use sdv_common::vehicle_state::{
    ActuationIncompleteCause, HeadlampContext, HeadlampDirection, HeadlampMessage, HeadlampOutcome,
    HeadlampState,
};

const T0: u64 = 50_000;

fn ctx(state: HeadlampState, since: Option<u64>) -> HeadlampContext {
    HeadlampContext { state, ack_pending_since: since }
}

#[test]
fn off_and_low_lux_requests_on_and_waits() {
    let r = HeadlampContext::default().on_receiving_message(HeadlampMessage::AmbientLux(LUX_ON_THRESHOLD), T0);
    assert_eq!(r.ctx, ctx(HeadlampState::OnRequested, Some(T0)));
    assert_eq!(r.outcomes, vec![HeadlampOutcome::RequestOn]);
}

#[test]
fn off_and_lux_just_above_on_threshold_does_nothing() {
    let r = HeadlampContext::default().on_receiving_message(HeadlampMessage::AmbientLux(LUX_ON_THRESHOLD + 1), T0);
    assert_eq!(r.ctx, HeadlampContext::default());
    assert!(r.outcomes.is_empty());
}

#[test]
fn on_requested_and_ack_becomes_on() {
    let r = ctx(HeadlampState::OnRequested, Some(T0)).on_receiving_message(HeadlampMessage::AckOn, T0 + 10);
    assert_eq!(r.ctx, ctx(HeadlampState::On, None));
    assert!(r.outcomes.is_empty());
}

#[test]
fn on_and_high_lux_requests_off() {
    let r = ctx(HeadlampState::On, None).on_receiving_message(HeadlampMessage::AmbientLux(LUX_OFF_THRESHOLD), T0);
    assert_eq!(r.ctx, ctx(HeadlampState::OffRequested, Some(T0)));
    assert_eq!(r.outcomes, vec![HeadlampOutcome::RequestOff]);
}

#[test]
fn on_and_lux_between_thresholds_stays_on() {
    let r = ctx(HeadlampState::On, None).on_receiving_message(HeadlampMessage::AmbientLux(LUX_OFF_THRESHOLD - 1), T0);
    assert_eq!(r.ctx, ctx(HeadlampState::On, None));
    assert!(r.outcomes.is_empty());
}

#[test]
fn off_requested_and_ack_becomes_off() {
    let r = ctx(HeadlampState::OffRequested, Some(T0)).on_receiving_message(HeadlampMessage::AckOff, T0 + 10);
    assert_eq!(r.ctx, ctx(HeadlampState::Off, None));
    assert!(r.outcomes.is_empty());
}

#[test]
fn repeated_low_lux_while_on_requested_sends_no_duplicate() {
    let first = HeadlampContext::default().on_receiving_message(HeadlampMessage::AmbientLux(10), T0);
    let second = first.ctx.on_receiving_message(HeadlampMessage::AmbientLux(10), T0 + 100);
    assert_eq!(second.ctx, first.ctx);
    assert!(second.outcomes.is_empty());
}

#[test]
fn repeated_high_lux_while_off_requested_sends_no_duplicate() {
    let first = ctx(HeadlampState::On, None).on_receiving_message(HeadlampMessage::AmbientLux(500), T0);
    let second = first.ctx.on_receiving_message(HeadlampMessage::AmbientLux(500), T0 + 100);
    assert_eq!(second.ctx, first.ctx);
    assert!(second.outcomes.is_empty());
}

#[test]
fn stale_ack_is_ignored() {
    let r = HeadlampContext::default().on_receiving_message(HeadlampMessage::AckOn, T0);
    assert_eq!(r.ctx, HeadlampContext::default());
    let r = ctx(HeadlampState::On, None).on_receiving_message(HeadlampMessage::AckOff, T0);
    assert_eq!(r.ctx, ctx(HeadlampState::On, None));
}

#[test]
fn nack_on_on_request_falls_back_to_off_with_warning() {
    let r = ctx(HeadlampState::OnRequested, Some(T0)).on_receiving_message(
        HeadlampMessage::ActuationIncomplete {
            direction: HeadlampDirection::On,
            cause: ActuationIncompleteCause::Nack,
        },
        T0 + 5,
    );
    assert_eq!(r.ctx, ctx(HeadlampState::Off, None));
    assert_eq!(
        r.outcomes,
        vec![HeadlampOutcome::LogWarning("front headlamp ON request rejected by the actuator".to_string())]
    );
}

#[test]
fn no_response_on_off_request_falls_back_to_on_with_warning() {
    let r = ctx(HeadlampState::OffRequested, Some(T0)).on_receiving_message(
        HeadlampMessage::ActuationIncomplete {
            direction: HeadlampDirection::Off,
            cause: ActuationIncompleteCause::NoResponse,
        },
        T0 + 5,
    );
    assert_eq!(r.ctx, ctx(HeadlampState::On, None));
    assert_eq!(
        r.outcomes,
        vec![HeadlampOutcome::LogWarning(
            "front headlamp OFF request got no response from the actuator".to_string()
        )]
    );
}

#[test]
fn incomplete_for_the_other_direction_is_ignored() {
    let pending = ctx(HeadlampState::OnRequested, Some(T0));
    let r = pending.on_receiving_message(
        HeadlampMessage::ActuationIncomplete {
            direction: HeadlampDirection::Off,
            cause: ActuationIncompleteCause::Nack,
        },
        T0 + 5,
    );
    assert_eq!(r.ctx, pending);
    assert!(r.outcomes.is_empty());
}

#[test]
fn on_ack_wait_times_out_exactly_at_the_deadline() {
    let pending = ctx(HeadlampState::OnRequested, Some(T0));
    let early = pending.on_receiving_message(HeadlampMessage::TimerTick, T0 + FRONT_HEADLAMP_ON_ACK_WAIT - 1);
    assert_eq!(early.ctx, pending);
    assert!(early.outcomes.is_empty());
    let late = pending.on_receiving_message(HeadlampMessage::TimerTick, T0 + FRONT_HEADLAMP_ON_ACK_WAIT);
    assert_eq!(late.ctx, ctx(HeadlampState::Off, None));
    assert!(matches!(&late.outcomes[0], HeadlampOutcome::LogWarning(m) if m.contains("timed out")));
}

#[test]
fn off_ack_wait_times_out_back_to_on() {
    let pending = ctx(HeadlampState::OffRequested, Some(T0));
    let late = pending.on_receiving_message(HeadlampMessage::TimerTick, T0 + FRONT_HEADLAMP_OFF_ACK_WAIT);
    assert_eq!(late.ctx, ctx(HeadlampState::On, None));
    assert_eq!(late.outcomes.len(), 1);
}

#[test]
fn ignition_off_reset_turns_a_lit_lamp_off() {
    let r = ctx(HeadlampState::On, None).on_receiving_message(HeadlampMessage::ResetForIgnitionOff, T0);
    assert_eq!(r.ctx, ctx(HeadlampState::Off, None));
    assert_eq!(r.outcomes, vec![HeadlampOutcome::RequestOff]);
    let r = ctx(HeadlampState::OnRequested, Some(T0)).on_receiving_message(HeadlampMessage::ResetForIgnitionOff, T0);
    assert_eq!(r.ctx, ctx(HeadlampState::Off, None));
    assert!(r.outcomes.is_empty());
}

#[test]
fn headlamp_actor_keeps_the_reply_context() {
    let actor = HeadlampActor;
    let mut state = HeadlampContext::default();
    let reply = actor.handle_message(&mut state, HeadlampMessage::AmbientLux(5), T0);
    assert_eq!(state, reply.ctx);
    assert_eq!(state.state, HeadlampState::OnRequested);
    let reply = actor.handle_message(&mut state, HeadlampMessage::AckOn, T0 + 1);
    assert_eq!(state, reply.ctx);
    assert_eq!(state.state, HeadlampState::On);
}
