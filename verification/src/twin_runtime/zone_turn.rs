//! Ingress demux: an FSM event becomes per-zone messages; each zone's reply
//! (a tell-back embed, or the in-process handler) is merged into the context.
//! The operational FSM is not run here.

use vstd::prelude::*;
use crate::fsm::{FsmEvent, FsmState};
use crate::fsm::transition_map::{derive_context, derived_context};
use crate::twin_runtime::zone_replies::ZoneReplies;
use crate::vehicle_state::{
    HeadlampMessage, HeadlampOutcome, HeadlampOutcomeView, HeadlampState,
    HeadlampZoneReply, HeadlampZoneReplyView, VehicleContext,
};
use crate::vehicle_state::front_headlamp::headlamp_reply;

verus! {

/// Zone layer output for one event.
#[derive(Debug, PartialEq, Eq)]
pub struct ZoneTurnResult {
    pub ctx: VehicleContext,
    pub headlamp_outcomes: Vec<HeadlampOutcome>,
    pub headlamp_before: HeadlampState,
}

/// Mathematical form of a [`ZoneTurnResult`].
pub struct ZoneTurnView {
    pub ctx: VehicleContext,
    pub headlamp_outcomes: Seq<HeadlampOutcomeView>,
    pub headlamp_before: HeadlampState,
}

impl View for ZoneTurnResult {
    type V = ZoneTurnView;

    open spec fn view(&self) -> ZoneTurnView {
        ZoneTurnView {
            ctx: self.ctx,
            headlamp_outcomes: self.headlamp_outcomes.deep_view(),
            headlamp_before: self.headlamp_before,
        }
    }
}

/// The headlamp message an FSM event carries, if any.
pub open spec fn event_headlamp_message(event: FsmEvent) -> Option<HeadlampMessage> {
    match event {
        FsmEvent::UpdateAmbientLux(lux) => Some(HeadlampMessage::AmbientLux(lux)),
        FsmEvent::FrontHeadlampOnAck => Some(HeadlampMessage::AckOn),
        FsmEvent::FrontHeadlampOffAck => Some(HeadlampMessage::AckOff),
        FsmEvent::FrontHeadlampActuationIncomplete { direction, cause } =>
            Some(HeadlampMessage::ActuationIncomplete { direction, cause }),
        _ => None,
    }
}

/// The headlamp message an FSM event carries, if any.
pub fn fsm_event_headlamp_message(event: &FsmEvent) -> (m: Option<HeadlampMessage>)
    ensures
        m == event_headlamp_message(*event),
{
    match event {
        FsmEvent::UpdateAmbientLux(lux) => Some(HeadlampMessage::AmbientLux(*lux)),
        FsmEvent::FrontHeadlampOnAck => Some(HeadlampMessage::AckOn),
        FsmEvent::FrontHeadlampOffAck => Some(HeadlampMessage::AckOff),
        FsmEvent::FrontHeadlampActuationIncomplete { direction, cause } => {
            Some(HeadlampMessage::ActuationIncomplete { direction: *direction, cause: *cause })
        },
        FsmEvent::UpdateRpm(_)
        | FsmEvent::UpdateSpeed(_)
        | FsmEvent::PowerOn
        | FsmEvent::PowerOff
        | FsmEvent::TimerTick
        | FsmEvent::Internal(_) => None,
    }
}

/// The message the headlamp zone handles during a zone turn for `event`:
/// the message the event carries, or the zone's timer on a heartbeat.
pub open spec fn zone_headlamp_message(event: FsmEvent) -> Option<HeadlampMessage> {
    if event == FsmEvent::TimerTick {
        Some(HeadlampMessage::TimerTick)
    } else {
        event_headlamp_message(event)
    }
}

/// The headlamp reply merged for `msg`: the tell-back embed when there is
/// one, otherwise the in-process handler's reply.
pub open spec fn merged_headlamp(
    ctx: VehicleContext,
    msg: HeadlampMessage,
    now: u64,
    tell_back: Option<HeadlampZoneReplyView>,
) -> HeadlampZoneReplyView {
    match tell_back {
        Some(r) => r,
        None => headlamp_reply(ctx.headlamp, msg, now),
    }
}

/// The zone turn: payload recorded in the context, the headlamp context and
/// outcomes taken from the merged headlamp reply.
pub open spec fn zone_view(
    ctx: VehicleContext,
    event: FsmEvent,
    state: FsmState,
    now: u64,
    tell_back: Option<HeadlampZoneReplyView>,
) -> ZoneTurnView {
    let base = derived_context(ctx, event, state);
    match zone_headlamp_message(event) {
        Some(msg) => {
            let r = merged_headlamp(ctx, msg, now, tell_back);
            ZoneTurnView {
                ctx: VehicleContext { headlamp: r.ctx, ..base },
                headlamp_outcomes: r.outcomes,
                headlamp_before: ctx.headlamp.state,
            }
        },
        None => ZoneTurnView {
            ctx: base,
            headlamp_outcomes: Seq::empty(),
            headlamp_before: ctx.headlamp.state,
        },
    }
}

/// Mathematical form of an optional borrowed zone reply.
pub open spec fn borrowed_reply_view(r: Option<&HeadlampZoneReply>) -> Option<HeadlampZoneReplyView> {
    match r {
        Some(x) => Some(x@),
        None => None,
    }
}

fn merge_headlamp_for_message(
    ctx: &VehicleContext,
    message: HeadlampMessage,
    now: u64,
    tell_back: Option<&HeadlampZoneReply>,
) -> (r: HeadlampZoneReply)
    ensures
        r@ == merged_headlamp(*ctx, message, now, borrowed_reply_view(tell_back)),
{
    match tell_back {
        Some(reply) => reply.clone(),
        None => ctx.headlamp.on_receiving_message(message, now),
    }
}

/// Zone turn with the headlamp ingress embed given directly.
pub fn zone_turn_with_ingress(
    ctx: &VehicleContext,
    event: &FsmEvent,
    current_state: &FsmState,
    now: u64,
    ingress: Option<&HeadlampZoneReply>,
) -> (result: ZoneTurnResult)
    ensures
        result@ == zone_view(*ctx, *event, *current_state, now, borrowed_reply_view(ingress)),
{
    let headlamp_before = ctx.headlamp.state;
    let mut next = derive_context(ctx, event, current_state);
    let message = match event {
        FsmEvent::TimerTick => Some(HeadlampMessage::TimerTick),
        _ => fsm_event_headlamp_message(event),
    };
    match message {
        Some(msg) => {
            let zone_reply = merge_headlamp_for_message(ctx, msg, now, ingress);
            next.headlamp = zone_reply.ctx;
            ZoneTurnResult { ctx: next, headlamp_outcomes: zone_reply.outcomes, headlamp_before }
        },
        None => {
            let result = ZoneTurnResult { ctx: next, headlamp_outcomes: Vec::new(), headlamp_before };
            assert(result@.headlamp_outcomes =~= Seq::<HeadlampOutcomeView>::empty());
            result
        },
    }
}

/// Applies an ingress event to the zones. The headlamp tell-back embed in
/// `zone_replies`, when present, wins over the in-process handler.
pub fn zone_turn(
    ctx: &VehicleContext,
    event: &FsmEvent,
    current_state: &FsmState,
    now: u64,
    zone_replies: &ZoneReplies,
) -> (result: ZoneTurnResult)
    ensures
        result@ == zone_view(
            *ctx,
            *event,
            *current_state,
            now,
            crate::twin_runtime::zone_replies::reply_view(zone_replies.headlamp.ingress),
        ),
{
    let ingress = match &zone_replies.headlamp.ingress {
        Some(r) => Some(r),
        None => None,
    };
    zone_turn_with_ingress(ctx, event, current_state, now, ingress)
}


/// Actuator acknowledgements reach the headlamp zone as the matching
/// acknowledgement: with no tell-back embed, an OFF acknowledgement settles an
/// `OffRequested` zone off and an ON acknowledgement settles an `OnRequested`
/// zone on, both with nothing pending, whatever the mode and time.
pub proof fn law_acknowledgements_settle_the_pending_request(ctx: VehicleContext, state: FsmState, now: u64)
    ensures
        event_headlamp_message(FsmEvent::FrontHeadlampOffAck) == Some(HeadlampMessage::AckOff),
        event_headlamp_message(FsmEvent::FrontHeadlampOnAck) == Some(HeadlampMessage::AckOn),
        ctx.headlamp.state == HeadlampState::OffRequested ==> zone_view(ctx, FsmEvent::FrontHeadlampOffAck, state, now, None).ctx.headlamp
            == (crate::vehicle_state::HeadlampContext { state: HeadlampState::Off, ack_pending_since: None }),
        ctx.headlamp.state == HeadlampState::OnRequested ==> zone_view(ctx, FsmEvent::FrontHeadlampOnAck, state, now, None).ctx.headlamp
            == (crate::vehicle_state::HeadlampContext { state: HeadlampState::On, ack_pending_since: None }),
{
}

} // verus!
