//! A brain turn: zone turn then FSM step, zone outcomes merged into domain
//! actions; and the quiescence runner that follows detector-synthesized
//! internal events until none is proposed.

use vstd::prelude::*;
use crate::fsm::{append_actions, DomainAction, DomainActionView, FsmEvent, FsmState, Operational};
use crate::fsm::step::{power_off_rejected, recorded_actions, step, step_view, without_mode_hints, StepResult, StepResultView, TransitionRecordView};
use crate::fsm::transition_map::{has_action, is_alarm, law_buzzer_only_on_alarm_edges, next_state, output_actions, power_off_rejected_text};
use crate::twin_runtime::constants::MAX_QUIESCENCE_HOPS;
use crate::twin_runtime::detectors::{detect_internal_after_hop, detection};
use crate::twin_runtime::outcome_map::{headlamp_outcomes_to_domain_actions, outcome_actions};
use crate::twin_runtime::zone_replies::{reply_view, ResolvedTurn};
use crate::twin_runtime::zone_turn::{borrowed_reply_view, zone_headlamp_message, zone_turn_with_ingress, zone_view};
use crate::vehicle_state::front_headlamp::append_outcomes;
use crate::vehicle_state::{HeadlampContext, HeadlampMessage, HeadlampState, HeadlampZoneReply, HeadlampZoneReplyView, VehicleContext};
use crate::vehicle_state::front_headlamp::headlamp_reply;

verus! {

/// One ledger row inside a quiescent turn.
#[derive(Debug, PartialEq, Eq)]
pub struct HopRecord {
    pub event: FsmEvent,
    pub result: StepResult,
}

/// Mathematical form of a [`HopRecord`].
pub struct HopRecordView {
    pub event: FsmEvent,
    pub result: StepResultView,
}

impl View for HopRecord {
    type V = HopRecordView;

    open spec fn view(&self) -> HopRecordView {
        HopRecordView { event: self.event, result: self.result@ }
    }
}

/// A full turn after one external hop and zero or more internal hops.
#[derive(Debug, PartialEq, Eq)]
pub struct QuiescentResult {
    pub hops: Vec<HopRecord>,
}

/// The hops of a turn as mathematical values.
pub open spec fn hops_view(hops: Seq<HopRecord>) -> Seq<HopRecordView> {
    hops.map_values(|h: HopRecord| h@)
}

impl View for QuiescentResult {
    type V = Seq<HopRecordView>;

    open spec fn view(&self) -> Seq<HopRecordView> {
        hops_view(self.hops@)
    }
}

/// Every hop's actions, concatenated in hop order.
pub open spec fn merged_hop_actions(hops: Seq<HopRecordView>) -> Seq<DomainActionView>
    decreases hops.len(),
{
    if hops.len() == 0 {
        Seq::empty()
    } else {
        merged_hop_actions(hops.drop_last()) + hops.last().result.actions
    }
}

impl QuiescentResult {
    /// The step of the last hop: the exit cut of the whole turn.
    pub fn final_step(&self) -> (r: &StepResult)
        requires
            self.hops.len() > 0,
        ensures
            r@ == self@.last().result,
    {
        let n = self.hops.len();
        &self.hops[n - 1].result
    }

    /// The actions of every hop, in hop order.
    pub fn merged_actions(&self) -> (actions: Vec<DomainAction>)
        ensures
            actions.deep_view() == merged_hop_actions(self@),
    {
        let mut actions: Vec<DomainAction> = Vec::new();
        let n = self.hops.len();
        for i in 0..n
            invariant
                n == self.hops.len(),
                actions.deep_view() == merged_hop_actions(self@.take(i as int)),
        {
            append_actions(&mut actions, &self.hops[i].result.actions);
            assert(self@.take(i + 1).drop_last() =~= self@.take(i as int));
        }
        assert(self@.take(n as int) =~= self@);
        actions
    }
}

/// The ignition-off reply used when a hop lands `Off`: the tell-back when
/// there is one, otherwise the in-process reset of the zone.
pub open spec fn ignition_off_reply(ctx: VehicleContext, now: u64, tell_back: Option<HeadlampZoneReplyView>) -> HeadlampZoneReplyView {
    match tell_back {
        Some(r) => r,
        None => headlamp_reply(ctx.headlamp, HeadlampMessage::ResetForIgnitionOff, now),
    }
}

/// One brain hop for an external event: zone turn, FSM step on the merged
/// context, headlamp reset when the step lands `Off`, zone actions first then
/// the step's actions, and the record updated to the final exit cut.
pub open spec fn brain_hop(
    state: FsmState,
    ctx: VehicleContext,
    event: FsmEvent,
    now: u64,
    headlamp: Option<HeadlampZoneReplyView>,
    ignition_off: Option<HeadlampZoneReplyView>,
) -> StepResultView {
    let zone = zone_view(ctx, event, state, now, headlamp);
    let r = step_view(state, zone.ctx, event, now);
    let lands_off = r.next_state == FsmState::Off;
    let ign = ignition_off_reply(r.modified_ctx, now, ignition_off);
    let exit_ctx = if lands_off { VehicleContext { headlamp: ign.ctx, ..r.modified_ctx } } else { r.modified_ctx };
    let outcomes = if lands_off { zone.headlamp_outcomes + ign.outcomes } else { zone.headlamp_outcomes };
    let actions = outcome_actions(outcomes) + r.actions;
    StepResultView {
        next_state: r.next_state,
        modified_ctx: exit_ctx,
        actions,
        record: TransitionRecordView {
            actions: without_mode_hints(actions),
            current_ctx: exit_ctx,
            ..r.record
        },
    }
}

/// One hop of a quiescent turn: internal events run the FSM step alone (no
/// zone work); external events run a full brain hop.
pub open spec fn hop(
    state: FsmState,
    ctx: VehicleContext,
    event: FsmEvent,
    now: u64,
    headlamp: Option<HeadlampZoneReplyView>,
    ignition_off: Option<HeadlampZoneReplyView>,
) -> StepResultView {
    if event is Internal {
        step_view(state, ctx, event, now)
    } else {
        brain_hop(state, ctx, event, now, headlamp, ignition_off)
    }
}

/// The hops of a turn starting at cut (`state`, `ctx`) with `event`, at most
/// `fuel` of them: each hop's exit cut is fed to the detectors, and a proposed
/// internal event becomes the next hop. Only the first hop sees the embeds.
pub open spec fn quiescence(
    state: FsmState,
    ctx: VehicleContext,
    event: FsmEvent,
    now: u64,
    headlamp: Option<HeadlampZoneReplyView>,
    ignition_off: Option<HeadlampZoneReplyView>,
    fuel: nat,
) -> Seq<HopRecordView>
    decreases fuel,
{
    if fuel == 0 {
        Seq::empty()
    } else {
        let r = hop(state, ctx, event, now, headlamp, ignition_off);
        let row = HopRecordView { event, result: r };
        match detection(r.next_state, r.modified_ctx) {
            Some(internal) => seq![row] + quiescence(r.next_state, r.modified_ctx, internal, now, None, None, (fuel - 1) as nat),
            None => seq![row],
        }
    }
}

/// The turn `run_to_quiescence` computes.
pub open spec fn quiescent_turn(
    state: FsmState,
    ctx: VehicleContext,
    ingress: FsmEvent,
    now: u64,
    headlamp: Option<HeadlampZoneReplyView>,
    ignition_off: Option<HeadlampZoneReplyView>,
) -> Seq<HopRecordView> {
    quiescence(state, ctx, ingress, now, headlamp, ignition_off, MAX_QUIESCENCE_HOPS as nat)
}

/// One brain event with optional headlamp tell-backs: `headlamp_reply` for
/// the demuxed ingress message, `ignition_off_reply` for the reset when the
/// step lands `Off`. `None` runs the zone handler in-process.
pub fn twin_turn_with_headlamp_replies(
    current_state: &FsmState,
    current_ctx: &VehicleContext,
    event: &FsmEvent,
    now: u64,
    headlamp_reply: Option<HeadlampZoneReply>,
    ignition_off_reply: Option<HeadlampZoneReply>,
) -> (result: StepResult)
    ensures
        result@ == brain_hop(*current_state, *current_ctx, *event, now, reply_view(headlamp_reply), reply_view(ignition_off_reply)),
{
    let ingress = match &headlamp_reply {
        Some(r) => Some(r),
        None => None,
    };
    let zone = zone_turn_with_ingress(current_ctx, event, current_state, now, ingress);
    let mut result = step(current_state, &zone.ctx, event, now);

    let mut headlamp_outcomes = zone.headlamp_outcomes;
    if result.next_state == FsmState::Off {
        let zone_reply = match ignition_off_reply {
            Some(r) => r,
            None => result.modified_ctx.headlamp.on_receiving_message(HeadlampMessage::ResetForIgnitionOff, now),
        };
        result.modified_ctx.headlamp = zone_reply.ctx;
        append_outcomes(&mut headlamp_outcomes, &zone_reply.outcomes);
    }

    let mut actions = headlamp_outcomes_to_domain_actions(headlamp_outcomes);
    append_actions(&mut actions, &result.actions);
    let recorded = recorded_actions(&actions);
    result.actions = actions;
    result.transition_record.actions = recorded;
    result.transition_record.current_ctx = result.modified_ctx;
    result
}

/// Full deterministic turn with every zone handled in-process.
pub fn twin_turn(current_state: &FsmState, current_ctx: &VehicleContext, event: &FsmEvent, now: u64) -> (result: StepResult)
    ensures
        result@ == brain_hop(*current_state, *current_ctx, *event, now, None, None),
{
    twin_turn_with_headlamp_replies(current_state, current_ctx, event, now, None, None)
}

/// Brain commit after the zone tell-backs arrived: one brain hop.
pub fn commit_brain_turn(
    current_state: &FsmState,
    current_ctx: &VehicleContext,
    event: &FsmEvent,
    now: u64,
    headlamp_reply: Option<HeadlampZoneReply>,
    ignition_off_reply: Option<HeadlampZoneReply>,
) -> (result: StepResult)
    ensures
        result@ == brain_hop(*current_state, *current_ctx, *event, now, reply_view(headlamp_reply), reply_view(ignition_off_reply)),
{
    twin_turn_with_headlamp_replies(current_state, current_ctx, event, now, headlamp_reply, ignition_off_reply)
}

fn apply_internal_hop(current_state: &FsmState, current_ctx: &VehicleContext, event: &FsmEvent, now: u64) -> (result: StepResult)
    ensures
        result@ == step_view(*current_state, *current_ctx, *event, now),
{
    step(current_state, current_ctx, event, now)
}

fn apply_single_hop(
    current_state: &FsmState,
    current_ctx: &VehicleContext,
    event: &FsmEvent,
    now: u64,
    headlamp_reply: Option<HeadlampZoneReply>,
    ignition_off_reply: Option<HeadlampZoneReply>,
) -> (result: StepResult)
    ensures
        result@ == hop(*current_state, *current_ctx, *event, now, reply_view(headlamp_reply), reply_view(ignition_off_reply)),
{
    match event {
        FsmEvent::Internal(_) => apply_internal_hop(current_state, current_ctx, event, now),
        _ => twin_turn_with_headlamp_replies(current_state, current_ctx, event, now, headlamp_reply, ignition_off_reply),
    }
}

/// The quiescence runner: one external ingress, then every internal event the
/// detectors propose, one hop each, until none is proposed (at most
/// `MAX_QUIESCENCE_HOPS` hops). The embeds apply to the first hop only.
pub fn run_to_quiescence(
    initial_state: &FsmState,
    initial_ctx: &VehicleContext,
    ingress: &FsmEvent,
    now: u64,
    headlamp_reply: Option<HeadlampZoneReply>,
    ignition_off_reply: Option<HeadlampZoneReply>,
) -> (q: QuiescentResult)
    ensures
        q@ == quiescent_turn(*initial_state, *initial_ctx, *ingress, now, reply_view(headlamp_reply), reply_view(ignition_off_reply)),
{
    let ghost total = quiescent_turn(*initial_state, *initial_ctx, *ingress, now, reply_view(headlamp_reply), reply_view(ignition_off_reply));
    let mut queue: Vec<FsmEvent> = Vec::new();
    queue.push(*ingress);
    let mut state = *initial_state;
    let mut ctx = *initial_ctx;
    let mut hops: Vec<HopRecord> = Vec::new();
    let mut headlamp_reply = headlamp_reply;
    let mut ignition_off_reply = ignition_off_reply;

    while queue.len() > 0
        invariant
            queue.len() <= 1,
            hops.len() <= MAX_QUIESCENCE_HOPS,
            queue.len() == 1 ==> hops_view(hops@) + quiescence(
                state, ctx, queue@[0], now, reply_view(headlamp_reply), reply_view(ignition_off_reply),
                (MAX_QUIESCENCE_HOPS - hops.len()) as nat,
            ) == total,
            queue.len() == 0 ==> hops_view(hops@) == total,
        ensures
            hops_view(hops@) == total,
        decreases MAX_QUIESCENCE_HOPS - hops.len(),
    {
        if hops.len() >= MAX_QUIESCENCE_HOPS {
            assert(quiescence(state, ctx, queue@[0], now, reply_view(headlamp_reply), reply_view(ignition_off_reply), 0) =~= Seq::<HopRecordView>::empty());
            assert(hops_view(hops@) + Seq::<HopRecordView>::empty() =~= hops_view(hops@));
            break;
        }
        let event = queue.remove(0);
        let ghost old_state = state;
        let ghost old_ctx = ctx;
        let ghost hv = reply_view(headlamp_reply);
        let ghost iv = reply_view(ignition_off_reply);
        let hr = headlamp_reply.take();
        let ir = ignition_off_reply.take();
        let ghost fuel = (MAX_QUIESCENCE_HOPS - hops.len()) as nat;
        let result = apply_single_hop(&state, &ctx, &event, now, hr, ir);
        let ghost row = HopRecordView { event, result: result@ };
        let detected = detect_internal_after_hop(&result.next_state, &result.modified_ctx);
        match detected {
            Some(internal) => queue.push(internal),
            None => {},
        }
        state = result.next_state;
        ctx = result.modified_ctx;
        let ghost before = hops_view(hops@);
        hops.push(HopRecord { event, result });
        assert(hops_view(hops@) =~= before.push(row));
        proof {
            let unfolded = quiescence(old_state, old_ctx, event, now, hv, iv, fuel);
            assert(before + unfolded == total);
            match detected {
                Some(internal) => {
                    let rest = quiescence(state, ctx, internal, now, None, None, (fuel - 1) as nat);
                    assert(unfolded == seq![row] + rest);
                    assert(before + (seq![row] + rest) =~= before.push(row) + rest);
                    assert(queue@[0] == internal);
                },
                None => {
                    assert(unfolded == seq![row]);
                    assert(before + seq![row] =~= before.push(row));
                },
            }
        }
    }
    QuiescentResult { hops }
}

/// Commits a resolved turn: the quiescence runner with the turn's embeds.
pub fn commit_resolved_turn(current_state: &FsmState, current_ctx: &VehicleContext, resolved: ResolvedTurn) -> (q: QuiescentResult)
    ensures
        q@ == quiescent_turn(
            *current_state,
            *current_ctx,
            resolved.ingress,
            resolved.now,
            reply_view(resolved.zone_replies.headlamp.ingress),
            reply_view(resolved.zone_replies.headlamp.ignition_off),
        ),
{
    let ResolvedTurn { ingress, now, zone_replies } = resolved;
    run_to_quiescence(current_state, current_ctx, &ingress, now, zone_replies.headlamp.ingress, zone_replies.headlamp.ignition_off)
}

/// Whether `event` takes a powered twin to `Off` (after the zone demux).
pub open spec fn lands_off(
    state: FsmState,
    ctx: VehicleContext,
    event: FsmEvent,
    now: u64,
    headlamp: Option<HeadlampZoneReplyView>,
) -> bool {
    state != FsmState::Off && if event is Internal {
        next_state(state, event, ctx, now) == FsmState::Off
    } else {
        next_state(state, event, zone_view(ctx, event, state, now, headlamp).ctx, now) == FsmState::Off
    }
}

/// Whether this event enters `Off` from a powered state after the zone demux
/// (the brain then asks the headlamp zone for its ignition-off reset).
pub fn fsm_step_lands_off(
    current_state: &FsmState,
    current_ctx: &VehicleContext,
    event: &FsmEvent,
    now: u64,
    headlamp_reply: Option<&HeadlampZoneReply>,
) -> (r: bool)
    ensures
        r == lands_off(*current_state, *current_ctx, *event, now, borrowed_reply_view(headlamp_reply)),
{
    if *current_state == FsmState::Off {
        return false;
    }
    if let FsmEvent::Internal(_) = event {
        return step(current_state, current_ctx, event, now).next_state == FsmState::Off;
    }
    let zone = zone_turn_with_ingress(current_ctx, event, current_state, now, headlamp_reply);
    step(current_state, &zone.ctx, event, now).next_state == FsmState::Off
}


/// Every quiescent turn has one or two hops: the external ingress first, then
/// at most the internal lighting-unsafe hop, which takes a `Driving` exit cut
/// to `DrivingDangerously`. The exit cut of the turn is quiescent: the
/// detectors propose nothing more for it.
pub proof fn law_quiescent_turn_is_bounded_and_quiescent(
    state: FsmState,
    ctx: VehicleContext,
    ingress: FsmEvent,
    now: u64,
    headlamp: Option<HeadlampZoneReplyView>,
    ignition_off: Option<HeadlampZoneReplyView>,
)
    ensures
        ({
            let q = quiescent_turn(state, ctx, ingress, now, headlamp, ignition_off);
            &&& 1 <= q.len() <= 2
            &&& q[0].event == ingress
            &&& q[0].result == hop(state, ctx, ingress, now, headlamp, ignition_off)
            &&& q.len() == 2 ==> {
                &&& q[0].result.next_state == FsmState::Driving
                &&& q[1].event == FsmEvent::Internal(Operational::LightingUnsafe)
                &&& q[1].result.next_state == FsmState::DrivingDangerously
            }
            &&& detection(q.last().result.next_state, q.last().result.modified_ctx) is None
        }),
{
    let fuel = MAX_QUIESCENCE_HOPS as nat;
    let r1 = hop(state, ctx, ingress, now, headlamp, ignition_off);
    let row1 = HopRecordView { event: ingress, result: r1 };
    let q = quiescent_turn(state, ctx, ingress, now, headlamp, ignition_off);
    match detection(r1.next_state, r1.modified_ctx) {
        Some(internal) => {
            let r2 = hop(r1.next_state, r1.modified_ctx, internal, now, None, None);
            let row2 = HopRecordView { event: internal, result: r2 };
            assert(internal == FsmEvent::Internal(Operational::LightingUnsafe));
            assert(r2.next_state == FsmState::DrivingDangerously);
            assert(detection(r2.next_state, r2.modified_ctx) is None);
            let q2 = quiescence(r1.next_state, r1.modified_ctx, internal, now, None, None, (fuel - 1) as nat);
            assert(q2 == seq![row2]);
            assert(q == seq![row1] + q2);
            assert(q =~= seq![row1, row2]);
        },
        None => {
            assert(q == seq![row1]);
        },
    }
}

/// Internal hops run no zone work: the assemblies of the context are exactly
/// those of the cut before the hop.
pub proof fn law_internal_hop_keeps_assemblies(
    state: FsmState,
    ctx: VehicleContext,
    op: Operational,
    now: u64,
    headlamp: Option<HeadlampZoneReplyView>,
    ignition_off: Option<HeadlampZoneReplyView>,
)
    ensures
        hop(state, ctx, FsmEvent::Internal(op), now, headlamp, ignition_off).modified_ctx == ctx,
{
}

/// A tell-back embed for the ingress message wins over the in-process zone
/// handler: the hop's zone outcomes are the embed's, and unless the hop lands
/// `Off` its headlamp context is the embed's.
pub proof fn law_ingress_embed_wins(
    state: FsmState,
    ctx: VehicleContext,
    event: FsmEvent,
    now: u64,
    embed: HeadlampZoneReplyView,
    ignition_off: Option<HeadlampZoneReplyView>,
)
    requires
        zone_headlamp_message(event) is Some,
    ensures
        zone_view(ctx, event, state, now, Some(embed)).ctx.headlamp == embed.ctx,
        zone_view(ctx, event, state, now, Some(embed)).headlamp_outcomes == embed.outcomes,
        brain_hop(state, ctx, event, now, Some(embed), ignition_off).next_state != FsmState::Off
            ==> brain_hop(state, ctx, event, now, Some(embed), ignition_off).modified_ctx.headlamp == embed.ctx,
{
}

/// When a hop lands the twin `Off` and the zone is reset in-process, the
/// front headlamp is settled `Off` with nothing pending.
pub proof fn law_ignition_off_forces_lamp_off(
    state: FsmState,
    ctx: VehicleContext,
    event: FsmEvent,
    now: u64,
    headlamp: Option<HeadlampZoneReplyView>,
)
    ensures
        brain_hop(state, ctx, event, now, headlamp, None).next_state == FsmState::Off
            ==> brain_hop(state, ctx, event, now, headlamp, None).modified_ctx.headlamp
                == (HeadlampContext { state: HeadlampState::Off, ack_pending_since: None }),
{
}

/// Each hop's ledger row closes on the hop's exit cut and holds the hop's
/// actions without runtime mode hints.
pub proof fn law_hop_record_matches_exit_cut(
    state: FsmState,
    ctx: VehicleContext,
    event: FsmEvent,
    now: u64,
    headlamp: Option<HeadlampZoneReplyView>,
    ignition_off: Option<HeadlampZoneReplyView>,
)
    ensures
        ({
            let r = hop(state, ctx, event, now, headlamp, ignition_off);
            &&& r.record.next_state == r.next_state
            &&& r.record.current_ctx == r.modified_ctx
            &&& r.record.old_state == state
            &&& r.record.event == event
            &&& r.record.at == now
            &&& r.record.actions == without_mode_hints(r.actions)
        }),
{
}


proof fn lemma_has_action_concat(a: Seq<DomainActionView>, b: Seq<DomainActionView>, x: DomainActionView)
    ensures
        has_action(a + b, x) <==> (has_action(a, x) || has_action(b, x)),
{
    if has_action(a + b, x) {
        let i = choose|i: int| 0 <= i < (a + b).len() && (a + b)[i] == x;
        if i < a.len() {
            assert(a[i] == x);
        } else {
            assert(b[i - a.len()] == x);
        }
    }
    if has_action(a, x) {
        let i = choose|i: int| 0 <= i < a.len() && a[i] == x;
        assert((a + b)[i] == x);
    }
    if has_action(b, x) {
        let i = choose|i: int| 0 <= i < b.len() && b[i] == x;
        assert((a + b)[a.len() + i] == x);
    }
}

/// The buzzer is driven by the table's mode changes alone: a hop's actions
/// (zone actions included) hold `StartBuzzer` exactly when the hop enters an
/// alarm mode from a non-alarm mode, and `StopBuzzer` exactly when it leaves
/// the alarm modes.
pub proof fn law_buzzer_only_from_mode_changes(
    state: FsmState,
    ctx: VehicleContext,
    event: FsmEvent,
    now: u64,
    headlamp: Option<HeadlampZoneReplyView>,
    ignition_off: Option<HeadlampZoneReplyView>,
)
    ensures
        ({
            let r = hop(state, ctx, event, now, headlamp, ignition_off);
            &&& has_action(r.actions, DomainActionView::StartBuzzer) <==> (!is_alarm(state) && is_alarm(r.next_state))
            &&& has_action(r.actions, DomainActionView::StopBuzzer) <==> (is_alarm(state) && !is_alarm(r.next_state))
        }),
{
    let r = hop(state, ctx, event, now, headlamp, ignition_off);
    let c = if event is Internal { ctx } else { zone_view(ctx, event, state, now, headlamp).ctx };
    let next = next_state(state, event, c, now);
    let out = output_actions(state, next);
    let warn: Seq<DomainActionView> = if power_off_rejected(state, event, next) {
        seq![DomainActionView::LogWarning(power_off_rejected_text())]
    } else {
        Seq::empty()
    };
    law_buzzer_only_on_alarm_edges(state, next);
    lemma_has_action_concat(out, warn, DomainActionView::StartBuzzer);
    lemma_has_action_concat(out, warn, DomainActionView::StopBuzzer);
    assert(!has_action(warn, DomainActionView::StartBuzzer));
    assert(!has_action(warn, DomainActionView::StopBuzzer));
    if !(event is Internal) {
        let zone = zone_view(ctx, event, state, now, headlamp);
        let sr = step_view(state, zone.ctx, event, now);
        let lands_off = sr.next_state == FsmState::Off;
        let ign = ignition_off_reply(sr.modified_ctx, now, ignition_off);
        let outcomes = if lands_off { zone.headlamp_outcomes + ign.outcomes } else { zone.headlamp_outcomes };
        let za = outcome_actions(outcomes);
        assert(!has_action(za, DomainActionView::StartBuzzer));
        assert(!has_action(za, DomainActionView::StopBuzzer));
        assert(r.actions == za + (out + warn));
        lemma_has_action_concat(za, out + warn, DomainActionView::StartBuzzer);
        lemma_has_action_concat(za, out + warn, DomainActionView::StopBuzzer);
    }
}

} // verus!
