//! The pure step boundary: record the event payload, consult the table,
//! emit the intents and the transition record.

use vstd::prelude::*;
use crate::fsm::{DomainAction, DomainActionView, FsmEvent, FsmState};
use crate::fsm::transition_map::{
    derive_context, derived_context, next_state, output, output_actions, power_off_rejected_text,
    power_off_rejected_warning, transition,
};
use crate::vehicle_state::VehicleContext;

verus! {

/// One applied hop between two cuts: entry cut, event, exit cut, and the
/// intents recorded for it (runtime mode hints left out).
#[derive(Debug, PartialEq, Eq)]
pub struct TransitionRecord {
    pub at: u64,
    pub event: FsmEvent,
    pub old_state: FsmState,
    pub next_state: FsmState,
    pub old_ctx: VehicleContext,
    pub current_ctx: VehicleContext,
    pub actions: Vec<DomainAction>,
}

/// Mathematical form of a [`TransitionRecord`].
pub struct TransitionRecordView {
    pub at: u64,
    pub event: FsmEvent,
    pub old_state: FsmState,
    pub next_state: FsmState,
    pub old_ctx: VehicleContext,
    pub current_ctx: VehicleContext,
    pub actions: Seq<DomainActionView>,
}

impl View for TransitionRecord {
    type V = TransitionRecordView;

    open spec fn view(&self) -> TransitionRecordView {
        TransitionRecordView {
            at: self.at,
            event: self.event,
            old_state: self.old_state,
            next_state: self.next_state,
            old_ctx: self.old_ctx,
            current_ctx: self.current_ctx,
            actions: self.actions.deep_view(),
        }
    }
}

/// Output of one step: exit cut, intents and the ledger record.
#[derive(Debug, PartialEq, Eq)]
pub struct StepResult {
    pub next_state: FsmState,
    pub modified_ctx: VehicleContext,
    pub actions: Vec<DomainAction>,
    pub transition_record: TransitionRecord,
}

/// Mathematical form of a [`StepResult`].
pub struct StepResultView {
    pub next_state: FsmState,
    pub modified_ctx: VehicleContext,
    pub actions: Seq<DomainActionView>,
    pub record: TransitionRecordView,
}

impl View for StepResult {
    type V = StepResultView;

    open spec fn view(&self) -> StepResultView {
        StepResultView {
            next_state: self.next_state,
            modified_ctx: self.modified_ctx,
            actions: self.actions.deep_view(),
            record: self.transition_record@,
        }
    }
}

/// The actions with every runtime mode hint left out, in order.
pub open spec fn without_mode_hints(s: Seq<DomainActionView>) -> Seq<DomainActionView>
    decreases s.len(),
{
    if s.len() == 0 {
        Seq::empty()
    } else {
        let rest = without_mode_hints(s.drop_last());
        if s.last() is EnterMode { rest } else { rest.push(s.last()) }
    }
}

/// Copies the actions worth recording: all but runtime mode hints.
pub fn recorded_actions(actions: &Vec<DomainAction>) -> (r: Vec<DomainAction>)
    ensures
        r.deep_view() == without_mode_hints(actions.deep_view()),
{
    let mut r: Vec<DomainAction> = Vec::new();
    let n = actions.len();
    for i in 0..n
        invariant
            n == actions.len(),
            r.deep_view() == without_mode_hints(actions.deep_view().take(i as int)),
    {
        let ghost before = r.deep_view();
        assert(actions.deep_view().take(i + 1).drop_last() =~= actions.deep_view().take(i as int));
        match &actions[i] {
            DomainAction::EnterMode(_) => {},
            a => {
                r.push(a.clone());
                assert(r.deep_view() =~= before.push(actions@[i as int]@));
            },
        }
    }
    assert(actions.deep_view().take(n as int) =~= actions.deep_view());
    r
}

/// Whether the step refuses a power-off request (the mode is kept).
pub open spec fn power_off_rejected(state: FsmState, event: FsmEvent, next: FsmState) -> bool {
    event == FsmEvent::PowerOff && state != FsmState::Off && next == state
}

/// The intents of one step: the output of the mode change, then a warning if
/// a power-off request was refused.
pub open spec fn step_actions(state: FsmState, ctx: VehicleContext, event: FsmEvent, now: u64) -> Seq<DomainActionView> {
    let next = next_state(state, event, ctx, now);
    output_actions(state, next) + if power_off_rejected(state, event, next) {
        seq![DomainActionView::LogWarning(power_off_rejected_text())]
    } else {
        Seq::empty()
    }
}

/// The whole result of one step.
pub open spec fn step_view(state: FsmState, ctx: VehicleContext, event: FsmEvent, now: u64) -> StepResultView {
    let next = next_state(state, event, ctx, now);
    let c = derived_context(ctx, event, state);
    let actions = step_actions(state, ctx, event, now);
    StepResultView {
        next_state: next,
        modified_ctx: c,
        actions,
        record: TransitionRecordView {
            at: now,
            event,
            old_state: state,
            next_state: next,
            old_ctx: ctx,
            current_ctx: c,
            actions: without_mode_hints(actions),
        },
    }
}

/// One FSM step at `now` (milliseconds): records the event payload in the
/// context, takes the next mode from the table, and emits the intents and
/// the transition record. Reads no clock and performs no side effect.
pub fn step(current_state: &FsmState, current_ctx: &VehicleContext, event: &FsmEvent, now: u64) -> (result: StepResult)
    ensures
        result@ == step_view(*current_state, *current_ctx, *event, now),
{
    let modified_ctx = derive_context(current_ctx, event, current_state);
    let next = transition(current_state, event, current_ctx, now);
    let mut actions = output(current_state, &next);
    if *event == FsmEvent::PowerOff && *current_state != FsmState::Off && next == *current_state {
        let ghost before = actions.deep_view();
        actions.push(DomainAction::LogWarning(power_off_rejected_warning()));
        assert(actions.deep_view() =~= before.push(DomainActionView::LogWarning(power_off_rejected_text())));
    }
    assert(actions.deep_view() =~= step_actions(*current_state, *current_ctx, *event, now));
    let recorded = recorded_actions(&actions);
    StepResult {
        next_state: next,
        modified_ctx,
        actions,
        transition_record: TransitionRecord {
            at: now,
            event: *event,
            old_state: *current_state,
            next_state: next,
            old_ctx: *current_ctx,
            current_ctx: modified_ctx,
            actions: recorded,
        },
    }
}


/// Recorded actions never hold a runtime mode hint, and recording keeps every
/// other action in order: a list without mode hints is recorded unchanged.
pub proof fn law_record_omits_only_mode_hints(s: Seq<DomainActionView>)
    ensures
        forall|i: int| 0 <= i < without_mode_hints(s).len() ==> !(#[trigger] without_mode_hints(s)[i] is EnterMode),
        (forall|i: int| 0 <= i < s.len() ==> !(#[trigger] s[i] is EnterMode)) ==> without_mode_hints(s) == s,
    decreases s.len(),
{
    if s.len() > 0 {
        law_record_omits_only_mode_hints(s.drop_last());
        if forall|i: int| 0 <= i < s.len() ==> !(#[trigger] s[i] is EnterMode) {
            assert forall|i: int| 0 <= i < s.drop_last().len() implies !(#[trigger] s.drop_last()[i] is EnterMode) by {
                assert(s.drop_last()[i] == s[i]);
            }
            assert(s.drop_last().push(s.last()) =~= s);
        }
    }
}


/// A step records an ambient light reading in the context: after a step on
/// `UpdateAmbientLux(lux)` the visibility assembly holds `lux`, from any mode
/// and context; every other event leaves the visibility assembly as it was.
pub proof fn law_step_records_lux_reading(state: FsmState, ctx: VehicleContext, event: FsmEvent, now: u64)
    ensures
        event matches FsmEvent::UpdateAmbientLux(lux)
            ==> step_view(state, ctx, event, now).modified_ctx.visibility.ambient_lux == lux,
        !(event is UpdateAmbientLux) ==> step_view(state, ctx, event, now).modified_ctx.visibility == ctx.visibility,
        step_view(state, ctx, event, now).modified_ctx.headlamp == ctx.headlamp,
        step_view(state, ctx, event, now).modified_ctx.health == ctx.health,
{
}

} // verus!
