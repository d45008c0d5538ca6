//! Operational FSM: modes, events, domain actions (intents only), the
//! transition table and the pure step boundary.

pub mod step;
pub mod transition_map;

use vstd::prelude::*;
use crate::vehicle_state::{ActuationIncompleteCause, HeadlampDirection};


pub use step::{step, StepResult, TransitionRecord};
pub use transition_map::{output, transition};
pub use crate::vehicle_state::{HeadlampState, VehicleContext};

verus! {

/// Operational mode of the twin. `Warning` carries the time (milliseconds)
/// it began, from which its cooldown is measured.
#[derive(Clone, Copy, Debug, PartialEq, Eq, Structural)]
pub enum FsmState {
    Off,
    Idle,
    Driving,
    Warning(u64),
    DrivingDangerously,
}

/// Facts the twin itself synthesizes after a hop (never from the bus).
#[derive(Clone, Copy, Debug, PartialEq, Eq, Structural)]
pub enum Operational {
    LightingUnsafe,
}

/// Events of the operational FSM: external facts and internal operational facts.
#[derive(Clone, Copy, Debug, PartialEq, Eq, Structural)]
pub enum FsmEvent {
    PowerOn,
    PowerOff,
    UpdateRpm(u16),
    UpdateSpeed(u16),
    UpdateAmbientLux(u16),
    TimerTick,
    FrontHeadlampOnAck,
    FrontHeadlampOffAck,
    FrontHeadlampActuationIncomplete { direction: HeadlampDirection, cause: ActuationIncompleteCause },
    Internal(Operational),
}

/// Runtime mode hint the domain gives the actor along with a mode change.
#[derive(Clone, Copy, Debug, PartialEq, Eq, Structural)]
pub enum ActorModeHintFromDomain {
    Dormant,
    Normal,
    Alert,
}

/// A domain intent: what should happen, never how.
#[derive(Debug, PartialEq, Eq)]
pub enum DomainAction {
    StartBuzzer,
    StopBuzzer,
    PublishStateSync,
    LogWarning(String),
    RequestFrontHeadlampOn,
    RequestFrontHeadlampOff,
    EnterMode(ActorModeHintFromDomain),
}

/// The actions that `output` emits are domain actions.
pub type FsmAction = DomainAction;

/// Mathematical form of a [`DomainAction`]: the warning text as characters.
pub enum DomainActionView {
    StartBuzzer,
    StopBuzzer,
    PublishStateSync,
    LogWarning(Seq<char>),
    RequestFrontHeadlampOn,
    RequestFrontHeadlampOff,
    EnterMode(ActorModeHintFromDomain),
}

impl View for DomainAction {
    type V = DomainActionView;

    open spec fn view(&self) -> DomainActionView {
        match self {
            DomainAction::StartBuzzer => DomainActionView::StartBuzzer,
            DomainAction::StopBuzzer => DomainActionView::StopBuzzer,
            DomainAction::PublishStateSync => DomainActionView::PublishStateSync,
            DomainAction::LogWarning(m) => DomainActionView::LogWarning(m@),
            DomainAction::RequestFrontHeadlampOn => DomainActionView::RequestFrontHeadlampOn,
            DomainAction::RequestFrontHeadlampOff => DomainActionView::RequestFrontHeadlampOff,
            DomainAction::EnterMode(h) => DomainActionView::EnterMode(*h),
        }
    }
}

impl DeepView for DomainAction {
    type V = DomainActionView;

    open spec fn deep_view(&self) -> DomainActionView {
        self@
    }
}

impl Clone for DomainAction {
    fn clone(&self) -> (r: Self)
        ensures
            r@ == self@,
    {
        match self {
            DomainAction::StartBuzzer => DomainAction::StartBuzzer,
            DomainAction::StopBuzzer => DomainAction::StopBuzzer,
            DomainAction::PublishStateSync => DomainAction::PublishStateSync,
            DomainAction::LogWarning(m) => DomainAction::LogWarning(m.clone()),
            DomainAction::RequestFrontHeadlampOn => DomainAction::RequestFrontHeadlampOn,
            DomainAction::RequestFrontHeadlampOff => DomainAction::RequestFrontHeadlampOff,
            DomainAction::EnterMode(h) => DomainAction::EnterMode(*h),
        }
    }
}

/// Appends a copy of every element of `tail` to `head`, in order.
pub fn append_actions(head: &mut Vec<DomainAction>, tail: &Vec<DomainAction>)
    ensures
        final(head).deep_view() == old(head).deep_view() + tail.deep_view(),
{
    let ghost h = head.deep_view();
    let n = tail.len();
    for i in 0..n
        invariant
            n == tail.len(),
            head.deep_view() == h + tail.deep_view().take(i as int),
    {
        let ghost before = head.deep_view();
        let a = tail[i].clone();
        head.push(a);
        assert(head.deep_view() =~= before.push(tail@[i as int]@));
        assert(tail.deep_view().take(i + 1) =~= tail.deep_view().take(i as int).push(tail@[i as int]@));
        assert(head.deep_view() =~= h + tail.deep_view().take(i + 1));
    }
    assert(tail.deep_view().take(n as int) =~= tail.deep_view());
}

} // verus!
