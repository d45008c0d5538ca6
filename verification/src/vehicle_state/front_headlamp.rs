//! Front headlamp zone: a pure handler from one message to the zone's next
//! context and its outcomes (requests to the actuator, warnings).

use vstd::prelude::*;
use crate::vehicle_physics::{
    FRONT_HEADLAMP_OFF_ACK_WAIT, FRONT_HEADLAMP_ON_ACK_WAIT, LUX_OFF_THRESHOLD, LUX_ON_THRESHOLD,
};

verus! {

/// Lighting sub-state of the front headlamp.
#[derive(Clone, Copy, Debug, PartialEq, Eq, Structural)]
pub enum HeadlampState {
    Off,
    OnRequested,
    On,
    OffRequested,
}

/// Which switching request an actuation outcome refers to.
#[derive(Clone, Copy, Debug, PartialEq, Eq, Structural)]
pub enum HeadlampDirection {
    On,
    Off,
}

/// Why an actuation request did not complete.
#[derive(Clone, Copy, Debug, PartialEq, Eq, Structural)]
pub enum ActuationIncompleteCause {
    Nack,
    NoResponse,
}

/// Zone-owned context: the lighting sub-state and, while a request is pending,
/// the time (milliseconds) it was issued.
#[derive(Clone, Copy, Debug, PartialEq, Eq, Structural)]
pub struct HeadlampContext {
    pub state: HeadlampState,
    pub ack_pending_since: Option<u64>,
}

impl Default for HeadlampContext {
    fn default() -> (ctx: Self)
        ensures
            ctx == (HeadlampContext { state: HeadlampState::Off, ack_pending_since: None }),
    {
        HeadlampContext { state: HeadlampState::Off, ack_pending_since: None }
    }
}

/// The alphabet of the headlamp zone.
#[derive(Clone, Copy, Debug, PartialEq, Eq, Structural)]
pub enum HeadlampMessage {
    AmbientLux(u16),
    AckOn,
    AckOff,
    ActuationIncomplete { direction: HeadlampDirection, cause: ActuationIncompleteCause },
    TimerTick,
    ResetForIgnitionOff,
}

/// What the zone asks of the rest of the twin.
#[derive(Debug, PartialEq, Eq)]
pub enum HeadlampOutcome {
    RequestOn,
    RequestOff,
    LogWarning(String),
}

/// Mathematical form of a [`HeadlampOutcome`]: the warning text as characters.
pub enum HeadlampOutcomeView {
    RequestOn,
    RequestOff,
    LogWarning(Seq<char>),
}

impl View for HeadlampOutcome {
    type V = HeadlampOutcomeView;

    open spec fn view(&self) -> HeadlampOutcomeView {
        match self {
            HeadlampOutcome::RequestOn => HeadlampOutcomeView::RequestOn,
            HeadlampOutcome::RequestOff => HeadlampOutcomeView::RequestOff,
            HeadlampOutcome::LogWarning(m) => HeadlampOutcomeView::LogWarning(m@),
        }
    }
}

impl DeepView for HeadlampOutcome {
    type V = HeadlampOutcomeView;

    open spec fn deep_view(&self) -> HeadlampOutcomeView {
        self@
    }
}

impl Clone for HeadlampOutcome {
    fn clone(&self) -> (r: Self)
        ensures
            r@ == self@,
    {
        match self {
            HeadlampOutcome::RequestOn => HeadlampOutcome::RequestOn,
            HeadlampOutcome::RequestOff => HeadlampOutcome::RequestOff,
            HeadlampOutcome::LogWarning(m) => HeadlampOutcome::LogWarning(m.clone()),
        }
    }
}

/// The zone's reply to one message: its next context and its outcomes.
#[derive(Debug, PartialEq, Eq)]
pub struct HeadlampZoneReply {
    pub ctx: HeadlampContext,
    pub outcomes: Vec<HeadlampOutcome>,
}

/// Mathematical form of a [`HeadlampZoneReply`].
pub struct HeadlampZoneReplyView {
    pub ctx: HeadlampContext,
    pub outcomes: Seq<HeadlampOutcomeView>,
}

impl View for HeadlampZoneReply {
    type V = HeadlampZoneReplyView;

    open spec fn view(&self) -> HeadlampZoneReplyView {
        HeadlampZoneReplyView { ctx: self.ctx, outcomes: self.outcomes.deep_view() }
    }
}

/// Copies a list of outcomes, keeping every element.
pub fn clone_outcomes(v: &Vec<HeadlampOutcome>) -> (r: Vec<HeadlampOutcome>)
    ensures
        r.deep_view() == v.deep_view(),
{
    let mut r: Vec<HeadlampOutcome> = Vec::new();
    let n = v.len();
    for i in 0..n
        invariant
            n == v.len(),
            r.len() == i,
            forall|j: int| 0 <= j < i ==> #[trigger] r@[j]@ == v@[j]@,
    {
        r.push(v[i].clone());
    }
    assert(r.deep_view() =~= v.deep_view());
    r
}

/// Appends a copy of every element of `tail` to `head`, in order.
pub fn append_outcomes(head: &mut Vec<HeadlampOutcome>, tail: &Vec<HeadlampOutcome>)
    ensures
        final(head).deep_view() == old(head).deep_view() + tail.deep_view(),
{
    let ghost h = head.deep_view();
    let n = tail.len();
    for i in 0..n
        invariant
            n == tail.len(),
            head.deep_view() == h + tail.deep_view().take(i as int),
    {
        let ghost before = head.deep_view();
        let o = tail[i].clone();
        head.push(o);
        assert(head.deep_view() =~= before.push(tail@[i as int]@));
        assert(tail.deep_view().take(i + 1) =~= tail.deep_view().take(i as int).push(tail@[i as int]@));
    }
    assert(tail.deep_view().take(n as int) =~= tail.deep_view());
}

impl Clone for HeadlampZoneReply {
    fn clone(&self) -> (r: Self)
        ensures
            r@ == self@,
    {
        HeadlampZoneReply { ctx: self.ctx, outcomes: clone_outcomes(&self.outcomes) }
    }
}

/// Text of the warning when an ON acknowledgement does not arrive in time.
pub open spec fn on_ack_timeout_text() -> Seq<char> {
    "front headlamp ON acknowledgement timed out; lamp assumed off"@
}

/// Text of the warning when an OFF acknowledgement does not arrive in time.
pub open spec fn off_ack_timeout_text() -> Seq<char> {
    "front headlamp OFF acknowledgement timed out; lamp assumed on"@
}

/// Text of the warning for an actuation request that did not complete.
pub open spec fn incomplete_text(d: HeadlampDirection, c: ActuationIncompleteCause) -> Seq<char> {
    match (d, c) {
        (HeadlampDirection::On, ActuationIncompleteCause::Nack) =>
            "front headlamp ON request rejected by the actuator"@,
        (HeadlampDirection::On, ActuationIncompleteCause::NoResponse) =>
            "front headlamp ON request got no response from the actuator"@,
        (HeadlampDirection::Off, ActuationIncompleteCause::Nack) =>
            "front headlamp OFF request rejected by the actuator"@,
        (HeadlampDirection::Off, ActuationIncompleteCause::NoResponse) =>
            "front headlamp OFF request got no response from the actuator"@,
    }
}

fn on_ack_timeout_warning() -> (s: String)
    ensures
        s@ == on_ack_timeout_text(),
{
    "front headlamp ON acknowledgement timed out; lamp assumed off".to_owned()
}

fn off_ack_timeout_warning() -> (s: String)
    ensures
        s@ == off_ack_timeout_text(),
{
    "front headlamp OFF acknowledgement timed out; lamp assumed on".to_owned()
}

fn incomplete_warning(d: HeadlampDirection, c: ActuationIncompleteCause) -> (s: String)
    ensures
        s@ == incomplete_text(d, c),
{
    match (d, c) {
        (HeadlampDirection::On, ActuationIncompleteCause::Nack) =>
            "front headlamp ON request rejected by the actuator".to_owned(),
        (HeadlampDirection::On, ActuationIncompleteCause::NoResponse) =>
            "front headlamp ON request got no response from the actuator".to_owned(),
        (HeadlampDirection::Off, ActuationIncompleteCause::Nack) =>
            "front headlamp OFF request rejected by the actuator".to_owned(),
        (HeadlampDirection::Off, ActuationIncompleteCause::NoResponse) =>
            "front headlamp OFF request got no response from the actuator".to_owned(),
    }
}

/// A settled context (no request pending) in state `s`.
pub open spec fn settled(s: HeadlampState) -> HeadlampContext {
    HeadlampContext { state: s, ack_pending_since: None }
}

/// A pending context in state `s`, the request issued at `now`.
pub open spec fn pending(s: HeadlampState, now: u64) -> HeadlampContext {
    HeadlampContext { state: s, ack_pending_since: Some(now) }
}

/// A reply that changes nothing and reports nothing.
pub open spec fn unchanged(ctx: HeadlampContext) -> HeadlampZoneReplyView {
    HeadlampZoneReplyView { ctx, outcomes: Seq::empty() }
}

/// Whether the request pending in `ctx` has waited `wait` milliseconds by `now`.
pub open spec fn ack_wait_elapsed(ctx: HeadlampContext, now: u64, wait: u64) -> bool {
    match ctx.ack_pending_since {
        Some(since) => now >= since + wait,
        None => true,
    }
}

/// The zone's reply to `msg` received at `now` in context `ctx`.
///
/// Hysteresis: ON is requested only from `Off` at or below `LUX_ON_THRESHOLD`,
/// OFF only from `On` at or above `LUX_OFF_THRESHOLD`; pending states leave
/// only through an acknowledgement, an incomplete actuation, a timeout or the
/// ignition-off reset, which settles the zone `Off` (asking the lamp OFF when
/// it was confirmed on).
pub open spec fn headlamp_reply(ctx: HeadlampContext, msg: HeadlampMessage, now: u64) -> HeadlampZoneReplyView {
    match msg {
        HeadlampMessage::AmbientLux(lux) => {
            if ctx.state == HeadlampState::Off && lux <= LUX_ON_THRESHOLD {
                HeadlampZoneReplyView {
                    ctx: pending(HeadlampState::OnRequested, now),
                    outcomes: seq![HeadlampOutcomeView::RequestOn],
                }
            } else if ctx.state == HeadlampState::On && lux >= LUX_OFF_THRESHOLD {
                HeadlampZoneReplyView {
                    ctx: pending(HeadlampState::OffRequested, now),
                    outcomes: seq![HeadlampOutcomeView::RequestOff],
                }
            } else {
                unchanged(ctx)
            }
        },
        HeadlampMessage::AckOn => {
            if ctx.state == HeadlampState::OnRequested {
                unchanged(settled(HeadlampState::On))
            } else {
                unchanged(ctx)
            }
        },
        HeadlampMessage::AckOff => {
            if ctx.state == HeadlampState::OffRequested {
                unchanged(settled(HeadlampState::Off))
            } else {
                unchanged(ctx)
            }
        },
        HeadlampMessage::ActuationIncomplete { direction, cause } => {
            if direction == HeadlampDirection::On && ctx.state == HeadlampState::OnRequested {
                HeadlampZoneReplyView {
                    ctx: settled(HeadlampState::Off),
                    outcomes: seq![HeadlampOutcomeView::LogWarning(incomplete_text(direction, cause))],
                }
            } else if direction == HeadlampDirection::Off && ctx.state == HeadlampState::OffRequested {
                HeadlampZoneReplyView {
                    ctx: settled(HeadlampState::On),
                    outcomes: seq![HeadlampOutcomeView::LogWarning(incomplete_text(direction, cause))],
                }
            } else {
                unchanged(ctx)
            }
        },
        HeadlampMessage::TimerTick => {
            if ctx.state == HeadlampState::OnRequested
                && ack_wait_elapsed(ctx, now, FRONT_HEADLAMP_ON_ACK_WAIT) {
                HeadlampZoneReplyView {
                    ctx: settled(HeadlampState::Off),
                    outcomes: seq![HeadlampOutcomeView::LogWarning(on_ack_timeout_text())],
                }
            } else if ctx.state == HeadlampState::OffRequested
                && ack_wait_elapsed(ctx, now, FRONT_HEADLAMP_OFF_ACK_WAIT) {
                HeadlampZoneReplyView {
                    ctx: settled(HeadlampState::On),
                    outcomes: seq![HeadlampOutcomeView::LogWarning(off_ack_timeout_text())],
                }
            } else {
                unchanged(ctx)
            }
        },
        HeadlampMessage::ResetForIgnitionOff => {
            if ctx.state == HeadlampState::On {
                HeadlampZoneReplyView {
                    ctx: settled(HeadlampState::Off),
                    outcomes: seq![HeadlampOutcomeView::RequestOff],
                }
            } else {
                unchanged(settled(HeadlampState::Off))
            }
        },
    }
}

fn ack_wait_has_elapsed(ctx: &HeadlampContext, now: u64, wait: u64) -> (r: bool)
    ensures
        r == ack_wait_elapsed(*ctx, now, wait),
{
    match ctx.ack_pending_since {
        Some(since) => now >= since && now - since >= wait,
        None => true,
    }
}

impl HeadlampContext {
    /// Handles one zone message received at `now`.
    pub fn on_receiving_message(&self, message: HeadlampMessage, now: u64) -> (reply: HeadlampZoneReply)
        ensures
            reply@ == headlamp_reply(*self, message, now),
    {
        let mut outcomes: Vec<HeadlampOutcome> = Vec::new();
        let ctx = match message {
            HeadlampMessage::AmbientLux(lux) => {
                if self.state == HeadlampState::Off && lux <= LUX_ON_THRESHOLD {
                    outcomes.push(HeadlampOutcome::RequestOn);
                    HeadlampContext { state: HeadlampState::OnRequested, ack_pending_since: Some(now) }
                } else if self.state == HeadlampState::On && lux >= LUX_OFF_THRESHOLD {
                    outcomes.push(HeadlampOutcome::RequestOff);
                    HeadlampContext { state: HeadlampState::OffRequested, ack_pending_since: Some(now) }
                } else {
                    *self
                }
            },
            HeadlampMessage::AckOn => {
                if self.state == HeadlampState::OnRequested {
                    HeadlampContext { state: HeadlampState::On, ack_pending_since: None }
                } else {
                    *self
                }
            },
            HeadlampMessage::AckOff => {
                if self.state == HeadlampState::OffRequested {
                    HeadlampContext { state: HeadlampState::Off, ack_pending_since: None }
                } else {
                    *self
                }
            },
            HeadlampMessage::ActuationIncomplete { direction, cause } => {
                if direction == HeadlampDirection::On && self.state == HeadlampState::OnRequested {
                    outcomes.push(HeadlampOutcome::LogWarning(incomplete_warning(direction, cause)));
                    HeadlampContext { state: HeadlampState::Off, ack_pending_since: None }
                } else if direction == HeadlampDirection::Off && self.state == HeadlampState::OffRequested {
                    outcomes.push(HeadlampOutcome::LogWarning(incomplete_warning(direction, cause)));
                    HeadlampContext { state: HeadlampState::On, ack_pending_since: None }
                } else {
                    *self
                }
            },
            HeadlampMessage::TimerTick => {
                if self.state == HeadlampState::OnRequested
                    && ack_wait_has_elapsed(self, now, FRONT_HEADLAMP_ON_ACK_WAIT) {
                    outcomes.push(HeadlampOutcome::LogWarning(on_ack_timeout_warning()));
                    HeadlampContext { state: HeadlampState::Off, ack_pending_since: None }
                } else if self.state == HeadlampState::OffRequested
                    && ack_wait_has_elapsed(self, now, FRONT_HEADLAMP_OFF_ACK_WAIT) {
                    outcomes.push(HeadlampOutcome::LogWarning(off_ack_timeout_warning()));
                    HeadlampContext { state: HeadlampState::On, ack_pending_since: None }
                } else {
                    *self
                }
            },
            HeadlampMessage::ResetForIgnitionOff => {
                if self.state == HeadlampState::On {
                    outcomes.push(HeadlampOutcome::RequestOff);
                }
                HeadlampContext { state: HeadlampState::Off, ack_pending_since: None }
            },
        };
        let reply = HeadlampZoneReply { ctx, outcomes };
        assert(reply@.outcomes =~= headlamp_reply(*self, message, now).outcomes);
        reply
    }
}


/// Whether the outcomes hold an ON request.
pub open spec fn requests_on(s: Seq<HeadlampOutcomeView>) -> bool {
    exists|i: int| 0 <= i < s.len() && s[i] is RequestOn
}

/// Whether the outcomes hold an OFF request.
pub open spec fn requests_off(s: Seq<HeadlampOutcomeView>) -> bool {
    exists|i: int| 0 <= i < s.len() && s[i] is RequestOff
}

/// An ON request is emitted only from `Off`, and only for an ambient
/// reading at or below `LUX_ON_THRESHOLD`; it leaves the zone `OnRequested`
/// with the request time recorded.
pub proof fn law_on_request_only_from_off(ctx: HeadlampContext, msg: HeadlampMessage, now: u64)
    ensures
        requests_on(headlamp_reply(ctx, msg, now).outcomes) ==> {
            &&& ctx.state == HeadlampState::Off
            &&& msg matches HeadlampMessage::AmbientLux(lux) && lux <= LUX_ON_THRESHOLD
            &&& headlamp_reply(ctx, msg, now).ctx == pending(HeadlampState::OnRequested, now)
        },
{
}

/// An OFF request is emitted only from `On`: for an ambient reading at or
/// above `LUX_OFF_THRESHOLD`, or for the ignition-off reset.
pub proof fn law_off_request_only_from_on(ctx: HeadlampContext, msg: HeadlampMessage, now: u64)
    ensures
        requests_off(headlamp_reply(ctx, msg, now).outcomes) ==> {
            &&& ctx.state == HeadlampState::On
            &&& (msg matches HeadlampMessage::AmbientLux(lux) && lux >= LUX_OFF_THRESHOLD)
                || msg == HeadlampMessage::ResetForIgnitionOff
        },
{
}

/// A repeated ambient reading never repeats a request: after a zone has
/// handled a reading, handling the same reading again emits nothing.
pub proof fn law_duplicate_lux_emits_no_request(ctx: HeadlampContext, lux: u16, t1: u64, t2: u64)
    ensures
        headlamp_reply(
            headlamp_reply(ctx, HeadlampMessage::AmbientLux(lux), t1).ctx,
            HeadlampMessage::AmbientLux(lux),
            t2,
        ).outcomes.len() == 0,
{
}

/// A pending request is left only through an acknowledgement, an incomplete
/// actuation, an elapsed acknowledgement wait or the ignition-off reset;
/// ambient readings leave a pending zone exactly as it was, reporting nothing.
pub proof fn law_pending_resolves_only_by_ack_failure_or_timeout(ctx: HeadlampContext, msg: HeadlampMessage, now: u64)
    requires
        ctx.state == HeadlampState::OnRequested || ctx.state == HeadlampState::OffRequested,
    ensures
        msg is AmbientLux ==> headlamp_reply(ctx, msg, now) == unchanged(ctx),
        headlamp_reply(ctx, msg, now).ctx.state != ctx.state ==> {
            ||| msg is AckOn
            ||| msg is AckOff
            ||| msg is ActuationIncomplete
            ||| msg == HeadlampMessage::TimerTick && ((ctx.state == HeadlampState::OnRequested
                && ack_wait_elapsed(ctx, now, FRONT_HEADLAMP_ON_ACK_WAIT))
                || (ctx.state == HeadlampState::OffRequested
                && ack_wait_elapsed(ctx, now, FRONT_HEADLAMP_OFF_ACK_WAIT)))
            ||| msg == HeadlampMessage::ResetForIgnitionOff
        },
{
    if msg is AmbientLux {
        assert(headlamp_reply(ctx, msg, now).outcomes =~= unchanged(ctx).outcomes);
    }
}

/// The ignition-off reset always settles the zone `Off` with nothing pending.
pub proof fn law_ignition_off_settles_off(ctx: HeadlampContext, now: u64)
    ensures
        headlamp_reply(ctx, HeadlampMessage::ResetForIgnitionOff, now).ctx == settled(HeadlampState::Off),
{
}

/// A request is pending exactly while the zone is in a requested state: the
/// reply's context records a request time if and only if it is
/// `OnRequested` or `OffRequested`, given the same of the context before.
pub proof fn law_pending_time_matches_requested_state(ctx: HeadlampContext, msg: HeadlampMessage, now: u64)
    requires
        ctx.ack_pending_since is Some <==> (ctx.state == HeadlampState::OnRequested
            || ctx.state == HeadlampState::OffRequested),
    ensures
        ({
            let next = headlamp_reply(ctx, msg, now).ctx;
            next.ack_pending_since is Some <==> (next.state == HeadlampState::OnRequested
                || next.state == HeadlampState::OffRequested)
        }),
{
}


/// An ON request that did not complete leaves the lamp unlit: whatever the
/// cause and time, an `OnRequested` zone settles `Off` with nothing pending.
/// An `OnRequested` zone becomes `On` only on an ON acknowledgement.
pub proof fn law_on_request_lights_only_on_ack(ctx: HeadlampContext, msg: HeadlampMessage, cause: ActuationIncompleteCause, now: u64)
    requires
        ctx.state == HeadlampState::OnRequested,
    ensures
        headlamp_reply(ctx, HeadlampMessage::ActuationIncomplete { direction: HeadlampDirection::On, cause }, now).ctx
            == (HeadlampContext { state: HeadlampState::Off, ack_pending_since: None }),
        headlamp_reply(ctx, msg, now).ctx.state == HeadlampState::On <==> msg == HeadlampMessage::AckOn,
{
}

} // verus!
