//! The transition table (sole authority over the next mode) and the output
//! rules that turn a mode change into domain actions.

use vstd::prelude::*;
use crate::fsm::{ActorModeHintFromDomain, DomainAction, DomainActionView, FsmEvent, FsmState, Operational};
use crate::vehicle_physics::{
    LUX_ON_THRESHOLD, RPM_DRIVING_THRESHOLD, RPM_RECOVERY_THRESHOLD,
    RPM_WARNING_THRESHOLD, WARNING_COOLDOWN_MS,
};
use crate::vehicle_state::{
    powertrain_refreshed, powertrain_standstill, powertrain_with_rpm, HeadlampState, Powertrain,
    VehicleContext,
};

verus! {

/// Warning text logged when the twin enters the warning mode.
pub const SPEED_THRESHOLD_WARNING_MESSAGE: &'static str = "Overspeed detected!";

/// Characters of the warning logged when the twin enters the warning mode.
pub open spec fn overspeed_text() -> Seq<char> {
    "Overspeed detected!"@
}

/// Characters of the warning logged when the twin starts driving dangerously.
pub open spec fn lighting_unsafe_text() -> Seq<char> {
    "Driving in the dark without a confirmed front headlamp"@
}

/// Characters of the warning logged when a power-off request is refused.
pub open spec fn power_off_rejected_text() -> Seq<char> {
    "Power off rejected while the vehicle is moving"@
}

pub fn overspeed_warning() -> (s: String)
    ensures
        s@ == overspeed_text(),
{
    "Overspeed detected!".to_owned()
}

pub fn lighting_unsafe_warning() -> (s: String)
    ensures
        s@ == lighting_unsafe_text(),
{
    "Driving in the dark without a confirmed front headlamp".to_owned()
}

pub fn power_off_rejected_warning() -> (s: String)
    ensures
        s@ == power_off_rejected_text(),
{
    "Power off rejected while the vehicle is moving".to_owned()
}

/// The context after the payload of `event` is recorded in it: RPM and speed
/// readings go to the powertrain (frozen at standstill while the twin is
/// `Off`), lux readings to the visibility assembly. The headlamp zone is not
/// touched here.
pub open spec fn derived_context(ctx: VehicleContext, event: FsmEvent, state: FsmState) -> VehicleContext {
    match event {
        FsmEvent::UpdateRpm(rpm) => VehicleContext {
            powertrain: if state == FsmState::Off {
                powertrain_standstill()
            } else {
                powertrain_refreshed(powertrain_with_rpm(ctx.powertrain, rpm))
            },
            ..ctx
        },
        FsmEvent::UpdateSpeed(speed) => VehicleContext {
            powertrain: if state == FsmState::Off {
                powertrain_standstill()
            } else {
                Powertrain { speed_kph: speed, ..ctx.powertrain }
            },
            ..ctx
        },
        FsmEvent::UpdateAmbientLux(lux) => VehicleContext {
            visibility: crate::vehicle_state::Visibility { ambient_lux: lux },
            ..ctx
        },
        _ => ctx,
    }
}

/// Records the payload of `event` in `ctx` (see [`derived_context`]).
pub fn derive_context(ctx: &VehicleContext, event: &FsmEvent, state: &FsmState) -> (r: VehicleContext)
    ensures
        r == derived_context(*ctx, *event, *state),
{
    let mut next = *ctx;
    match event {
        FsmEvent::UpdateRpm(rpm) => {
            if *state == FsmState::Off {
                next.powertrain.freeze_standstill();
            } else {
                next.powertrain.apply_rpm(*rpm);
                next.powertrain.refresh_speed();
            }
        },
        FsmEvent::UpdateSpeed(speed) => {
            if *state == FsmState::Off {
                next.powertrain.freeze_standstill();
            } else {
                next.powertrain.apply_speed(*speed);
            }
        },
        FsmEvent::UpdateAmbientLux(lux) => {
            next.visibility.apply_lux(*lux);
        },
        _ => {},
    }
    next
}

/// Whether the mode is an alarm mode (the buzzer sounds while in it).
pub open spec fn is_alarm(s: FsmState) -> bool {
    s is Warning || s is DrivingDangerously
}

/// Whether two states are the same mode (warnings compare by mode only).
pub open spec fn same_mode(a: FsmState, b: FsmState) -> bool {
    match (a, b) {
        (FsmState::Warning(_), FsmState::Warning(_)) => true,
        _ => a == b,
    }
}

/// Whether the lighting of the world is confirmed safe for driving.
pub open spec fn lighting_confirmed(c: VehicleContext) -> bool {
    c.headlamp.state == HeadlampState::On || c.visibility.ambient_lux > LUX_ON_THRESHOLD
}

/// Whether the twin is powered.
pub open spec fn is_powered(s: FsmState) -> bool {
    s != FsmState::Off
}

/// Mode on a power-off request: granted only at standstill.
pub open spec fn on_power_off(state: FsmState, c: VehicleContext) -> FsmState {
    if c.powertrain.speed_kph == 0 { FsmState::Off } else { state }
}

/// Whether a warning that began at `began_at` may recover at `now` in `c`.
pub open spec fn warning_recovery_ready(began_at: u64, now: u64, c: VehicleContext) -> bool {
    now >= began_at + WARNING_COOLDOWN_MS && c.powertrain.rpm() <= RPM_RECOVERY_THRESHOLD
}

/// The transition table over a context that already holds the event payload.
pub open spec fn table(state: FsmState, event: FsmEvent, c: VehicleContext, now: u64) -> FsmState {
    match state {
        FsmState::Off => {
            if event == FsmEvent::PowerOn { FsmState::Idle } else { FsmState::Off }
        },
        FsmState::Idle => match event {
            FsmEvent::PowerOff => on_power_off(state, c),
            FsmEvent::UpdateRpm(rpm) => {
                if rpm >= RPM_DRIVING_THRESHOLD { FsmState::Driving } else { FsmState::Idle }
            },
            FsmEvent::UpdateSpeed(speed) => {
                if speed > 0 { FsmState::Driving } else { FsmState::Idle }
            },
            _ => FsmState::Idle,
        },
        FsmState::Driving => match event {
            FsmEvent::PowerOff => on_power_off(state, c),
            FsmEvent::UpdateRpm(rpm) => {
                if rpm >= RPM_WARNING_THRESHOLD {
                    FsmState::Warning(now)
                } else if c.powertrain.speed_kph == 0 {
                    FsmState::Idle
                } else {
                    FsmState::Driving
                }
            },
            FsmEvent::UpdateSpeed(speed) => {
                if speed == 0 { FsmState::Idle } else { FsmState::Driving }
            },
            FsmEvent::Internal(Operational::LightingUnsafe) => FsmState::DrivingDangerously,
            _ => FsmState::Driving,
        },
        FsmState::Warning(began_at) => match event {
            FsmEvent::PowerOff => on_power_off(state, c),
            FsmEvent::TimerTick => {
                if warning_recovery_ready(began_at, now, c) {
                    if c.powertrain.speed_kph > 0 { FsmState::Driving } else { FsmState::Idle }
                } else {
                    state
                }
            },
            _ => state,
        },
        FsmState::DrivingDangerously => match event {
            FsmEvent::PowerOff => on_power_off(state, c),
            FsmEvent::UpdateRpm(rpm) => {
                if rpm >= RPM_WARNING_THRESHOLD {
                    FsmState::Warning(now)
                } else if c.powertrain.speed_kph == 0 {
                    FsmState::Idle
                } else if lighting_confirmed(c) {
                    FsmState::Driving
                } else {
                    state
                }
            },
            FsmEvent::UpdateSpeed(speed) => {
                if speed == 0 {
                    FsmState::Idle
                } else if lighting_confirmed(c) {
                    FsmState::Driving
                } else {
                    state
                }
            },
            FsmEvent::Internal(_) => state,
            _ => if lighting_confirmed(c) { FsmState::Driving } else { state },
        },
    }
}

/// The next mode for `event` at `now`, given the context before the event.
pub open spec fn next_state(state: FsmState, event: FsmEvent, ctx: VehicleContext, now: u64) -> FsmState {
    table(state, event, derived_context(ctx, event, state), now)
}

/// The mode hint that accompanies entering `s`.
pub open spec fn mode_hint(s: FsmState) -> ActorModeHintFromDomain {
    match s {
        FsmState::Off => ActorModeHintFromDomain::Dormant,
        FsmState::Warning(_) => ActorModeHintFromDomain::Alert,
        FsmState::DrivingDangerously => ActorModeHintFromDomain::Alert,
        _ => ActorModeHintFromDomain::Normal,
    }
}

/// The actions of a mode change from `old` to `new`: none when the mode stays;
/// otherwise the buzzer edge (stop when leaving the alarm modes, start when
/// entering them), the warning of the mode entered, a state sync and the
/// runtime mode hint.
pub open spec fn output_actions(old: FsmState, new: FsmState) -> Seq<DomainActionView> {
    if same_mode(old, new) {
        Seq::empty()
    } else {
        (if is_alarm(old) && !is_alarm(new) { seq![DomainActionView::StopBuzzer] } else { Seq::empty() })
            + (if !is_alarm(old) && is_alarm(new) { seq![DomainActionView::StartBuzzer] } else { Seq::empty() })
            + (if new is Warning {
                seq![DomainActionView::LogWarning(overspeed_text())]
            } else if new is DrivingDangerously {
                seq![DomainActionView::LogWarning(lighting_unsafe_text())]
            } else {
                Seq::empty()
            })
            + seq![DomainActionView::PublishStateSync, DomainActionView::EnterMode(mode_hint(new))]
    }
}

fn alarm(s: &FsmState) -> (r: bool)
    ensures
        r == is_alarm(*s),
{
    match s {
        FsmState::Warning(_) | FsmState::DrivingDangerously => true,
        _ => false,
    }
}

fn same(a: &FsmState, b: &FsmState) -> (r: bool)
    ensures
        r == same_mode(*a, *b),
{
    match (a, b) {
        (FsmState::Warning(_), FsmState::Warning(_)) => true,
        _ => *a == *b,
    }
}

fn hint(s: &FsmState) -> (r: ActorModeHintFromDomain)
    ensures
        r == mode_hint(*s),
{
    match s {
        FsmState::Off => ActorModeHintFromDomain::Dormant,
        FsmState::Warning(_) => ActorModeHintFromDomain::Alert,
        FsmState::DrivingDangerously => ActorModeHintFromDomain::Alert,
        _ => ActorModeHintFromDomain::Normal,
    }
}

fn confirmed(c: &VehicleContext) -> (r: bool)
    ensures
        r == lighting_confirmed(*c),
{
    c.headlamp.state == HeadlampState::On || c.visibility.ambient_lux > LUX_ON_THRESHOLD
}

fn power_off(state: &FsmState, c: &VehicleContext) -> (r: FsmState)
    ensures
        r == on_power_off(*state, *c),
{
    if c.powertrain.speed_kph == 0 { FsmState::Off } else { *state }
}

/// Applies the table to a context that already holds the event payload.
fn apply_table(state: &FsmState, event: &FsmEvent, c: &VehicleContext, now: u64) -> (r: FsmState)
    ensures
        r == table(*state, *event, *c, now),
{
    match state {
        FsmState::Off => {
            if *event == FsmEvent::PowerOn { FsmState::Idle } else { FsmState::Off }
        },
        FsmState::Idle => match event {
            FsmEvent::PowerOff => power_off(state, c),
            FsmEvent::UpdateRpm(rpm) => {
                if *rpm >= RPM_DRIVING_THRESHOLD { FsmState::Driving } else { FsmState::Idle }
            },
            FsmEvent::UpdateSpeed(speed) => {
                if *speed > 0 { FsmState::Driving } else { FsmState::Idle }
            },
            _ => FsmState::Idle,
        },
        FsmState::Driving => match event {
            FsmEvent::PowerOff => power_off(state, c),
            FsmEvent::UpdateRpm(rpm) => {
                if *rpm >= RPM_WARNING_THRESHOLD {
                    FsmState::Warning(now)
                } else if c.powertrain.speed_kph == 0 {
                    FsmState::Idle
                } else {
                    FsmState::Driving
                }
            },
            FsmEvent::UpdateSpeed(speed) => {
                if *speed == 0 { FsmState::Idle } else { FsmState::Driving }
            },
            FsmEvent::Internal(Operational::LightingUnsafe) => FsmState::DrivingDangerously,
            _ => FsmState::Driving,
        },
        FsmState::Warning(began_at) => match event {
            FsmEvent::PowerOff => power_off(state, c),
            FsmEvent::TimerTick => {
                let ready = now >= *began_at && now - *began_at >= WARNING_COOLDOWN_MS
                    && c.powertrain.wheel_rpm.front_left <= RPM_RECOVERY_THRESHOLD;
                if ready {
                    if c.powertrain.speed_kph > 0 { FsmState::Driving } else { FsmState::Idle }
                } else {
                    *state
                }
            },
            _ => *state,
        },
        FsmState::DrivingDangerously => match event {
            FsmEvent::PowerOff => power_off(state, c),
            FsmEvent::UpdateRpm(rpm) => {
                if *rpm >= RPM_WARNING_THRESHOLD {
                    FsmState::Warning(now)
                } else if c.powertrain.speed_kph == 0 {
                    FsmState::Idle
                } else if confirmed(c) {
                    FsmState::Driving
                } else {
                    *state
                }
            },
            FsmEvent::UpdateSpeed(speed) => {
                if *speed == 0 {
                    FsmState::Idle
                } else if confirmed(c) {
                    FsmState::Driving
                } else {
                    *state
                }
            },
            FsmEvent::Internal(_) => *state,
            _ => if confirmed(c) { FsmState::Driving } else { *state },
        },
    }
}

/// The next mode for `event` received at `now` (milliseconds) in `current_state`,
/// with `ctx` the context before the event. Reads no clock.
pub fn transition(current_state: &FsmState, event: &FsmEvent, ctx: &VehicleContext, now: u64) -> (next: FsmState)
    ensures
        next == next_state(*current_state, *event, *ctx, now),
{
    let c = derive_context(ctx, event, current_state);
    apply_table(current_state, event, &c, now)
}

/// The domain actions of the mode change from `old_state` to `new_state`.
pub fn output(old_state: &FsmState, new_state: &FsmState) -> (actions: Vec<DomainAction>)
    ensures
        actions.deep_view() == output_actions(*old_state, *new_state),
{
    let mut actions: Vec<DomainAction> = Vec::new();
    if same(old_state, new_state) {
        assert(actions.deep_view() =~= output_actions(*old_state, *new_state));
        return actions;
    }
    let old_alarm = alarm(old_state);
    let new_alarm = alarm(new_state);
    if old_alarm && !new_alarm {
        actions.push(DomainAction::StopBuzzer);
    }
    if !old_alarm && new_alarm {
        actions.push(DomainAction::StartBuzzer);
    }
    match new_state {
        FsmState::Warning(_) => actions.push(DomainAction::LogWarning(overspeed_warning())),
        FsmState::DrivingDangerously => actions.push(DomainAction::LogWarning(lighting_unsafe_warning())),
        _ => {},
    }
    actions.push(DomainAction::PublishStateSync);
    actions.push(DomainAction::EnterMode(hint(new_state)));
    assert(actions.deep_view() =~= output_actions(*old_state, *new_state));
    actions
}


/// Whether the actions hold `a`.
pub open spec fn has_action(s: Seq<DomainActionView>, a: DomainActionView) -> bool {
    exists|i: int| 0 <= i < s.len() && s[i] == a
}

/// A twin that is `Off` leaves it only on `PowerOn`, and then becomes `Idle`.
pub proof fn law_off_left_only_by_power_on(event: FsmEvent, ctx: VehicleContext, now: u64)
    ensures
        next_state(FsmState::Off, event, ctx, now) == if event == FsmEvent::PowerOn {
            FsmState::Idle
        } else {
            FsmState::Off
        },
{
}

/// A power-off request is granted only at standstill; a moving twin keeps
/// its mode.
pub proof fn law_power_off_only_at_standstill(state: FsmState, ctx: VehicleContext, now: u64)
    requires
        state != FsmState::Off,
    ensures
        next_state(state, FsmEvent::PowerOff, ctx, now) == if ctx.powertrain.speed_kph == 0 {
            FsmState::Off
        } else {
            state
        },
{
}

/// A warning is left only on a heartbeat once the cooldown has elapsed and
/// the RPM is at or below the recovery threshold (to `Driving` when moving,
/// `Idle` at standstill), or on a power-off request at standstill.
pub proof fn law_warning_recovery_requires_cooldown_and_low_rpm(began_at: u64, event: FsmEvent, ctx: VehicleContext, now: u64)
    ensures
        ({
            let next = next_state(FsmState::Warning(began_at), event, ctx, now);
            next != FsmState::Warning(began_at) ==> {
                ||| event == FsmEvent::PowerOff && ctx.powertrain.speed_kph == 0 && next == FsmState::Off
                ||| {
                    &&& event == FsmEvent::TimerTick
                    &&& now >= began_at + WARNING_COOLDOWN_MS
                    &&& ctx.powertrain.rpm() <= RPM_RECOVERY_THRESHOLD
                    &&& next == if ctx.powertrain.speed_kph > 0 { FsmState::Driving } else { FsmState::Idle }
                }
            }
        }),
{
}

/// The warning mode is entered only from a driving mode on an RPM reading at
/// or above `RPM_WARNING_THRESHOLD`, and it records `now` as its start.
pub proof fn law_warning_entered_only_at_redline(state: FsmState, event: FsmEvent, ctx: VehicleContext, now: u64)
    requires
        !(state is Warning),
        next_state(state, event, ctx, now) is Warning,
    ensures
        state == FsmState::Driving || state == FsmState::DrivingDangerously,
        event matches FsmEvent::UpdateRpm(rpm) && rpm >= RPM_WARNING_THRESHOLD,
        next_state(state, event, ctx, now) == FsmState::Warning(now),
{
}

/// Driving dangerously is entered only from `Driving`, and only through the
/// internal lighting-unsafe event: detectors propose, the table decides.
pub proof fn law_danger_entered_only_by_lighting_unsafe(state: FsmState, event: FsmEvent, ctx: VehicleContext, now: u64)
    requires
        state != FsmState::DrivingDangerously,
        next_state(state, event, ctx, now) == FsmState::DrivingDangerously,
    ensures
        state == FsmState::Driving,
        event == FsmEvent::Internal(Operational::LightingUnsafe),
{
}

/// The buzzer is driven only by alarm edges of the mode: `StartBuzzer` is
/// emitted exactly when entering an alarm mode from a non-alarm mode,
/// `StopBuzzer` exactly when leaving them; no mode change emits nothing.
pub proof fn law_buzzer_only_on_alarm_edges(old: FsmState, new: FsmState)
    ensures
        has_action(output_actions(old, new), DomainActionView::StartBuzzer) <==> (!is_alarm(old) && is_alarm(new)),
        has_action(output_actions(old, new), DomainActionView::StopBuzzer) <==> (is_alarm(old) && !is_alarm(new)),
        same_mode(old, new) ==> output_actions(old, new).len() == 0,
{
    let s = output_actions(old, new);
    if !is_alarm(old) && is_alarm(new) {
        assert(s[0] == DomainActionView::StartBuzzer);
    }
    if is_alarm(old) && !is_alarm(new) {
        assert(s[0] == DomainActionView::StopBuzzer);
    }
}


/// A redline reading enters the overspeed warning from either driving mode,
/// starting at `now`, whatever the context (lighting included).
pub proof fn law_redline_enters_warning_from_driving_modes(state: FsmState, rpm: u16, ctx: VehicleContext, now: u64)
    requires
        state == FsmState::Driving || state == FsmState::DrivingDangerously,
        rpm >= RPM_WARNING_THRESHOLD,
    ensures
        next_state(state, FsmEvent::UpdateRpm(rpm), ctx, now) == FsmState::Warning(now),
{
}

/// Every change of mode variant is published: its actions hold a state sync
/// and the runtime hint of the mode entered (`Dormant` for `Off`, `Alert` for
/// the warning and dangerous-driving modes, `Normal` otherwise); the actions
/// are empty exactly when both states are the same variant.
pub proof fn law_every_mode_change_is_published(old: FsmState, new: FsmState)
    ensures
        output_actions(old, new).len() == 0 <==> (old == new || (old is Warning && new is Warning)),
        !(old == new || (old is Warning && new is Warning)) ==> {
            &&& has_action(output_actions(old, new), DomainActionView::PublishStateSync)
            &&& new == FsmState::Off ==> has_action(output_actions(old, new),
                DomainActionView::EnterMode(ActorModeHintFromDomain::Dormant))
            &&& (new is Warning || new == FsmState::DrivingDangerously) ==> has_action(output_actions(old, new),
                DomainActionView::EnterMode(ActorModeHintFromDomain::Alert))
            &&& (new == FsmState::Idle || new == FsmState::Driving) ==> has_action(output_actions(old, new),
                DomainActionView::EnterMode(ActorModeHintFromDomain::Normal))
        },
{
    let s = output_actions(old, new);
    if !(old == new || (old is Warning && new is Warning)) {
        assert(!same_mode(old, new));
        assert(s[s.len() - 2] == DomainActionView::PublishStateSync);
        assert(s[s.len() - 1] == DomainActionView::EnterMode(mode_hint(new)));
    }
}

} // verus!
