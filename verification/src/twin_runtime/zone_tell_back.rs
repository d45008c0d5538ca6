//! Tell-back waiting policy: after a zone tell-back timeout the brain tells
//! again while retries remain, then commits a synthetic "unresponsive" embed.

use vstd::prelude::*;
use crate::twin_runtime::constants::{ZONE_TELL_BACK_ATTEMPT_COUNT, ZONE_TELL_BACK_MAX_RETRIES};
use crate::vehicle_state::{HeadlampContext, HeadlampOutcome, HeadlampOutcomeView, HeadlampZoneReply, HeadlampZoneReplyView};

verus! {

/// A brain turn waiting for a zone tell-back.
#[derive(Clone, Copy, Debug, PartialEq, Eq, Structural)]
pub struct TellBackWait {
    pub turn_id: u64,
    pub retries_remaining: u8,
}

impl TellBackWait {
    /// A fresh wait for turn `turn_id`, with every retry still available.
    pub fn new(turn_id: u64) -> (w: Self)
        ensures
            w.turn_id == turn_id,
            w.retries_remaining == ZONE_TELL_BACK_MAX_RETRIES,
    {
        TellBackWait { turn_id, retries_remaining: ZONE_TELL_BACK_MAX_RETRIES }
    }
}

/// What the brain does after a tell-back timeout.
#[derive(Debug, PartialEq, Eq)]
pub enum TellBackTimeoutOutcome {
    /// Tell the zone again and keep waiting.
    Retry(TellBackWait),
    /// Give up waiting; commit this synthetic embed.
    Exhausted(HeadlampZoneReply),
}

/// Characters of the warning carried by the synthetic embed.
pub open spec fn unresponsive_text() -> Seq<char> {
    "front headlamp zone unresponsive; last known lamp state kept"@
}

/// The synthetic embed: the zone context unchanged, one unresponsive warning.
pub open spec fn unresponsive_reply(ctx: HeadlampContext) -> HeadlampZoneReplyView {
    HeadlampZoneReplyView { ctx, outcomes: seq![HeadlampOutcomeView::LogWarning(unresponsive_text())] }
}

/// The embed committed when the headlamp zone never told back.
pub fn synthetic_unresponsive_headlamp_reply(ctx: &HeadlampContext) -> (reply: HeadlampZoneReply)
    ensures
        reply@ == unresponsive_reply(*ctx),
{
    let mut outcomes: Vec<HeadlampOutcome> = Vec::new();
    outcomes.push(HeadlampOutcome::LogWarning("front headlamp zone unresponsive; last known lamp state kept".to_owned()));
    let reply = HeadlampZoneReply { ctx: *ctx, outcomes };
    assert(reply@.outcomes =~= unresponsive_reply(*ctx).outcomes);
    reply
}

/// Decides after a tell-back timeout: retry while retries remain (one fewer
/// afterwards), otherwise the synthetic unresponsive embed for `ctx`.
pub fn on_tell_back_timeout(ctx: &HeadlampContext, wait: TellBackWait) -> (outcome: TellBackTimeoutOutcome)
    ensures
        wait.retries_remaining > 0 <==> outcome is Retry,
        outcome matches TellBackTimeoutOutcome::Retry(next) ==> wait_after_timeout(wait) == Some(next),
        outcome is Exhausted ==> wait_after_timeout(wait) is None,
        outcome matches TellBackTimeoutOutcome::Exhausted(reply) ==> reply@ == unresponsive_reply(*ctx),
{
    if wait.retries_remaining > 0 {
        TellBackTimeoutOutcome::Retry(TellBackWait { retries_remaining: wait.retries_remaining - 1, ..wait })
    } else {
        TellBackTimeoutOutcome::Exhausted(synthetic_unresponsive_headlamp_reply(ctx))
    }
}


/// The wait after one more tell-back timeout, or `None` once retries are exhausted.
pub open spec fn wait_after_timeout(w: TellBackWait) -> Option<TellBackWait> {
    if w.retries_remaining > 0 {
        Some(TellBackWait { retries_remaining: (w.retries_remaining - 1) as u8, ..w })
    } else {
        None
    }
}

/// The wait after `k` consecutive tell-back timeouts, or `None` once exhausted.
pub open spec fn wait_after_timeouts(w: TellBackWait, k: nat) -> Option<TellBackWait>
    decreases k,
{
    if k == 0 {
        Some(w)
    } else {
        match wait_after_timeouts(w, (k - 1) as nat) {
            Some(v) => wait_after_timeout(v),
            None => None,
        }
    }
}

/// A fresh wait is retried `ZONE_TELL_BACK_MAX_RETRIES` times and exhausted at
/// the next timeout: `ZONE_TELL_BACK_ATTEMPT_COUNT` tells in all, the first
/// tell and every re-tell.
pub proof fn law_fresh_wait_retries_then_exhausts(turn_id: u64)
    ensures
        ({
            let w = TellBackWait { turn_id, retries_remaining: ZONE_TELL_BACK_MAX_RETRIES };
            &&& wait_after_timeouts(w, ZONE_TELL_BACK_MAX_RETRIES as nat)
                == Some(TellBackWait { turn_id, retries_remaining: 0 })
            &&& wait_after_timeouts(w, (ZONE_TELL_BACK_MAX_RETRIES + 1) as nat) is None
            &&& ZONE_TELL_BACK_ATTEMPT_COUNT == ZONE_TELL_BACK_MAX_RETRIES + 1
        }),
{
    let w = TellBackWait { turn_id, retries_remaining: ZONE_TELL_BACK_MAX_RETRIES };
    reveal_with_fuel(wait_after_timeouts, 4);
    assert(wait_after_timeouts(w, 1) == Some(TellBackWait { turn_id, retries_remaining: 1 }));
    assert(wait_after_timeouts(w, 2) == Some(TellBackWait { turn_id, retries_remaining: 0 }));
    assert(wait_after_timeouts(w, 3) is None);
}

} // verus!
