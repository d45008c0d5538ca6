//! Zone embeds that arrive with a completed brain turn.

use vstd::prelude::*;
use crate::fsm::FsmEvent;
use crate::vehicle_state::{HeadlampZoneReply, HeadlampZoneReplyView};

verus! {

/// Headlamp tell-backs for one turn: the reply to the demuxed ingress
/// message, and the reply to the ignition-off reset when the turn lands `Off`.
/// `None` means the zone is simulated in-process.
#[derive(Debug, PartialEq, Eq)]
pub struct HeadlampReplies {
    pub ingress: Option<HeadlampZoneReply>,
    pub ignition_off: Option<HeadlampZoneReply>,
}

/// Every zone's tell-backs for one turn.
#[derive(Debug, PartialEq, Eq)]
pub struct ZoneReplies {
    pub headlamp: HeadlampReplies,
}

/// Mathematical form of an optional zone reply.
pub open spec fn reply_view(r: Option<HeadlampZoneReply>) -> Option<HeadlampZoneReplyView> {
    match r {
        Some(x) => Some(x@),
        None => None,
    }
}

impl ZoneReplies {
    /// No tell-backs: every zone message is handled in-process.
    pub fn simulate_locally() -> (z: Self)
        ensures
            z.headlamp.ingress is None,
            z.headlamp.ignition_off is None,
    {
        ZoneReplies { headlamp: HeadlampReplies { ingress: None, ignition_off: None } }
    }

    /// The headlamp zone already handled the ingress message and replied `reply`.
    pub fn with_headlamp_ingress(reply: HeadlampZoneReply) -> (z: Self)
        ensures
            reply_view(z.headlamp.ingress) == Some(reply@),
            z.headlamp.ignition_off is None,
    {
        ZoneReplies { headlamp: HeadlampReplies { ingress: Some(reply), ignition_off: None } }
    }
}

/// One external ingress whose zone work is complete, ready to commit.
#[derive(Debug, PartialEq, Eq)]
pub struct ResolvedTurn {
    pub ingress: FsmEvent,
    pub now: u64,
    pub zone_replies: ZoneReplies,
}

} // verus!
