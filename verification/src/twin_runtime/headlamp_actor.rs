//! The headlamp twinlet's message handling: the zone context it owns is
//! replaced by the context of its reply, and the reply goes back to the brain.

use vstd::prelude::*;
use crate::vehicle_state::{HeadlampContext, HeadlampMessage, HeadlampZoneReply};
use crate::vehicle_state::front_headlamp::headlamp_reply;

verus! {

/// The headlamp zone twinlet.
#[derive(Clone, Copy, Debug, Default)]
pub struct HeadlampActor;

impl HeadlampActor {
    /// Handles one message received at `now`: the owned zone context becomes
    /// the reply's context; the reply is returned for the brain.
    pub fn handle_message(&self, state: &mut HeadlampContext, message: HeadlampMessage, now: u64) -> (reply: HeadlampZoneReply)
        ensures
            reply@ == headlamp_reply(*old(state), message, now),
            *final(state) == reply.ctx,
    {
        let zone_reply = state.on_receiving_message(message, now);
        *state = zone_reply.ctx;
        zone_reply
    }
}

} // verus!
