//! Runtime timing of the brain-to-zone coordination.

use vstd::prelude::*;

verus! {

/// How long (milliseconds) the brain waits for one zone tell-back before it
/// tells again or synthesizes an unresponsive embed.
pub const ZONE_TELL_BACK_WAIT: u64 = 500;

/// Re-tells after a tell-back timeout before the brain synthesizes an
/// unresponsive embed.
pub const ZONE_TELL_BACK_MAX_RETRIES: u8 = 2;

/// Tell attempts per wait cycle: the first tell and every re-tell.
pub const ZONE_TELL_BACK_ATTEMPT_COUNT: u32 = 3;

/// Upper bound on hops in one quiescent turn, a guard against detector cycles.
pub const MAX_QUIESCENCE_HOPS: usize = 8;

} // verus!
