//! Brain-side orchestration of a turn: zone demux, FSM hops, detectors and
//! the quiescence runner; and the tell-back retry policy.

pub mod constants;
pub mod detectors;
pub mod outcome_map;
pub mod zone_replies;
pub mod zone_turn;
pub mod twin_turn;

pub use twin_turn::{
    commit_brain_turn, commit_resolved_turn, run_to_quiescence, twin_turn, HopRecord,
    QuiescentResult,
};
pub use zone_replies::{HeadlampReplies, ResolvedTurn, ZoneReplies};
pub mod headlamp_actor;
pub mod zone_tell_back;

pub use headlamp_actor::HeadlampActor;
