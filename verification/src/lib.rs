//! Deterministic core of a vehicle digital twin: lighting zone, operational FSM,
//! and the quiescent turn runner that joins them.

pub mod vehicle_physics;
pub mod vehicle_state;
pub mod fsm;
pub mod twin_runtime;
pub mod vehicle_kinematics;
pub mod digital_twin;

pub use fsm::transition_map::SPEED_THRESHOLD_WARNING_MESSAGE;
