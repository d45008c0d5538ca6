# sdv_common

Deterministic core of a vehicle digital twin, verified with Verus.

- `src/vehicle_physics.rs` — thresholds, acknowledgement waits, rounded RPM-to-speed.
- `src/vehicle_state/` — the summated context (powertrain, visibility, health) and the
  front headlamp zone: a pure handler from one message to the zone's next context and outcomes.
- `src/fsm/` — operational modes and events, the transition table (`transition`), the output
  rules (`output`) and the pure `step` boundary with its transition record.
- `src/twin_runtime/` — zone demux (`zone_turn`), one brain hop (`twin_turn`,
  `commit_brain_turn`), detectors, the quiescence runner (`run_to_quiescence`,
  `commit_resolved_turn`) and the tell-back retry policy.
- `src/digital_twin.rs` — the persisted twin and `apply_step`.
- `app/` — the ractor headlamp twinlet and its RPC helper, floating-point kinematics and the
  emulator's environment override (not verified).

Time is a monotonic millisecond counter passed in by the caller; no verified function reads a
clock. Every public function states its result exactly over spec functions; the laws of the
library are public proof functions named `law_*`.
