//! A batch entity-culling decision engine for a real-time game server.
//!
//! For each simulated entity the engine decides, from a cheap heuristic over
//! the entity's distance, speed and facing relative to an observer, whether
//! the entity's expensive per-tick processing may be skipped ("culled") this
//! tick. One predicate backs several calling conventions: a scalar decision,
//! an allocating batch, an in-place batch, a batch with per-entity-type
//! threshold sets, and a zero-copy evaluator over raw byte regions.
//!
//! Every floating-point value crosses the engine boundary as its IEEE-754
//! double-precision bit pattern (a `u64`); the comparison semantics of those
//! patterns, NaN and signed zero included, are defined and verified in
//! [`ieee`]. The host converts with `f64::to_bits` at the boundary.

pub mod direct;
pub mod engine;
pub mod ieee;
pub mod laws;

pub use direct::evaluate_batch_direct;
pub use engine::{
    evaluate_batch, evaluate_batch_by_type, evaluate_batch_into, evaluate_single, CullError,
};
pub use ieee::{gt_bits, lt_bits};
