//! The decision core of a physics-based character controller.
//!
//! A host rigid-body engine detects collisions and integrates motion; a thin
//! adapter around this crate reads the engine, evaluates the spring and vector
//! arithmetic, and applies the resulting forces. Everything that is decided
//! rather than measured lives here and is verified: which stages run in a tick
//! and in which order, when a body counts as grounded, when a jump may launch,
//! which contributions are silenced while airborne, and that the accumulated
//! force of a tick is handed out exactly once.

pub mod force;
pub mod ground;
pub mod host;
pub mod jump;
pub mod parts;
pub mod plugin;

pub use force::{
    accumulate_forces, float_force, ground_reaction, jump_force, AccumulatedForce,
    AccumulatorError, AccumulatorOp, AccumulatorPhase, Contributions, FloatForce, ForceContribution,
    GravityForce, GroundReaction, JumpForce,
};
pub use ground::{determine_groundedness, GroundCast, GroundHit, GroundThresholds, Groundedness};
pub use jump::{JumpConfig, JumpInput, JumpPhase, JumpState};
pub use parts::Parts;
pub use plugin::{Plan, Stage, WanderlustPlugin};
