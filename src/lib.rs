//! Decision logic of a two-dimensional light-ray tracer.
//!
//! Geometry (positions, directions, containment tests) is measured by the
//! caller; this library decides, from those measurements, which shape a ray
//! strikes, when it leaves a refractive medium, how the bounce bookkeeping
//! evolves, and how a set of rays is laid out when spawned.
pub mod path;
pub mod shapes;
pub mod spawn;
pub mod tracer;

pub use path::{bounce_rule, lemma_path_length, BouncePath, BounceRule, PathModel};
pub use shapes::{lemma_compare_equivalence, touching_object, ShapeKind, ShapeTag};
pub use spawn::{lemma_fov_fan_even, spawn_slots, AngleSlot, SpawnMode};
pub use tracer::{crossing_start, march_step, pass_end, ray_trace, StepVerdict, TraceHit};
