//! Core of a toy gravitational N-body simulator: an index-addressed store of
//! point masses and the all-pairs step that advances it by one tick.
//!
//! The library is generic in the number types: `V` is the type of a plane
//! vector (a position, a velocity, a sum of pulls), `S` the type of a scalar
//! (a mass, a distance) and `T` the type of a time increment, which under the
//! simulator's own law is `S` too.
//!
//! * [`body`] and [`store`] hold the data.
//! * [`config`] and [`init`] start a run.
//! * [`engine`] is the stepping scheme for any interaction law, and
//!   [`parallel`] the same scheme on a thread pool.
//! * [`law`] is the interaction law of the simulator.
//! * [`step`] puts scheme and law together.
//! * [`engine_laws`] and [`step_laws`] prove what holds of every tick.

pub mod body;
pub mod store;
pub mod config;
pub mod init;
pub mod engine;
pub mod parallel;
pub mod law;
pub mod step;
pub mod engine_laws;
pub mod step_laws;

pub use body::OrbitalEntity;
pub use config::{ConfigError, SimulationConfig};
pub use engine::{apply_influences, integrate, net_influence, net_influences, step_with};
pub use init::{initialize, Interval, SpawnRanges};
pub use parallel::step_parallel_with;
pub use step::{step, step_parallel};
pub use store::BodyStore;
