//! Mapping uniformly random draws to values: integers of every width,
//! fractions standing for floating draws in the unit interval, Unicode
//! scalar values by rejection sampling, and compound values built from
//! them, all driven by an injected entropy-source capability.

pub mod compose;
pub mod entropy;
pub mod interval;
pub mod ints;
pub mod laws;
pub mod scalar;
pub mod seeded;
pub mod sources;
pub mod value;

pub use entropy::EntropySource;
pub use value::Rand;
