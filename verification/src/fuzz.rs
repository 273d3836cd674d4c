//! The fuzzing engine and the statistics it keeps.

pub mod engine;
pub mod findings;
pub mod laws;
pub mod model;
pub mod stats;
