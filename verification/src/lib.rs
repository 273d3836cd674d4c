//! Core of a black-box network protocol fuzzer for targets that cannot be
//! instrumented.
//!
//! The crate holds the decisions of the fuzzing engine and of the crash
//! triage as state machines over plain values, the deterministic mutation
//! toolkit, the statistics record and the rules of the output directory.
//! Talking to the target (transport, health check, reset) is left to the
//! caller, who performs the action a state machine asks for and hands back
//! what happened.

pub mod bits;
pub mod buffer;
pub mod byteset;
pub mod constraints;
pub mod dangerous_numbers;
pub mod error;
pub mod fuzz;
pub mod generator;
pub mod mutator;
pub mod output;
pub mod packet;
pub mod tether;
pub mod text;
pub mod traits;
pub mod triage;
pub mod types;
