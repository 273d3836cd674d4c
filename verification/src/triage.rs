//! Triage of recorded crashes: finding the single input that brings the
//! target down.

pub mod dynamic;
pub mod utils;
