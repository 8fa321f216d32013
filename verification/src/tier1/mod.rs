//! Tier 1: capabilities that observe the target database without modifying
//! it; their state lives in the sidecar.

pub mod drift;
pub mod provenance;
