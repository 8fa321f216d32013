//! Verified core of verisimiser: octad configuration, sidecar schema
//! generation, and the provenance / temporal sidecar model.

pub mod abi;
pub mod clock;
pub mod codegen;
pub mod digest;
pub mod doctor;
pub mod gc;
pub mod intercept;
pub mod manifest;
pub mod order;
pub mod sidecar;
pub mod text;
pub mod tier1;

