//! Code generation: schema parsing, identifier validation, the sidecar
//! overlay DDL and query interceptors.

pub mod ident;
pub mod overlay;
pub mod parser;
pub mod query;
