//! Write-path interception of the target database.

pub mod sqlite;
