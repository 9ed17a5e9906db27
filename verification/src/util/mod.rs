//! Configuration: where each value comes from and what makes it valid.

pub mod config;
pub mod laws;
pub mod overrides;
pub mod sources;
