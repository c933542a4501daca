//! The compact `Chirpstack` custom resource: its specification, its status
//! and the value types they share.

pub mod spec;
pub mod status;
pub mod types;

pub use spec::Chirpstack;
