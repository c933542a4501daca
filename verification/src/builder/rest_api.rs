//! The objects of the REST API.

pub mod deployment;
pub mod service;
