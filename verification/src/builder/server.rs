//! The objects of the network server.

pub mod deployment;
pub mod monitoring_service;
pub mod service;
pub mod service_account;
pub mod statefulset;
