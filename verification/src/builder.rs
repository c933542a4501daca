//! The Kubernetes objects made for a `Chirpstack` resource.

pub mod meta_data;
pub mod pod;
pub mod rest_api;
pub mod selection;
pub mod server;
