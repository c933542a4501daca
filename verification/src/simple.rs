//! The compact form of the `Chirpstack` resource: a status of two fields
//! (checking and reconciling), an image whose parts each have a default, an
//! optional REST API, and the index and locks that serve it.

pub mod crd;
pub mod index;
pub mod locks;
