//! Verified core of a Kubernetes operator that runs ChirpStack LoRaWAN
//! network servers: the custom resource model, the manifests built from it,
//! the index from configuration objects to the resources that use them, the
//! reconciliation status bookkeeping and the decisions of the control loop.

pub mod string_map;
pub mod time;
pub mod k8s;
pub mod crd;
pub mod status;
pub mod decimal;
pub mod digest;
pub mod index;
pub mod ref_index;
pub mod metadata;
pub mod config_index;
pub mod builder;
pub mod simple;
pub mod reconcile;
pub mod version;
