use crate::crd::types::{Certificate, ConfigFiles, ConfigMapName};
use crate::simple::crd::types::Monitoring;
use vstd::prelude::*;

verus! {

/// Where the network server finds its configuration.
#[derive(Debug, Default)]
pub struct Configuration {
    /// The config map that holds the configuration files.
    pub config_files: ConfigFiles,
    /// Secrets whose keys become environment variables.
    pub env_secrets: Vec<String>,
    /// A config map of ADR plugins, if any.
    pub adr_plugin_files: Option<ConfigMapName>,
    /// Secrets mounted as certificates.
    pub certificates: Vec<Certificate>,
    /// Whether, and on which ports, metrics are exposed.
    pub monitoring: Option<Monitoring>,
}

} // verus!
