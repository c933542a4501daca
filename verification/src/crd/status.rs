//! The status that the operator writes into a `Chirpstack` resource.

use super::types::WorkloadType;
use crate::time::Timestamp;
use vstd::prelude::*;

verus! {

/// The outcome of the last reconciliation and what it was based on.
#[derive(Debug, Default)]
pub struct Status {
    pub state: State,
    pub errors: Vec<String>,
    pub bookkeeping: Bookkeeping,
}

/// What the last reconciliation saw of the resource and its dependencies.
#[derive(Debug)]
pub struct Bookkeeping {
    pub last_reconciliation_attempt: Timestamp,
    pub last_observed_generation: Option<i64>,
    pub last_observed_workload_type: Option<WorkloadType>,
    pub last_observed_config_hash: Option<String>,
}

impl Default for Bookkeeping {
    /// Nothing observed; the last attempt at the UNIX epoch.
    fn default() -> (b: Bookkeeping)
        ensures
            b.last_reconciliation_attempt.total_nanos() == 0,
            b.last_observed_generation is None,
            b.last_observed_workload_type is None,
            b.last_observed_config_hash is None,
    {
        Bookkeeping {
            last_reconciliation_attempt: Timestamp::unix_epoch(),
            last_observed_generation: None,
            last_observed_workload_type: None,
            last_observed_config_hash: None,
        }
    }
}

/// The time of the last attempt when a status names none: the UNIX epoch.
pub fn default_last_reconciliation_attempt() -> (t: Timestamp)
    ensures
        t.secs_since_epoch == 0,
        t.nanos_since_epoch == 0,
{
    Timestamp::unix_epoch()
}

/// The state of the last reconciliation.
#[derive(Debug, Default, Clone, Copy, PartialEq, Eq, Structural)]
pub enum State {
    #[default]
    Processing,
    Error,
    Done,
}

/// A state with a message.
#[derive(Debug, Default)]
pub struct Field {
    pub status: State,
    pub message: String,
}

} // verus!
