//! The bookkeeping that decides whether a `Chirpstack` resource needs to be
//! reconciled, and the statuses that a reconciliation writes back.
//!
//! A resource is reconciled when it has no status yet; when its last
//! reconciliation finished (`Done`) but its generation or the hash of the
//! config maps and secrets it uses has changed since; and, when its last
//! reconciliation did not finish cleanly, once the error timeout has passed
//! since that attempt.

use crate::crd::status::{Bookkeeping, State, Status};
use crate::crd::types::WorkloadType;
use crate::crd::Chirpstack;
use crate::time::{TimeSpan, Timestamp};
use vstd::prelude::*;

verus! {

/// What the handler decides about a resource.
#[derive(Debug, Clone, Copy, PartialEq, Eq, Structural)]
pub enum StatusHandlerStatus {
    NeedsReconciliation,
    HasError,
    Clean,
}

/// The generation of the resource differs from the one its status records
/// (or it has no status).
pub open spec fn different_generation(c: Chirpstack) -> bool {
    !(c.status is Some && c.status->0.bookkeeping.last_observed_generation == c.metadata.generation)
}

/// The status records a workload type, and the specification asks for another.
pub open spec fn different_workload_type(c: Chirpstack) -> bool {
    &&& c.status is Some
    &&& c.status->0.bookkeeping.last_observed_workload_type is Some
    &&& c.spec.server.workload.workload_type != c.status->0.bookkeeping.last_observed_workload_type->0
}

/// The status records no hash of the dependencies, or one other than `hash`.
pub open spec fn different_config_hash(c: Chirpstack, hash: Seq<char>) -> bool {
    !(c.status is Some && c.status->0.bookkeeping.last_observed_config_hash is Some
        && c.status->0.bookkeeping.last_observed_config_hash->0@ == hash)
}

/// There is no status, or at least `timeout` has passed between the last
/// attempt and `now` (a clock that lies before the attempt never retries).
pub open spec fn time_to_retry(c: Chirpstack, timeout: TimeSpan, now: Timestamp) -> bool {
    c.status is None || {
        let last = c.status->0.bookkeeping.last_reconciliation_attempt;
        last.total_nanos() <= now.total_nanos() && now.total_nanos() - last.total_nanos()
            >= timeout.total_nanos()
    }
}

/// Whether the resource must be reconciled.
pub open spec fn needs_reconciliation(
    c: Chirpstack,
    hash: Seq<char>,
    timeout: TimeSpan,
    now: Timestamp,
) -> bool {
    c.status is None || match c.status->0.state {
        State::Done => different_generation(c) || different_config_hash(c, hash),
        _ => time_to_retry(c, timeout, now),
    }
}

/// The decision about the resource.
pub open spec fn decide(c: Chirpstack, hash: Seq<char>, timeout: TimeSpan, now: Timestamp) -> StatusHandlerStatus {
    if needs_reconciliation(c, hash, timeout, now) {
        StatusHandlerStatus::NeedsReconciliation
    } else if c.status->0.state == State::Done {
        StatusHandlerStatus::Clean
    } else {
        StatusHandlerStatus::HasError
    }
}

/// The workload type that the status of `c` records, if any.
pub open spec fn observed_workload_type(c: Chirpstack) -> Option<WorkloadType> {
    match c.status {
        Some(s) => s.bookkeeping.last_observed_workload_type,
        None => None,
    }
}

/// `s` records an attempt at `attempt` on the generation of `c` with the
/// dependency hash `hash`, in state `state`, with the workload type `wt`.
pub open spec fn records(
    s: Status,
    c: Chirpstack,
    hash: Seq<char>,
    attempt: Timestamp,
    state: State,
    wt: Option<WorkloadType>,
) -> bool {
    &&& s.state == state
    &&& s.bookkeeping.last_reconciliation_attempt == attempt
    &&& s.bookkeeping.last_observed_generation == c.metadata.generation
    &&& s.bookkeeping.last_observed_config_hash is Some
    &&& s.bookkeeping.last_observed_config_hash->0@ == hash
    &&& s.bookkeeping.last_observed_workload_type == wt
}

/// The status written when a reconciliation starts.
pub open spec fn is_start_status(s: Status, c: Chirpstack, hash: Seq<char>, attempt: Timestamp) -> bool {
    records(s, c, hash, attempt, State::Processing, observed_workload_type(c)) && s.errors@.len() == 0
}

/// The status written when a reconciliation finishes without errors.
pub open spec fn is_done_status(s: Status, c: Chirpstack, hash: Seq<char>, attempt: Timestamp) -> bool {
    records(s, c, hash, attempt, State::Done, Some(c.spec.server.workload.workload_type))
        && s.errors@.len() == 0
}

/// The status written when a reconciliation finishes with `errors`.
pub open spec fn is_error_status(
    s: Status,
    c: Chirpstack,
    hash: Seq<char>,
    attempt: Timestamp,
    errors: Seq<Seq<char>>,
) -> bool {
    &&& records(s, c, hash, attempt, State::Error, observed_workload_type(c))
    &&& s.errors@.len() == errors.len()
    &&& forall|i: int| 0 <= i < errors.len() ==> #[trigger] s.errors@[i]@ == errors[i]
}

/// The resource `c` after its status has been replaced by `s`.
pub open spec fn with_status(c: Chirpstack, s: Status) -> Chirpstack {
    Chirpstack { metadata: c.metadata, spec: c.spec, status: Some(s) }
}

/// Decides, for one resource and one reconciliation attempt, whether the
/// resource needs to be reconciled, and builds the statuses to write back.
pub struct StatusHandler {
    pub error_timeout: TimeSpan,
    chirpstack: Chirpstack,
    hash: String,
    this_reconciliation_attempt: Timestamp,
}

impl StatusHandler {
    /// The resource the handler decides about.
    pub closed spec fn resource(&self) -> Chirpstack {
        self.chirpstack
    }

    /// The hash of the config maps and secrets the resource uses.
    pub closed spec fn hash_view(&self) -> Seq<char> {
        self.hash@
    }

    /// How long to wait after a failed attempt.
    pub closed spec fn timeout(&self) -> TimeSpan {
        self.error_timeout
    }

    /// When this reconciliation attempt started.
    pub closed spec fn attempt(&self) -> Timestamp {
        self.this_reconciliation_attempt
    }

    /// A handler for `chirpstack`, whose dependencies hash to `hash`, for an
    /// attempt that starts at `now`; the error timeout is 30 seconds.
    pub fn new(chirpstack: Chirpstack, hash: String, now: Timestamp) -> (h: StatusHandler)
        ensures
            h.resource() == chirpstack,
            h.hash_view() == hash@,
            h.attempt() == now,
            h.timeout().secs == 30,
            h.timeout().nanos == 0,
    {
        StatusHandler {
            hash,
            chirpstack,
            error_timeout: TimeSpan::from_secs(30),
            this_reconciliation_attempt: now,
        }
    }

    /// How long to wait after a failed attempt.
    pub fn get_error_timeout(&self) -> (t: TimeSpan)
        ensures
            t == self.timeout(),
    {
        self.error_timeout
    }

    /// The hash of the dependencies.
    pub fn get_hash(&self) -> (h: String)
        ensures
            h@ == self.hash_view(),
    {
        self.hash.clone()
    }

    /// The workload type the status records.
    pub fn get_last_observed_workload_type(&self) -> (t: WorkloadType)
        requires
            observed_workload_type(self.resource()) is Some,
        ensures
            Some(t) == observed_workload_type(self.resource()),
    {
        match &self.chirpstack.status {
            Some(status) => match status.bookkeeping.last_observed_workload_type {
                Some(t) => t,
                None => WorkloadType::Deployment,
            },
            None => WorkloadType::Deployment,
        }
    }

    /// See [`different_generation`].
    pub fn is_different_generation(&self) -> (b: bool)
        ensures
            b == different_generation(self.resource()),
    {
        match &self.chirpstack.status {
            Some(status) => !(status.bookkeeping.last_observed_generation
                == self.chirpstack.metadata.generation),
            None => true,
        }
    }

    /// See [`different_workload_type`].
    pub fn is_different_workload_type(&self) -> (b: bool)
        ensures
            b == different_workload_type(self.resource()),
    {
        match &self.chirpstack.status {
            Some(status) => match status.bookkeeping.last_observed_workload_type {
                Some(t) => self.chirpstack.spec.server.workload.workload_type != t,
                None => false,
            },
            None => false,
        }
    }

    /// See [`different_config_hash`].
    pub fn is_different_config_hash(&self) -> (b: bool)
        ensures
            b == different_config_hash(self.resource(), self.hash_view()),
    {
        match &self.chirpstack.status {
            Some(status) => match &status.bookkeeping.last_observed_config_hash {
                Some(h) => !(*h == self.hash),
                None => true,
            },
            None => true,
        }
    }

    /// Whether the error timeout has passed since the last attempt, the
    /// clock reading `now`.
    pub fn is_time_to_retry(&self, now: &Timestamp) -> (b: bool)
        requires
            self.resource().status is Some,
        ensures
            b == time_to_retry(self.resource(), self.timeout(), *now),
    {
        match &self.chirpstack.status {
            Some(status) => match status.bookkeeping.last_reconciliation_attempt.elapsed_until(now) {
                Some(elapsed) => elapsed >= self.error_timeout.as_nanos(),
                None => false,
            },
            None => true,
        }
    }

    /// See [`needs_reconciliation`].
    pub fn needs_reconciliation(&self, now: &Timestamp) -> (b: bool)
        ensures
            b == needs_reconciliation(self.resource(), self.hash_view(), self.timeout(), *now),
    {
        match &self.chirpstack.status {
            None => true,
            Some(status) => match status.state {
                State::Done => self.is_different_generation() || self.is_different_config_hash(),
                _ => self.is_time_to_retry(now),
            },
        }
    }

    /// See [`decide`].
    pub fn status(&self, now: &Timestamp) -> (s: StatusHandlerStatus)
        ensures
            s == decide(self.resource(), self.hash_view(), self.timeout(), *now),
    {
        if self.needs_reconciliation(now) {
            StatusHandlerStatus::NeedsReconciliation
        } else {
            match &self.chirpstack.status {
                Some(status) => match status.state {
                    State::Done => StatusHandlerStatus::Clean,
                    _ => StatusHandlerStatus::HasError,
                },
                None => StatusHandlerStatus::NeedsReconciliation,
            }
        }
    }

    /// The workload type the status records, copied.
    fn observed_workload_type(&self) -> (t: Option<WorkloadType>)
        ensures
            t == observed_workload_type(self.resource()),
    {
        match &self.chirpstack.status {
            Some(status) => status.bookkeeping.last_observed_workload_type,
            None => None,
        }
    }

    /// The status that marks the start of this reconciliation: `Processing`,
    /// no errors, this attempt, the current generation and hash, and the
    /// workload type recorded so far.
    pub fn start_reconciliation(&self) -> (s: Status)
        ensures
            is_start_status(s, self.resource(), self.hash_view(), self.attempt()),
    {
        Status {
            state: State::Processing,
            errors: Vec::new(),
            bookkeeping: Bookkeeping {
                last_reconciliation_attempt: self.this_reconciliation_attempt,
                last_observed_generation: self.chirpstack.metadata.generation,
                last_observed_config_hash: Some(self.hash.clone()),
                last_observed_workload_type: self.observed_workload_type(),
            },
        }
    }

    /// The status that marks a reconciliation that finished without errors:
    /// `Done`, no errors, this attempt, the current generation and hash, and
    /// the workload type that was applied.
    pub fn done_without_errors(&self) -> (s: Status)
        ensures
            is_done_status(s, self.resource(), self.hash_view(), self.attempt()),
    {
        Status {
            state: State::Done,
            errors: Vec::new(),
            bookkeeping: Bookkeeping {
                last_reconciliation_attempt: self.this_reconciliation_attempt,
                last_observed_generation: self.chirpstack.metadata.generation,
                last_observed_config_hash: Some(self.hash.clone()),
                last_observed_workload_type: Some(self.chirpstack.spec.server.workload.workload_type),
            },
        }
    }

    /// The status that marks a reconciliation that failed with `errors`:
    /// `Error`, the errors, this attempt, the current generation and hash,
    /// and the workload type recorded so far.
    pub fn done_with_errors(&self, errors: Vec<String>) -> (s: Status)
        ensures
            is_error_status(
                s,
                self.resource(),
                self.hash_view(),
                self.attempt(),
                errors@.map_values(|e: String| e@),
            ),
    {
        Status {
            state: State::Error,
            errors,
            bookkeeping: Bookkeeping {
                last_reconciliation_attempt: self.this_reconciliation_attempt,
                last_observed_generation: self.chirpstack.metadata.generation,
                last_observed_config_hash: Some(self.hash.clone()),
                last_observed_workload_type: self.observed_workload_type(),
            },
        }
    }

    /// The resource the handler decides about, borrowed.
    pub fn get_resource(&self) -> (c: &Chirpstack)
        ensures
            *c == self.resource(),
    {
        &self.chirpstack
    }

    /// Gives the resource back.
    pub fn into_resource(self) -> (c: Chirpstack)
        ensures
            c == self.resource(),
    {
        self.chirpstack
    }
}

/// A resource that has no status yet is always reconciled.
pub proof fn law_new_resource_needs_reconciliation(
    c: Chirpstack,
    hash: Seq<char>,
    timeout: TimeSpan,
    now: Timestamp,
)
    requires
        c.status is None,
    ensures
        decide(c, hash, timeout, now) == StatusHandlerStatus::NeedsReconciliation,
{
}

/// Once a reconciliation has finished without errors and its status has been
/// written back, the same generation with the same dependency hash needs
/// nothing more, at any time, and its workload type counts as applied.
pub proof fn law_done_is_clean(
    c: Chirpstack,
    s: Status,
    hash: Seq<char>,
    attempt: Timestamp,
    timeout: TimeSpan,
    now: Timestamp,
)
    requires
        is_done_status(s, c, hash, attempt),
    ensures
        decide(with_status(c, s), hash, timeout, now) == StatusHandlerStatus::Clean,
        !different_workload_type(with_status(c, s)),
{
}

/// After a clean finish, a new generation of the resource or a new hash of
/// its dependencies makes it need reconciliation again, at any time.
pub proof fn law_change_after_done_needs_reconciliation(
    c: Chirpstack,
    s: Status,
    hash: Seq<char>,
    attempt: Timestamp,
    later: Chirpstack,
    later_hash: Seq<char>,
    timeout: TimeSpan,
    now: Timestamp,
)
    requires
        is_done_status(s, c, hash, attempt),
        later.status == Some(s),
        later.metadata.generation != c.metadata.generation || later_hash != hash,
    ensures
        decide(later, later_hash, timeout, now) == StatusHandlerStatus::NeedsReconciliation,
{
}

/// After a reconciliation failed with errors, the resource is left alone
/// (`HasError`) until the error timeout has passed since that attempt, and is
/// reconciled again from then on, whatever else changed.
pub proof fn law_error_waits_for_timeout(
    c: Chirpstack,
    s: Status,
    hash: Seq<char>,
    attempt: Timestamp,
    errors: Seq<Seq<char>>,
    later: Chirpstack,
    later_hash: Seq<char>,
    timeout: TimeSpan,
    now: Timestamp,
)
    requires
        is_error_status(s, c, hash, attempt, errors),
        later.status == Some(s),
    ensures
        decide(later, later_hash, timeout, now) == if attempt.total_nanos() <= now.total_nanos()
            && now.total_nanos() - attempt.total_nanos() >= timeout.total_nanos() {
            StatusHandlerStatus::NeedsReconciliation
        } else {
            StatusHandlerStatus::HasError
        },
{
}

/// A reconciliation that started but never finished (its status still
/// `Processing`) is treated as failed: it is retried once the error timeout
/// has passed since it started, and counts as an error until then.
pub proof fn law_unfinished_waits_for_timeout(
    c: Chirpstack,
    s: Status,
    hash: Seq<char>,
    attempt: Timestamp,
    later: Chirpstack,
    later_hash: Seq<char>,
    timeout: TimeSpan,
    now: Timestamp,
)
    requires
        is_start_status(s, c, hash, attempt),
        later.status == Some(s),
    ensures
        decide(later, later_hash, timeout, now) == if attempt.total_nanos() <= now.total_nanos()
            && now.total_nanos() - attempt.total_nanos() >= timeout.total_nanos() {
            StatusHandlerStatus::NeedsReconciliation
        } else {
            StatusHandlerStatus::HasError
        },
{
}

/// The workload type recorded by a clean finish is what later specifications
/// are compared with: when the specification then asks for the other type,
/// the handler reports the change and names the type that was applied.
pub proof fn law_workload_type_change_is_seen(
    c: Chirpstack,
    s: Status,
    hash: Seq<char>,
    attempt: Timestamp,
    later: Chirpstack,
)
    requires
        is_done_status(s, c, hash, attempt),
        later.status == Some(s),
        later.spec.server.workload.workload_type != c.spec.server.workload.workload_type,
    ensures
        different_workload_type(later),
        observed_workload_type(later) == Some(c.spec.server.workload.workload_type),
{
}

/// Starting or failing a reconciliation keeps the recorded workload type: a
/// change of workload type that has not been applied cleanly is still seen
/// on the next attempt.
pub proof fn law_pending_workload_type_change_is_kept(
    c: Chirpstack,
    s: Status,
    hash: Seq<char>,
    attempt: Timestamp,
    errors: Seq<Seq<char>>,
)
    requires
        different_workload_type(c),
        is_start_status(s, c, hash, attempt) || is_error_status(s, c, hash, attempt, errors),
    ensures
        different_workload_type(with_status(c, s)),
        observed_workload_type(with_status(c, s)) == observed_workload_type(c),
{
}

} // verus!
