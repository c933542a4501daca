use chirpstack_operator::crd::spec::Spec;
use chirpstack_operator::crd::status::{default_last_reconciliation_attempt, Bookkeeping, State, Status};
use chirpstack_operator::crd::types::WorkloadType;
use chirpstack_operator::crd::Chirpstack;
use chirpstack_operator::status::{StatusHandler, StatusHandlerStatus};
use chirpstack_operator::time::{TimeSpan, Timestamp};

fn at(secs: u64) -> Timestamp {
    Timestamp { secs_since_epoch: secs, nanos_since_epoch: 0 }
}

fn resource(generation: i64) -> Chirpstack {
    let mut c = Chirpstack::new("net", Spec::default());
    c.metadata.namespace = Some("lora".to_string());
    c.metadata.generation = Some(generation);
    c
}

fn with_status(mut c: Chirpstack, state: State, generation: i64, hash: &str, attempt: u64) -> Chirpstack {
    c.status = Some(Status {
        state,
        errors: vec![],
        bookkeeping: Bookkeeping {
            last_reconciliation_attempt: at(attempt),
            last_observed_generation: Some(generation),
            last_observed_workload_type: Some(WorkloadType::Deployment),
            last_observed_config_hash: Some(hash.to_string()),
        },
    });
    c
}

#[test]
fn new_resource_needs_reconciliation() {
    let h = StatusHandler::new(resource(1), "h".to_string(), at(1000));
    assert!(h.needs_reconciliation(&at(1000)));
    assert_eq!(h.status(&at(1000)), StatusHandlerStatus::NeedsReconciliation);
    assert!(h.is_different_generation());
    assert!(h.is_different_config_hash());
    assert!(!h.is_different_workload_type());
    assert!(h.is_time_to_retry(&at(1000)));
}

#[test]
fn done_and_unchanged_is_clean() {
    let c = with_status(resource(3), State::Done, 3, "h", 100);
    let h = StatusHandler::new(c, "h".to_string(), at(1000));
    assert!(!h.is_different_generation());
    assert!(!h.is_different_config_hash());
    assert_eq!(h.status(&at(1000)), StatusHandlerStatus::Clean);
}

#[test]
fn done_with_new_generation_needs_reconciliation() {
    let c = with_status(resource(4), State::Done, 3, "h", 100);
    let h = StatusHandler::new(c, "h".to_string(), at(1000));
    assert!(h.is_different_generation());
    assert_eq!(h.status(&at(1000)), StatusHandlerStatus::NeedsReconciliation);
}

#[test]
fn done_with_new_hash_needs_reconciliation() {
    let c = with_status(resource(3), State::Done, 3, "old", 100);
    let h = StatusHandler::new(c, "new".to_string(), at(1000));
    assert!(h.is_different_config_hash());
    assert_eq!(h.status(&at(1000)), StatusHandlerStatus::NeedsReconciliation);
}

#[test]
fn error_waits_thirty_seconds() {
    let c = with_status(resource(3), State::Error, 3, "h", 100);
    let h = StatusHandler::new(c, "h".to_string(), at(100));
    assert_eq!(h.error_timeout, TimeSpan { secs: 30, nanos: 0 });
    assert_eq!(h.get_error_timeout(), TimeSpan { secs: 30, nanos: 0 });
    assert_eq!(h.status(&at(129)), StatusHandlerStatus::HasError);
    assert!(!h.is_time_to_retry(&at(129)));
    assert_eq!(h.status(&at(130)), StatusHandlerStatus::NeedsReconciliation);
    assert!(h.is_time_to_retry(&at(130)));
    assert_eq!(h.status(&at(50)), StatusHandlerStatus::HasError);
}

#[test]
fn processing_waits_like_an_error() {
    let c = with_status(resource(3), State::Processing, 3, "h", 100);
    let h = StatusHandler::new(c, "h".to_string(), at(100));
    assert_eq!(h.status(&at(110)), StatusHandlerStatus::HasError);
    assert_eq!(h.status(&at(200)), StatusHandlerStatus::NeedsReconciliation);
}

#[test]
fn workload_type_change_is_seen() {
    let mut c = with_status(resource(3), State::Done, 3, "h", 100);
    c.spec.server.workload.workload_type = WorkloadType::StatefulSet;
    let h = StatusHandler::new(c, "h".to_string(), at(100));
    assert!(h.is_different_workload_type());
    assert_eq!(h.get_last_observed_workload_type(), WorkloadType::Deployment);
}

#[test]
fn statuses_record_the_attempt() {
    let mut c = with_status(resource(7), State::Done, 6, "old", 100);
    c.spec.server.workload.workload_type = WorkloadType::StatefulSet;
    let h = StatusHandler::new(c, "new".to_string(), at(500));
    assert_eq!(h.get_hash(), "new");

    let start = h.start_reconciliation();
    assert_eq!(start.state, State::Processing);
    assert!(start.errors.is_empty());
    assert_eq!(start.bookkeeping.last_reconciliation_attempt, at(500));
    assert_eq!(start.bookkeeping.last_observed_generation, Some(7));
    assert_eq!(start.bookkeeping.last_observed_config_hash, Some("new".to_string()));
    assert_eq!(start.bookkeeping.last_observed_workload_type, Some(WorkloadType::Deployment));

    let done = h.done_without_errors();
    assert_eq!(done.state, State::Done);
    assert_eq!(done.bookkeeping.last_observed_workload_type, Some(WorkloadType::StatefulSet));
    assert_eq!(done.bookkeeping.last_observed_generation, Some(7));

    let failed = h.done_with_errors(vec!["boom".to_string()]);
    assert_eq!(failed.state, State::Error);
    assert_eq!(failed.errors, vec!["boom".to_string()]);
    assert_eq!(failed.bookkeeping.last_observed_workload_type, Some(WorkloadType::Deployment));
    assert_eq!(failed.bookkeeping.last_reconciliation_attempt, at(500));
}

#[test]
fn done_status_then_same_inputs_is_clean() {
    let h = StatusHandler::new(resource(2), "h".to_string(), at(500));
    let done = h.done_without_errors();
    let mut c = h.into_resource();
    c.status = Some(done);
    let again = StatusHandler::new(c, "h".to_string(), at(501));
    assert_eq!(again.status(&at(501)), StatusHandlerStatus::Clean);
}

#[test]
fn defaults_of_bookkeeping() {
    let t = default_last_reconciliation_attempt();
    assert_eq!(t, Timestamp { secs_since_epoch: 0, nanos_since_epoch: 0 });
    let b = Bookkeeping::default();
    assert_eq!(b.last_reconciliation_attempt, t);
    assert_eq!(b.last_observed_generation, None);
    assert_eq!(b.last_observed_workload_type, None);
    assert_eq!(b.last_observed_config_hash, None);
    let s = Status::default();
    assert_eq!(s.state, State::Processing);
}

#[test]
fn time_arithmetic() {
    assert_eq!(TimeSpan::from_secs(30).as_nanos(), 30_000_000_000u128);
    assert_eq!(at(5).elapsed_until(&at(7)), Some(2_000_000_000u128));
    assert_eq!(at(7).elapsed_until(&at(5)), None);
    assert_eq!(Timestamp::unix_epoch(), at(0));
}
