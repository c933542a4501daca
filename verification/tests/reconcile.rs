use chirpstack_operator::crd::spec::Spec;
use chirpstack_operator::crd::status::{Bookkeeping, State, Status};
use chirpstack_operator::crd::types::{Monitoring, WorkloadType};
use chirpstack_operator::crd::Chirpstack;
use chirpstack_operator::reconcile::{
    cleanup_action, error_policy, failure_is_ignored, plan_apply, reconcile_decision, routine_requeue,
    workload_label_query, Action, ApplyRun, Command, Decision, Step,
};
use chirpstack_operator::status::{StatusHandler, StatusHandlerStatus};
use chirpstack_operator::time::{TimeSpan, Timestamp};

fn at(secs: u64) -> Timestamp {
    Timestamp { secs_since_epoch: secs, nanos_since_epoch: 0 }
}

fn resource(recorded: Option<WorkloadType>) -> Chirpstack {
    let mut c = Chirpstack::new("net", Spec::default());
    c.metadata.namespace = Some("lora".to_string());
    if let Some(t) = recorded {
        c.status = Some(Status {
            state: State::Done,
            errors: vec![],
            bookkeeping: Bookkeeping {
                last_reconciliation_attempt: at(1),
                last_observed_generation: None,
                last_observed_workload_type: Some(t),
                last_observed_config_hash: None,
            },
        });
    }
    c
}

fn handler(c: Chirpstack) -> StatusHandler {
    StatusHandler::new(c, "h".to_string(), at(10))
}

#[test]
fn plan_for_a_plain_resource() {
    let steps = plan_apply(&handler(resource(None)));
    assert_eq!(
        steps,
        vec![
            Step::ApplyServerDeployment,
            Step::ApplyServerService,
            Step::ApplyServiceAccount,
            Step::DeleteRestApiDeployment,
            Step::DeleteRestApiService,
            Step::DeleteMonitoringService,
        ]
    );
}

#[test]
fn plan_after_a_workload_type_change() {
    let mut c = resource(Some(WorkloadType::Deployment));
    c.spec.server.workload.workload_type = WorkloadType::StatefulSet;
    c.spec.rest_api.enabled = true;
    c.spec.server.configuration.monitoring = Some(Monitoring::default());
    let steps = plan_apply(&handler(c));
    assert_eq!(
        steps,
        vec![
            Step::DeletePreviousWorkload(WorkloadType::Deployment),
            Step::ApplyServerStatefulSet,
            Step::ApplyServerService,
            Step::ApplyServiceAccount,
            Step::ApplyRestApiDeployment,
            Step::ApplyRestApiService,
            Step::ApplyMonitoringService,
        ]
    );
}

#[test]
fn same_workload_type_deletes_nothing() {
    let steps = plan_apply(&handler(resource(Some(WorkloadType::Deployment))));
    assert_eq!(steps[0], Step::ApplyServerDeployment);
}

#[test]
fn run_performs_every_step_then_requeues() {
    let mut run = ApplyRun::new(&handler(resource(None)));
    let mut performed = vec![];
    let mut cmd = run.command();
    while let Command::Perform(step) = cmd {
        performed.push(step);
        cmd = run.record(true);
    }
    assert_eq!(performed.len(), 6);
    assert_eq!(cmd, Command::Finish(Action::Requeue(TimeSpan { secs: 300, nanos: 0 })));
}

#[test]
fn run_aborts_on_failure_but_ignores_failed_cleanup() {
    let mut c = resource(Some(WorkloadType::StatefulSet));
    c.spec.server.workload.workload_type = WorkloadType::Deployment;
    let mut run = ApplyRun::new(&handler(c));
    assert_eq!(run.command(), Command::Perform(Step::DeletePreviousWorkload(WorkloadType::StatefulSet)));
    assert_eq!(run.record(false), Command::Perform(Step::ApplyServerDeployment));
    assert_eq!(run.record(true), Command::Perform(Step::ApplyServerService));
    assert_eq!(run.record(false), Command::Abort);
}

#[test]
fn failure_policy_of_steps() {
    assert!(failure_is_ignored(&Step::DeletePreviousWorkload(WorkloadType::Deployment)));
    assert!(!failure_is_ignored(&Step::ApplyServerService));
    assert!(!failure_is_ignored(&Step::DeleteRestApiService));
}

#[test]
fn decisions_and_actions() {
    let timeout = TimeSpan { secs: 30, nanos: 0 };
    assert_eq!(reconcile_decision(StatusHandlerStatus::NeedsReconciliation, timeout), Decision::Reconcile);
    assert_eq!(reconcile_decision(StatusHandlerStatus::HasError, timeout), Decision::Requeue(timeout));
    assert_eq!(
        reconcile_decision(StatusHandlerStatus::Clean, timeout),
        Decision::Requeue(TimeSpan { secs: 300, nanos: 0 })
    );
    assert_eq!(routine_requeue(), TimeSpan { secs: 300, nanos: 0 });
    assert_eq!(error_policy(&resource(None)), Action::Requeue(TimeSpan { secs: 5, nanos: 0 }));
    assert_eq!(cleanup_action(), Action::AwaitChange);
}

#[test]
fn label_query_of_previous_workloads() {
    assert_eq!(workload_label_query(&resource(None)), "app=chirpstack-net");
}
