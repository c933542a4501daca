//! The decisions of the control loop: whether a resource is reconciled or
//! requeued, which changes a reconciliation makes to the cluster and in
//! which order, how the outcome of each change steers the rest, and what is
//! asked of the controller afterwards. Performing the changes is left to the
//! caller, which hands back whether each one succeeded.

use crate::builder::meta_data::{prefixed_name, server_prefix, MetaData};
use crate::crd::types::WorkloadType;
use crate::crd::Chirpstack;
use crate::status::{different_workload_type, observed_workload_type, StatusHandler, StatusHandlerStatus};
use crate::time::TimeSpan;
use vstd::prelude::*;

verus! {

/// What the controller is asked to do with a resource once a reconciliation
/// has ended.
#[derive(Debug, Clone, Copy, PartialEq, Eq, Structural)]
pub enum Action {
    /// Reconcile the resource again after the given time.
    Requeue(TimeSpan),
    /// Reconcile the resource again only when it or what it uses changes.
    AwaitChange,
}

/// The interval at which a resource is looked at again when nothing is
/// wrong: five minutes.
pub open spec fn routine_interval() -> TimeSpan {
    TimeSpan { secs: 300, nanos: 0 }
}

/// The delay before a failed reconciliation is retried: five seconds.
pub open spec fn error_retry_interval() -> TimeSpan {
    TimeSpan { secs: 5, nanos: 0 }
}

/// Five minutes, the interval at which a resource is looked at again.
pub fn routine_requeue() -> (d: TimeSpan)
    ensures
        d == routine_interval(),
{
    TimeSpan::from_secs(300)
}

/// The action after a failed reconciliation, whatever the resource and the
/// error: requeue after five seconds.
pub fn error_policy(_chirpstack: &Chirpstack) -> (a: Action)
    ensures
        a == Action::Requeue(error_retry_interval()),
{
    Action::Requeue(TimeSpan::from_secs(5))
}

/// The action after a resource has been cleaned up: wait for a change.
pub fn cleanup_action() -> (a: Action)
    ensures
        a == Action::AwaitChange,
{
    Action::AwaitChange
}

/// What to do with a resource, given what its status handler decided.
#[derive(Debug, Clone, Copy, PartialEq, Eq, Structural)]
pub enum Decision {
    /// Mark the reconciliation as started and reconcile.
    Reconcile,
    /// Leave the resource as it is and look at it again after the given time.
    Requeue(TimeSpan),
}

/// What to do with a resource, given what its status handler decided: reconcile when reconciliation is
/// needed, wait out the error timeout when the last attempt failed too
/// recently, and look again in five minutes when all is well.
pub open spec fn decision_for(status: StatusHandlerStatus, error_timeout: TimeSpan) -> Decision {
    match status {
        StatusHandlerStatus::NeedsReconciliation => Decision::Reconcile,
        StatusHandlerStatus::HasError => Decision::Requeue(error_timeout),
        StatusHandlerStatus::Clean => Decision::Requeue(routine_interval()),
    }
}

/// See [`decision_for`].
pub fn reconcile_decision(status: StatusHandlerStatus, error_timeout: TimeSpan) -> (d: Decision)
    ensures
        d == decision_for(status, error_timeout),
{
    match status {
        StatusHandlerStatus::NeedsReconciliation => Decision::Reconcile,
        StatusHandlerStatus::HasError => Decision::Requeue(error_timeout),
        StatusHandlerStatus::Clean => Decision::Requeue(routine_requeue()),
    }
}

/// One change that a reconciliation makes to the cluster.
#[derive(Debug, Clone, Copy, PartialEq, Eq, Structural)]
pub enum Step {
    /// Delete the network server workloads of the given type that carry the
    /// resource's `app` label (left over from a change of workload type).
    DeletePreviousWorkload(WorkloadType),
    /// Apply the network server deployment.
    ApplyServerDeployment,
    /// Apply the network server stateful set.
    ApplyServerStatefulSet,
    /// Apply the network server service.
    ApplyServerService,
    /// Apply the network server service account.
    ApplyServiceAccount,
    /// Apply the REST API deployment.
    ApplyRestApiDeployment,
    /// Apply the REST API service.
    ApplyRestApiService,
    /// Delete the REST API deployment.
    DeleteRestApiDeployment,
    /// Delete the REST API service.
    DeleteRestApiService,
    /// Apply the metrics service.
    ApplyMonitoringService,
    /// Delete the metrics service.
    DeleteMonitoringService,
}

/// The step that applies the network server workload of type `t`.
pub open spec fn workload_step(t: WorkloadType) -> Step {
    match t {
        WorkloadType::Deployment => Step::ApplyServerDeployment,
        WorkloadType::StatefulSet => Step::ApplyServerStatefulSet,
    }
}

/// The changes a reconciliation of `c` makes, in order: first, if the status
/// records another workload type than the one asked for, the deletion of the
/// workloads of the recorded type; then the workload asked for, the service
/// and the service account of the network server; then the REST API
/// deployment and service, applied if the REST API is enabled and deleted
/// otherwise; last the metrics service, applied if monitoring is configured
/// and deleted otherwise.
pub open spec fn apply_steps(c: Chirpstack) -> Seq<Step> {
    let cleanup = if different_workload_type(c) {
        seq![Step::DeletePreviousWorkload(observed_workload_type(c)->0)]
    } else {
        Seq::empty()
    };
    let rest_api = if c.spec.rest_api.enabled {
        seq![Step::ApplyRestApiDeployment, Step::ApplyRestApiService]
    } else {
        seq![Step::DeleteRestApiDeployment, Step::DeleteRestApiService]
    };
    let monitoring = if c.spec.server.configuration.monitoring is Some {
        seq![Step::ApplyMonitoringService]
    } else {
        seq![Step::DeleteMonitoringService]
    };
    cleanup + seq![
        workload_step(c.spec.server.workload.workload_type),
        Step::ApplyServerService,
        Step::ApplyServiceAccount,
    ] + rest_api + monitoring
}

/// A failure of this step does not stop the reconciliation: only the
/// deletion of a previous workload is allowed to fail.
pub open spec fn may_fail(step: Step) -> bool {
    step is DeletePreviousWorkload
}

/// See [`may_fail`].
pub fn failure_is_ignored(step: &Step) -> (b: bool)
    ensures
        b == may_fail(*step),
{
    match step {
        Step::DeletePreviousWorkload(_) => true,
        _ => false,
    }
}

/// The changes a reconciliation makes, in order (see [`apply_steps`]).
pub fn plan_apply(status: &StatusHandler) -> (steps: Vec<Step>)
    ensures
        steps@ == apply_steps(status.resource()),
{
    let chirpstack = status.get_resource();
    let mut steps: Vec<Step> = Vec::new();
    if status.is_different_workload_type() {
        steps.push(Step::DeletePreviousWorkload(status.get_last_observed_workload_type()));
    }
    match chirpstack.spec.server.workload.workload_type {
        WorkloadType::Deployment => steps.push(Step::ApplyServerDeployment),
        WorkloadType::StatefulSet => steps.push(Step::ApplyServerStatefulSet),
    }
    steps.push(Step::ApplyServerService);
    steps.push(Step::ApplyServiceAccount);
    if chirpstack.spec.rest_api.enabled {
        steps.push(Step::ApplyRestApiDeployment);
        steps.push(Step::ApplyRestApiService);
    } else {
        steps.push(Step::DeleteRestApiDeployment);
        steps.push(Step::DeleteRestApiService);
    }
    if chirpstack.spec.server.configuration.monitoring.is_some() {
        steps.push(Step::ApplyMonitoringService);
    } else {
        steps.push(Step::DeleteMonitoringService);
    }
    assert(steps@ =~= apply_steps(status.resource()));
    steps
}

/// The label query that finds the network server workloads of a resource:
/// `app=chirpstack-<name>`.
pub fn workload_label_query(chirpstack: &Chirpstack) -> (q: String)
    ensures
        q@ == "app="@ + prefixed_name(server_prefix(), *chirpstack),
{
    let meta_data = MetaData::from(chirpstack);
    let mut q = String::from_str("app=");
    q.append(meta_data.app_name.as_str());
    proof {
        reveal_strlit("app=");
    }
    q
}

/// What the caller of a reconciliation run does next.
#[derive(Debug, Clone, Copy, PartialEq, Eq, Structural)]
pub enum Command {
    /// Make this change, then report whether it succeeded.
    Perform(Step),
    /// All changes are made; end the reconciliation with this action.
    Finish(Action),
    /// A change failed; end the reconciliation with its error.
    Abort,
}

/// The command at position `next` of the run over `steps`.
pub open spec fn command_at(steps: Seq<Step>, next: int) -> Command {
    if next < steps.len() {
        Command::Perform(steps[next])
    } else {
        Command::Finish(Action::Requeue(routine_interval()))
    }
}

/// A reconciliation in progress: the changes to make, and how many of them
/// are behind.
pub struct ApplyRun {
    steps: Vec<Step>,
    next: usize,
}

impl ApplyRun {
    /// The changes of the run.
    pub closed spec fn steps(&self) -> Seq<Step> {
        self.steps@
    }

    /// How many changes are behind.
    pub closed spec fn position(&self) -> int {
        self.next as int
    }

    /// At most all changes are behind.
    pub closed spec fn well_formed(&self) -> bool {
        self.next <= self.steps@.len()
    }

    /// A run over the changes that `status` calls for, none of them made yet.
    pub fn new(status: &StatusHandler) -> (run: ApplyRun)
        ensures
            run.well_formed(),
            run.steps() == apply_steps(status.resource()),
            run.position() == 0,
    {
        ApplyRun { steps: plan_apply(status), next: 0 }
    }

    /// What to do now: the next change, or, when all are made, finish and
    /// look at the resource again in five minutes.
    pub fn command(&self) -> (c: Command)
        requires
            self.well_formed(),
        ensures
            c == command_at(self.steps(), self.position()),
    {
        if self.next < self.steps.len() {
            Command::Perform(self.steps[self.next])
        } else {
            Command::Finish(Action::Requeue(routine_requeue()))
        }
    }

    /// Takes the outcome of the change just performed. On success, or on a
    /// failure that is ignored, the run moves past it and says what to do
    /// next; on any other failure it stops and asks to abort.
    pub fn record(&mut self, succeeded: bool) -> (c: Command)
        requires
            old(self).well_formed(),
            old(self).position() < old(self).steps().len(),
        ensures
            final(self).well_formed(),
            final(self).steps() == old(self).steps(),
            succeeded || may_fail(old(self).steps()[old(self).position()]) ==> {
                &&& final(self).position() == old(self).position() + 1
                &&& c == command_at(final(self).steps(), final(self).position())
            },
            !(succeeded || may_fail(old(self).steps()[old(self).position()])) ==> {
                &&& final(self).position() == old(self).position()
                &&& c == Command::Abort
            },
    {
        let n = self.steps.len();
        if succeeded || failure_is_ignored(&self.steps[self.next]) {
            assert(self.next < n);
            self.next = self.next + 1;
            self.command()
        } else {
            Command::Abort
        }
    }
}

/// A reconciliation never deletes the workload type that the resource asks
/// for: the only workloads it deletes are those of another type.
pub proof fn law_plan_keeps_requested_workload(c: Chirpstack, i: int)
    requires
        0 <= i < apply_steps(c).len(),
        apply_steps(c)[i] is DeletePreviousWorkload,
    ensures
        apply_steps(c)[i]->0 != c.spec.server.workload.workload_type,
{
}

/// A reconciliation applies exactly the workload type the resource asks
/// for, and only after any deletion of the previous one.
pub proof fn law_plan_applies_requested_workload(c: Chirpstack)
    ensures
        apply_steps(c).contains(workload_step(c.spec.server.workload.workload_type)),
        !apply_steps(c).contains(workload_step(
            match c.spec.server.workload.workload_type {
                WorkloadType::Deployment => WorkloadType::StatefulSet,
                WorkloadType::StatefulSet => WorkloadType::Deployment,
            },
        )),
        forall|i: int, j: int|
            0 <= i < apply_steps(c).len() && 0 <= j < apply_steps(c).len() && apply_steps(c)[i]
                is DeletePreviousWorkload && apply_steps(c)[j] == workload_step(
                c.spec.server.workload.workload_type,
            ) ==> i < j,
{
    let s = apply_steps(c);
    let off: int = if different_workload_type(c) { 1 } else { 0 };
    assert(s[off] == workload_step(c.spec.server.workload.workload_type));
}

/// The REST API deployment and its service are each applied exactly when the
/// REST API is enabled and deleted exactly when it is not, whatever the
/// monitoring setting; likewise the metrics service with monitoring.
pub proof fn law_plan_follows_switches(c: Chirpstack)
    ensures
        apply_steps(c).contains(Step::ApplyRestApiDeployment) <==> c.spec.rest_api.enabled,
        apply_steps(c).contains(Step::DeleteRestApiDeployment) <==> !c.spec.rest_api.enabled,
        apply_steps(c).contains(Step::ApplyRestApiService) <==> c.spec.rest_api.enabled,
        apply_steps(c).contains(Step::DeleteRestApiService) <==> !c.spec.rest_api.enabled,
        apply_steps(c).contains(Step::ApplyMonitoringService) <==> c.spec.server.configuration.monitoring
            is Some,
        apply_steps(c).contains(Step::DeleteMonitoringService) <==> c.spec.server.configuration.monitoring
            is None,
{
    let s = apply_steps(c);
    let off: int = if different_workload_type(c) { 1 } else { 0 };
    assert(s.len() == off + 6);
    if c.spec.rest_api.enabled {
        assert(s[off + 3] == Step::ApplyRestApiDeployment);
        assert(s[off + 4] == Step::ApplyRestApiService);
    } else {
        assert(s[off + 3] == Step::DeleteRestApiDeployment);
        assert(s[off + 4] == Step::DeleteRestApiService);
    }
    if c.spec.server.configuration.monitoring is Some {
        assert(s[off + 5] == Step::ApplyMonitoringService);
    } else {
        assert(s[off + 5] == Step::DeleteMonitoringService);
    }
}

} // verus!
