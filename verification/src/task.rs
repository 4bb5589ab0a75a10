//! The description of one stopping job, as it is queued.

use vstd::prelude::*;
use crate::span::Span;

verus! {

/// How long a teardown may take when nothing else is asked for: ten minutes,
/// in seconds.
pub const DEFAULT_WORKFLOW_TIMEOUT_SECS: u64 = 600;

/// How long the job rests between two status queries when nothing else is
/// asked for: five seconds.
pub const DEFAULT_WORKFLOW_CHECK_INTERVAL_SECS: u64 = 5;

/// `fang::Scheduled`, the schedule on which the job queue repeats a task. The
/// type is known by name only: nothing is claimed of its values.
#[verifier::external_type_specification]
#[verifier::external_body]
pub struct ExScheduled(fang::Scheduled);

/// The order to stop one deployment.
#[derive(Clone, Copy, Debug, PartialEq, Eq, Structural)]
pub struct StoppingTask {
    /// The deployment to stop.
    pub deployment_id: i32,
    /// The time allowed for the teardown to end.
    pub workflow_timeout: Span,
    /// The rest between two queries for the teardown's status.
    pub workflow_check_interval: Span,
}

impl StoppingTask {
    /// The order to stop deployment `deployment_id` with the default timing:
    /// ten minutes for the teardown, five seconds between two queries.
    pub fn from_deployment_id(deployment_id: i32) -> (task: Self)
        ensures
            task.deployment_id == deployment_id,
            task.workflow_timeout == (Span { nanos: 600_000_000_000 }),
            task.workflow_check_interval == (Span { nanos: 5_000_000_000 }),
    {
        StoppingTask {
            deployment_id,
            workflow_timeout: Span::from_secs(DEFAULT_WORKFLOW_TIMEOUT_SECS),
            workflow_check_interval: Span::from_secs(DEFAULT_WORKFLOW_CHECK_INTERVAL_SECS),
        }
    }

    /// The schedule on which the queue should repeat the job: none. A
    /// stopping job runs once for each time it is queued.
    pub fn cron(&self) -> (schedule: Option<fang::Scheduled>)
        ensures
            schedule is None,
    {
        None
    }
}

} // verus!
