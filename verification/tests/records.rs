use scoutcloud::deployment::{Deployment, DeploymentStatus};
use scoutcloud::error::{DeployError, StorageError};
use scoutcloud::job::Outcome;
use scoutcloud::span::{Span, NANOS_PER_SEC};
use scoutcloud::task::{
    StoppingTask, DEFAULT_WORKFLOW_CHECK_INTERVAL_SECS, DEFAULT_WORKFLOW_TIMEOUT_SECS,
};

fn running(id: i32, error: Option<&str>) -> Deployment {
    Deployment { id, status: DeploymentStatus::Running, error: error.map(String::from) }
}

#[test]
fn span_from_secs_counts_nanoseconds() {
    assert_eq!(NANOS_PER_SEC, 1_000_000_000);
    assert_eq!(Span::from_secs(0).nanos, 0);
    assert_eq!(Span::from_secs(1).nanos, 1_000_000_000);
    assert_eq!(Span::from_secs(10).nanos, 10_000_000_000);
    assert_eq!(Span::from_secs(600), Span { nanos: 600_000_000_000 });
}

#[test]
fn span_from_secs_takes_the_largest_count() {
    assert_eq!(Span::from_secs(u64::MAX).nanos, 18_446_744_073_709_551_615_000_000_000);
}

#[test]
fn span_from_nanos_keeps_the_count() {
    assert_eq!(Span::from_nanos(0).nanos, 0);
    assert_eq!(Span::from_nanos(1_500_000_000).nanos, 1_500_000_000);
    assert_eq!(Span::from_nanos(u128::MAX).nanos, u128::MAX);
}

#[test]
fn span_exceeds_is_strict() {
    let ten = Span::from_secs(10);
    assert!(!ten.exceeds(ten));
    assert!(!Span::from_secs(9).exceeds(ten));
    assert!(Span::from_nanos(10_000_000_001).exceeds(ten));
    assert!(!Span::from_nanos(0).exceeds(Span::from_nanos(0)));
    assert!(Span::from_nanos(1).exceeds(Span::from_nanos(0)));
}

#[test]
fn task_from_deployment_id_uses_the_defaults() {
    let task = StoppingTask::from_deployment_id(42);
    assert_eq!(task.deployment_id, 42);
    assert_eq!(task.workflow_timeout, Span::from_secs(10 * 60));
    assert_eq!(task.workflow_timeout.nanos, 600_000_000_000);
    assert_eq!(task.workflow_check_interval, Span::from_secs(5));
    assert_eq!(task.workflow_check_interval.nanos, 5_000_000_000);
    assert_eq!(DEFAULT_WORKFLOW_TIMEOUT_SECS, 600);
    assert_eq!(DEFAULT_WORKFLOW_CHECK_INTERVAL_SECS, 5);
}

#[test]
fn task_from_deployment_id_keeps_any_id() {
    assert_eq!(StoppingTask::from_deployment_id(i32::MIN).deployment_id, i32::MIN);
    assert_eq!(StoppingTask::from_deployment_id(0).deployment_id, 0);
    assert_eq!(StoppingTask::from_deployment_id(i32::MAX).deployment_id, i32::MAX);
}

#[test]
fn task_has_no_schedule() {
    assert!(StoppingTask::from_deployment_id(1).cron().is_none());
    let task = StoppingTask {
        deployment_id: 7,
        workflow_timeout: Span::from_secs(1),
        workflow_check_interval: Span::from_secs(1),
    };
    assert!(task.cron().is_none());
}

#[test]
fn update_status_keeps_the_error_field() {
    let mut clean = running(3, None);
    clean.update_status(DeploymentStatus::Stopping);
    assert_eq!(clean, Deployment { id: 3, status: DeploymentStatus::Stopping, error: None });

    let mut stale = running(3, Some("left over"));
    stale.update_status(DeploymentStatus::Stopping);
    assert_eq!(
        stale,
        Deployment {
            id: 3,
            status: DeploymentStatus::Stopping,
            error: Some("left over".to_string()),
        }
    );
}

#[test]
fn mark_as_finished_clears_the_error() {
    let mut deployment = Deployment {
        id: 5,
        status: DeploymentStatus::Stopping,
        error: Some("earlier trouble".to_string()),
    };
    deployment.mark_as_finished();
    assert_eq!(deployment, Deployment { id: 5, status: DeploymentStatus::Stopped, error: None });
}

#[test]
fn mark_as_error_sets_status_and_cause() {
    let mut deployment = Deployment { id: 5, status: DeploymentStatus::Stopping, error: None };
    deployment.mark_as_error("it broke".to_string());
    assert_eq!(
        deployment,
        Deployment { id: 5, status: DeploymentStatus::Failed, error: Some("it broke".to_string()) }
    );
    deployment.mark_as_error(String::new());
    assert_eq!(deployment.error, Some(String::new()));
}

#[test]
fn storage_errors_become_deploy_errors_of_the_same_kind() {
    assert_eq!(DeployError::from_storage(StorageError::NotFound), DeployError::NotFound);
    assert_eq!(
        DeployError::from_storage(StorageError::Db("connection reset".to_string())),
        DeployError::Db("connection reset".to_string())
    );
}

#[test]
fn each_error_is_described_in_words() {
    assert_eq!(DeployError::Db("locked".to_string()).describe(), "db error: locked");
    assert_eq!(DeployError::NotFound.describe(), "deployment not found");
    assert_eq!(
        DeployError::ExternalCallFailed("401".to_string()).describe(),
        "external call failed: 401"
    );
    assert_eq!(
        DeployError::ExternalRunFailed("step 3".to_string()).describe(),
        "external run failed: step 3"
    );
    assert_eq!(DeployError::Timeout.describe(), "timed out waiting for the external run");
    assert_eq!(DeployError::Db(String::new()).describe(), "db error: ");
}

#[test]
fn failure_text_names_what_was_tried() {
    assert_eq!(
        DeployError::Timeout.failure_text(),
        "failed to stop deployment: timed out waiting for the external run"
    );
    assert_eq!(
        DeployError::ExternalRunFailed("cancelled".to_string()).failure_text(),
        "failed to stop deployment: external run failed: cancelled"
    );
    assert_eq!(
        DeployError::ExternalCallFailed("no route".to_string()).failure_text(),
        "failed to stop deployment: external call failed: no route"
    );
    assert_eq!(
        DeployError::Db("gone".to_string()).failure_text(),
        "failed to stop deployment: db error: gone"
    );
    assert_eq!(
        DeployError::NotFound.failure_text(),
        "failed to stop deployment: deployment not found"
    );
}

#[test]
fn only_an_aborted_job_is_an_error_for_the_runner() {
    assert_eq!(Outcome::Skipped.into_result(), Ok(()));
    assert_eq!(Outcome::Stopped.into_result(), Ok(()));
    assert_eq!(Outcome::Failed(DeployError::Timeout).into_result(), Ok(()));
    assert_eq!(
        Outcome::Failed(DeployError::ExternalRunFailed("x".to_string())).into_result(),
        Ok(())
    );
    assert_eq!(
        Outcome::Aborted(DeployError::Db("down".to_string())).into_result(),
        Err(DeployError::Db("down".to_string()))
    );
    assert_eq!(Outcome::Aborted(DeployError::NotFound).into_result(), Err(DeployError::NotFound));
}
