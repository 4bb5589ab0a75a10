//! What can go wrong while a deployment is stopped, and how it is worded.

use vstd::prelude::*;
use vstd::string::*;

verus! {

/// Why a read or a write of the deployment record did not happen.
#[derive(Debug, Clone, PartialEq, Eq)]
pub enum StorageError {
    /// No deployment has the id that was asked for.
    NotFound,
    /// The store failed; the text is its own report.
    Db(String),
}

/// The mathematical value of a [`StorageError`].
pub enum StorageErrorView {
    NotFound,
    Db(Seq<char>),
}

impl View for StorageError {
    type V = StorageErrorView;

    open spec fn view(&self) -> StorageErrorView {
        match self {
            StorageError::NotFound => StorageErrorView::NotFound,
            StorageError::Db(report) => StorageErrorView::Db(report@),
        }
    }
}

/// Why a stopping job did not stop its deployment.
#[derive(Debug, Clone, PartialEq, Eq)]
pub enum DeployError {
    /// The store failed on a read or a write.
    Db(String),
    /// The deployment to stop is unknown to the store.
    NotFound,
    /// The teardown could not be started: the call to the workflow service
    /// could not be made or was refused.
    ExternalCallFailed(String),
    /// The workflow ran and reported that it failed.
    ExternalRunFailed(String),
    /// The workflow reached no end within the time allowed.
    Timeout,
}

/// The mathematical value of a [`DeployError`].
pub enum DeployErrorView {
    Db(Seq<char>),
    NotFound,
    ExternalCallFailed(Seq<char>),
    ExternalRunFailed(Seq<char>),
    Timeout,
}

impl View for DeployError {
    type V = DeployErrorView;

    open spec fn view(&self) -> DeployErrorView {
        match self {
            DeployError::Db(report) => DeployErrorView::Db(report@),
            DeployError::NotFound => DeployErrorView::NotFound,
            DeployError::ExternalCallFailed(cause) => DeployErrorView::ExternalCallFailed(cause@),
            DeployError::ExternalRunFailed(cause) => DeployErrorView::ExternalRunFailed(cause@),
            DeployError::Timeout => DeployErrorView::Timeout,
        }
    }
}

impl StorageErrorView {
    /// The job's error for a failure of the store.
    pub open spec fn as_deploy_error(self) -> DeployErrorView {
        match self {
            StorageErrorView::NotFound => DeployErrorView::NotFound,
            StorageErrorView::Db(report) => DeployErrorView::Db(report),
        }
    }
}

impl DeployErrorView {
    /// The sentence that describes the error: a fixed wording of its kind,
    /// followed by the cause where the kind carries one.
    pub open spec fn description(self) -> Seq<char> {
        match self {
            DeployErrorView::Db(report) => "db error: "@ + report,
            DeployErrorView::NotFound => "deployment not found"@,
            DeployErrorView::ExternalCallFailed(cause) => "external call failed: "@ + cause,
            DeployErrorView::ExternalRunFailed(cause) => "external run failed: "@ + cause,
            DeployErrorView::Timeout => "timed out waiting for the external run"@,
        }
    }

    /// What is written into a deployment's error field when stopping it
    /// failed for this reason.
    pub open spec fn failure_text(self) -> Seq<char> {
        "failed to stop deployment: "@ + self.description()
    }
}

impl DeployError {
    /// Turns a failure of the store into the job's error of the same kind,
    /// keeping the store's report.
    pub fn from_storage(error: StorageError) -> (converted: DeployError)
        ensures
            converted@ == error@.as_deploy_error(),
    {
        match error {
            StorageError::NotFound => DeployError::NotFound,
            StorageError::Db(report) => DeployError::Db(report),
        }
    }

    /// Describes the error in words.
    pub fn describe(&self) -> (text: String)
        ensures
            text@ == self@.description(),
    {
        match self {
            DeployError::Db(report) => String::from_str("db error: ").concat(report.as_str()),
            DeployError::NotFound => String::from_str("deployment not found"),
            DeployError::ExternalCallFailed(cause) => String::from_str(
                "external call failed: ",
            ).concat(cause.as_str()),
            DeployError::ExternalRunFailed(cause) => String::from_str(
                "external run failed: ",
            ).concat(cause.as_str()),
            DeployError::Timeout => String::from_str("timed out waiting for the external run"),
        }
    }

    /// The text for a deployment's error field when stopping it failed for
    /// this reason.
    pub fn failure_text(&self) -> (text: String)
        ensures
            text@ == self@.failure_text(),
    {
        let description = self.describe();
        String::from_str("failed to stop deployment: ").concat(description.as_str())
    }
}

} // verus!
