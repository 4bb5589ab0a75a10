//! The deployment record and the three changes the stopping path makes to it.

use vstd::prelude::*;

verus! {

/// Where a deployment stands in its life.
#[derive(Clone, Copy, Debug, PartialEq, Eq, Structural)]
pub enum DeploymentStatus {
    Created,
    Pending,
    Running,
    Stopping,
    Stopped,
    Failed,
}

/// One deployment as the store holds it.
#[derive(Debug, Clone, PartialEq, Eq)]
pub struct Deployment {
    /// The identity the store gave it.
    pub id: i32,
    pub status: DeploymentStatus,
    /// Why the deployment failed; meant to be set only with `Failed`.
    pub error: Option<String>,
}

/// The mathematical value of a [`Deployment`].
pub struct DeploymentView {
    pub id: i32,
    pub status: DeploymentStatus,
    pub error: Option<Seq<char>>,
}

impl View for Deployment {
    type V = DeploymentView;

    open spec fn view(&self) -> DeploymentView {
        DeploymentView {
            id: self.id,
            status: self.status,
            error: match self.error {
                Some(text) => Some(text@),
                None => None,
            },
        }
    }
}

impl DeploymentView {
    /// A record is consistent when it names a cause only for a failure.
    pub open spec fn consistent(self) -> bool {
        self.error is Some ==> self.status == DeploymentStatus::Failed
    }

    /// The record with its status replaced and all else kept.
    pub open spec fn with_status(self, status: DeploymentStatus) -> DeploymentView {
        DeploymentView { status, ..self }
    }

    /// The record of a deployment whose teardown was confirmed.
    pub open spec fn finished(self) -> DeploymentView {
        DeploymentView { status: DeploymentStatus::Stopped, error: None, ..self }
    }

    /// The record of a deployment that failed for the cause `text`.
    pub open spec fn errored(self, text: Seq<char>) -> DeploymentView {
        DeploymentView { status: DeploymentStatus::Failed, error: Some(text), ..self }
    }
}

impl Deployment {
    /// Sets the status and leaves the error field as it is.
    pub fn update_status(&mut self, status: DeploymentStatus)
        ensures
            final(self)@ == old(self)@.with_status(status),
    {
        self.status = status;
    }

    /// Marks the deployment as stopped and clears any earlier error.
    pub fn mark_as_finished(&mut self)
        ensures
            final(self)@ == old(self)@.finished(),
            final(self)@.consistent(),
    {
        self.status = DeploymentStatus::Stopped;
        self.error = None;
    }

    /// Marks the deployment as failed for the cause `error`.
    pub fn mark_as_error(&mut self, error: String)
        ensures
            final(self)@ == old(self)@.errored(error@),
            final(self)@.consistent(),
    {
        self.status = DeploymentStatus::Failed;
        self.error = Some(error);
    }
}

} // verus!
