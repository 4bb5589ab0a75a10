//! The stopping job of a deployment orchestrator, as a pure protocol.
//!
//! A stopping job drives one deployment from `Running` to `Stopped`, or to
//! `Failed` with a cause, by tearing its instance down through an external
//! workflow and waiting for that workflow's run to end. The library decides
//! and nothing else: it never reads a record, calls the workflow service,
//! looks at a clock or sleeps. A driver does that. It performs the
//! [`Action`] that a [`StoppingJob`] has pending, hands the answer back as an
//! [`Event`], and goes on until the job asks for [`Action::Finish`].
//!
//! - [`task`] holds the order to stop a deployment, with its timing.
//! - [`deployment`] holds the record and the three changes made to it.
//! - [`wait`] holds the wait for the workflow's run, with its deadline.
//! - [`job`] holds the job itself.
//! - [`error`] holds the errors and their wording, [`span`] the time values.
//! - [`wait_laws`] and [`job_laws`] state and prove what holds of every wait
//!   and of every job.

pub mod deployment;
pub mod error;
pub mod job;
pub mod job_laws;
pub mod span;
pub mod task;
pub mod wait;
pub mod wait_laws;

pub use deployment::{Deployment, DeploymentStatus};
pub use error::{DeployError, StorageError};
pub use job::{Action, Event, Outcome, Phase, StoppingJob};
pub use span::Span;
pub use task::StoppingTask;
pub use wait::{RunHandle, RunStatus, Wait, WaitAction, WaitEvent, WaitStep};
