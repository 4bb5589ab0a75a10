//! The stopping job: from a running deployment to a stopped or a failed one.
//!
//! The job reads the deployment, and does nothing unless it is running. It
//! then has `Stopping` written before anything outside is touched, starts the
//! teardown, waits for the teardown's run to end, and has the end written:
//! `Stopped` with the error cleared, or `Failed` with the cause. Only a
//! failure of the store is left unrecorded, and is handed to whoever runs the
//! job.
//!
//! A [`StoppingJob`] is a value. Its driver performs the [`Action`] that is
//! pending and hands the answer back as an [`Event`]; the job never acts
//! itself.

use vstd::prelude::*;
use crate::deployment::{Deployment, DeploymentStatus, DeploymentView};
use crate::error::{DeployError, DeployErrorView, StorageError, StorageErrorView};
use crate::span::Span;
use crate::task::StoppingTask;
use crate::wait::{
    answer_view, RunHandle, RunStatus, RunStatusView, Wait, WaitAction, WaitEvent, WaitEventView,
    WaitStep, WaitStepView,
};

verus! {

/// How a stopping job ended.
#[derive(Debug, Clone, PartialEq, Eq)]
pub enum Outcome {
    /// The deployment was not running. Nothing was written and nothing
    /// outside was called.
    Skipped,
    /// The teardown was confirmed, and the record says `Stopped`.
    Stopped,
    /// The teardown was tried and did not complete, and the record says
    /// `Failed` with this cause. For whoever runs the job this is no failure
    /// of the job: it is not to be tried again.
    Failed(DeployError),
    /// The store failed, so what happened is not on record. This is the one
    /// end that the runner sees as an error.
    Aborted(DeployError),
}

/// The mathematical value of an [`Outcome`].
pub enum OutcomeView {
    Skipped,
    Stopped,
    Failed(DeployErrorView),
    Aborted(DeployErrorView),
}

impl View for Outcome {
    type V = OutcomeView;

    open spec fn view(&self) -> OutcomeView {
        match self {
            Outcome::Skipped => OutcomeView::Skipped,
            Outcome::Stopped => OutcomeView::Stopped,
            Outcome::Failed(cause) => OutcomeView::Failed(cause@),
            Outcome::Aborted(error) => OutcomeView::Aborted(error@),
        }
    }
}

impl OutcomeView {
    /// What the runner of the job is told: an error only where the store
    /// failed.
    pub open spec fn runner_result(self) -> Result<(), DeployErrorView> {
        match self {
            OutcomeView::Aborted(error) => Err(error),
            _ => Ok(()),
        }
    }
}

/// The mathematical value of what [`Outcome::into_result`] returns.
pub open spec fn result_view(result: Result<(), DeployError>) -> Result<(), DeployErrorView> {
    match result {
        Ok(()) => Ok(()),
        Err(error) => Err(error@),
    }
}

impl Outcome {
    /// What the runner of the job is told. A teardown that failed and was
    /// recorded counts as done; only a failure of the store is an error.
    pub fn into_result(self) -> (result: Result<(), DeployError>)
        ensures
            result_view(result) == self@.runner_result(),
    {
        match self {
            Outcome::Aborted(error) => Err(error),
            _ => Ok(()),
        }
    }
}

/// What the driver of a job has to do next.
#[derive(Debug, Clone, PartialEq, Eq)]
pub enum Action {
    /// Read deployment `id`, with the instance that belongs to it, from the
    /// store.
    LoadDeployment { id: i32 },
    /// Write `status` as the status of deployment `id`, and nothing else.
    UpdateStatus { id: i32, status: DeploymentStatus },
    /// Ask the workflow service to tear down the instance of deployment
    /// `deployment_id`.
    StartTeardown { deployment_id: i32 },
    /// Ask the workflow service for the status of `run`.
    PollStatus { run: RunHandle },
    /// Let `duration` pass without doing anything.
    Sleep { duration: Span },
    /// Write `status` and `error` as the status and the error field of
    /// deployment `id`.
    SetStatusAndError { id: i32, status: DeploymentStatus, error: Option<String> },
    /// Nothing is left to do: the job has ended.
    Finish,
}

/// The mathematical value of an [`Action`].
pub enum ActionView {
    LoadDeployment { id: i32 },
    UpdateStatus { id: i32, status: DeploymentStatus },
    StartTeardown { deployment_id: i32 },
    PollStatus { run: RunHandle },
    Sleep { duration: Span },
    SetStatusAndError { id: i32, status: DeploymentStatus, error: Option<Seq<char>> },
    Finish,
}

impl View for Action {
    type V = ActionView;

    open spec fn view(&self) -> ActionView {
        match self {
            Action::LoadDeployment { id } => ActionView::LoadDeployment { id: *id },
            Action::UpdateStatus { id, status } => ActionView::UpdateStatus {
                id: *id,
                status: *status,
            },
            Action::StartTeardown { deployment_id } => ActionView::StartTeardown {
                deployment_id: *deployment_id,
            },
            Action::PollStatus { run } => ActionView::PollStatus { run: *run },
            Action::Sleep { duration } => ActionView::Sleep { duration: *duration },
            Action::SetStatusAndError { id, status, error } => ActionView::SetStatusAndError {
                id: *id,
                status: *status,
                error: match error {
                    Some(text) => Some(text@),
                    None => None,
                },
            },
            Action::Finish => ActionView::Finish,
        }
    }
}

/// What the driver of a job reports back.
#[derive(Debug, PartialEq, Eq)]
pub enum Event {
    /// The answer to [`Action::LoadDeployment`].
    DeploymentLoaded(Result<Deployment, StorageError>),
    /// The answer to [`Action::UpdateStatus`] and to
    /// [`Action::SetStatusAndError`]: whether the write took place.
    Persisted(Result<(), StorageError>),
    /// The answer to [`Action::StartTeardown`]: the run that was started, or
    /// why none was.
    TeardownStarted(Result<RunHandle, String>),
    /// The answer to [`Action::PollStatus`]: the status, or why the query
    /// failed. `elapsed` is the time that had passed since the teardown was
    /// started when the answer came.
    StatusPolled { status: Result<RunStatus, String>, elapsed: Span },
    /// The answer to [`Action::Sleep`].
    Slept,
}

/// The mathematical value of an [`Event`].
pub enum EventView {
    DeploymentLoaded(Result<DeploymentView, StorageErrorView>),
    Persisted(Result<(), StorageErrorView>),
    TeardownStarted(Result<RunHandle, Seq<char>>),
    StatusPolled { status: Result<RunStatusView, Seq<char>>, elapsed: Span },
    Slept,
}

impl View for Event {
    type V = EventView;

    open spec fn view(&self) -> EventView {
        match self {
            Event::DeploymentLoaded(Ok(deployment)) => EventView::DeploymentLoaded(Ok(deployment@)),
            Event::DeploymentLoaded(Err(error)) => EventView::DeploymentLoaded(Err(error@)),
            Event::Persisted(Ok(())) => EventView::Persisted(Ok(())),
            Event::Persisted(Err(error)) => EventView::Persisted(Err(error@)),
            Event::TeardownStarted(Ok(run)) => EventView::TeardownStarted(Ok(*run)),
            Event::TeardownStarted(Err(cause)) => EventView::TeardownStarted(Err(cause@)),
            Event::StatusPolled { status, elapsed } => EventView::StatusPolled {
                status: answer_view(*status),
                elapsed: *elapsed,
            },
            Event::Slept => EventView::Slept,
        }
    }
}

impl EventView {
    /// The event as the wait protocol sees it, if it is one of the wait's.
    pub open spec fn as_wait_event(self) -> Option<WaitEventView> {
        match self {
            EventView::StatusPolled { status, elapsed } => Some(
                WaitEventView::Polled { status, elapsed },
            ),
            EventView::Slept => Some(WaitEventView::Slept),
            _ => None,
        }
    }
}

/// How far a job has come. Each phase but the last has one action pending.
#[derive(Debug, PartialEq, Eq)]
pub enum Phase {
    /// The deployment is being read.
    Loading,
    /// The deployment is running, and `Stopping` is being written.
    MarkingStopping { deployment: Deployment },
    /// `Stopping` is on record, and the teardown is being started.
    StartingTeardown { deployment: Deployment },
    /// The teardown was started, and its run is being waited for.
    Waiting { deployment: Deployment, wait: Wait },
    /// The run succeeded, and `Stopped` is being written.
    MarkingStopped { deployment: Deployment },
    /// The teardown failed for `cause`, and `Failed` is being written.
    MarkingFailed { deployment: Deployment, cause: DeployError },
    /// The job has ended. `record` is the deployment as the job last knew it
    /// to be stored, if it was ever read.
    Done { outcome: Outcome, record: Option<Deployment> },
}

/// The mathematical value of a [`Phase`].
pub enum PhaseView {
    Loading,
    MarkingStopping { deployment: DeploymentView },
    StartingTeardown { deployment: DeploymentView },
    Waiting { deployment: DeploymentView, wait: Wait },
    MarkingStopped { deployment: DeploymentView },
    MarkingFailed { deployment: DeploymentView, cause: DeployErrorView },
    Done { outcome: OutcomeView, record: Option<DeploymentView> },
}

impl View for Phase {
    type V = PhaseView;

    open spec fn view(&self) -> PhaseView {
        match self {
            Phase::Loading => PhaseView::Loading,
            Phase::MarkingStopping { deployment } => PhaseView::MarkingStopping {
                deployment: deployment@,
            },
            Phase::StartingTeardown { deployment } => PhaseView::StartingTeardown {
                deployment: deployment@,
            },
            Phase::Waiting { deployment, wait } => PhaseView::Waiting {
                deployment: deployment@,
                wait: *wait,
            },
            Phase::MarkingStopped { deployment } => PhaseView::MarkingStopped {
                deployment: deployment@,
            },
            Phase::MarkingFailed { deployment, cause } => PhaseView::MarkingFailed {
                deployment: deployment@,
                cause: cause@,
            },
            Phase::Done { outcome, record } => PhaseView::Done {
                outcome: outcome@,
                record: match record {
                    Some(deployment) => Some(deployment@),
                    None => None,
                },
            },
        }
    }
}

/// One stopping job: its order and how far it has come.
#[derive(Debug, PartialEq, Eq)]
pub struct StoppingJob {
    pub task: StoppingTask,
    pub phase: Phase,
}

/// The mathematical value of a [`StoppingJob`].
pub struct JobView {
    pub task: StoppingTask,
    pub phase: PhaseView,
}

impl View for StoppingJob {
    type V = JobView;

    open spec fn view(&self) -> JobView {
        JobView { task: self.task, phase: self.phase@ }
    }
}

impl JobView {
    /// The job before anything has happened.
    pub open spec fn start(task: StoppingTask) -> JobView {
        JobView { task, phase: PhaseView::Loading }
    }

    /// The job in another phase.
    pub open spec fn at(self, phase: PhaseView) -> JobView {
        JobView { phase, ..self }
    }

    /// The job ended with `outcome`, the deployment last known as `record`.
    pub open spec fn ended(self, outcome: OutcomeView, record: Option<DeploymentView>) -> JobView {
        self.at(PhaseView::Done { outcome, record })
    }

    /// The action the driver has to perform in this state.
    pub open spec fn pending_action(self) -> ActionView {
        match self.phase {
            PhaseView::Loading => ActionView::LoadDeployment { id: self.task.deployment_id },
            PhaseView::MarkingStopping { deployment } => ActionView::UpdateStatus {
                id: deployment.id,
                status: DeploymentStatus::Stopping,
            },
            PhaseView::StartingTeardown { deployment } => ActionView::StartTeardown {
                deployment_id: deployment.id,
            },
            PhaseView::Waiting { wait, .. } => match wait.pending_action() {
                WaitAction::Poll { run } => ActionView::PollStatus { run },
                WaitAction::Sleep { duration } => ActionView::Sleep { duration },
            },
            PhaseView::MarkingStopped { deployment } => ActionView::SetStatusAndError {
                id: deployment.id,
                status: DeploymentStatus::Stopped,
                error: None,
            },
            PhaseView::MarkingFailed { deployment, cause } => ActionView::SetStatusAndError {
                id: deployment.id,
                status: DeploymentStatus::Failed,
                error: Some(cause.failure_text()),
            },
            PhaseView::Done { .. } => ActionView::Finish,
        }
    }

    /// Whether `event` reports on the action that is pending. Nothing
    /// answers a job that has ended.
    pub open spec fn answers(self, event: EventView) -> bool {
        match self.phase {
            PhaseView::Loading => event is DeploymentLoaded,
            PhaseView::MarkingStopping { .. } => event is Persisted,
            PhaseView::StartingTeardown { .. } => event is TeardownStarted,
            PhaseView::Waiting { wait, .. } => match event.as_wait_event() {
                Some(report) => wait.answers(report),
                None => false,
            },
            PhaseView::MarkingStopped { .. } => event is Persisted,
            PhaseView::MarkingFailed { .. } => event is Persisted,
            PhaseView::Done { .. } => false,
        }
    }

    /// The job after the record was read, or could not be: a failure of the
    /// store ends the job; a deployment that is not running ends it with
    /// nothing done; a running one is to be marked as stopping.
    pub open spec fn after_load(self, loaded: Result<DeploymentView, StorageErrorView>)
        -> JobView {
        match loaded {
            Err(error) => self.ended(OutcomeView::Aborted(error.as_deploy_error()), None),
            Ok(deployment) => if deployment.status == DeploymentStatus::Running {
                self.at(PhaseView::MarkingStopping { deployment })
            } else {
                self.ended(OutcomeView::Skipped, Some(deployment))
            },
        }
    }

    /// The job after the teardown was started, or could not be: the wait for
    /// the run begins, or the failure is to be recorded.
    pub open spec fn after_teardown(
        self,
        deployment: DeploymentView,
        started: Result<RunHandle, Seq<char>>,
    ) -> JobView {
        match started {
            Ok(run) => self.at(
                PhaseView::Waiting {
                    deployment,
                    wait: Wait::begin(
                        run,
                        self.task.workflow_timeout,
                        self.task.workflow_check_interval,
                    ),
                },
            ),
            Err(cause) => self.at(
                PhaseView::MarkingFailed {
                    deployment,
                    cause: DeployErrorView::ExternalCallFailed(cause),
                },
            ),
        }
    }

    /// The job after one step of its wait: still waiting, or with the wait's
    /// result to be recorded.
    pub open spec fn after_wait(self, deployment: DeploymentView, step: WaitStepView) -> JobView {
        match step {
            WaitStepView::Continue(wait) => self.at(PhaseView::Waiting { deployment, wait }),
            WaitStepView::Done(Ok(())) => self.at(PhaseView::MarkingStopped { deployment }),
            WaitStepView::Done(Err(cause)) => self.at(
                PhaseView::MarkingFailed { deployment, cause },
            ),
        }
    }

    /// The job after `event`. An event that does not answer the pending
    /// action changes nothing.
    pub open spec fn step(self, event: EventView) -> JobView {
        if !self.answers(event) {
            self
        } else {
            match (self.phase, event) {
                (PhaseView::Loading, EventView::DeploymentLoaded(loaded)) => self.after_load(
                    loaded,
                ),
                (PhaseView::MarkingStopping { deployment }, EventView::Persisted(Ok(()))) => {
                    self.at(
                        PhaseView::StartingTeardown {
                            deployment: deployment.with_status(DeploymentStatus::Stopping),
                        },
                    )
                },
                (
                    PhaseView::StartingTeardown { deployment },
                    EventView::TeardownStarted(started),
                ) => self.after_teardown(deployment, started),
                (PhaseView::Waiting { deployment, wait }, _) => match event.as_wait_event() {
                    Some(report) => self.after_wait(deployment, wait.step(report)),
                    None => self,
                },
                (PhaseView::MarkingStopped { deployment }, EventView::Persisted(Ok(()))) => {
                    self.ended(OutcomeView::Stopped, Some(deployment.finished()))
                },
                (
                    PhaseView::MarkingFailed { deployment, cause },
                    EventView::Persisted(Ok(())),
                ) => self.ended(
                    OutcomeView::Failed(cause),
                    Some(deployment.errored(cause.failure_text())),
                ),
                (PhaseView::MarkingStopping { deployment }, EventView::Persisted(Err(error)))
                | (PhaseView::MarkingStopped { deployment }, EventView::Persisted(Err(error)))
                | (
                    PhaseView::MarkingFailed { deployment, .. },
                    EventView::Persisted(Err(error)),
                ) => self.ended(
                    OutcomeView::Aborted(error.as_deploy_error()),
                    Some(deployment),
                ),
                _ => self,
            }
        }
    }

    /// The job after the events of `events`, taken in order.
    pub open spec fn replay(self, events: Seq<EventView>) -> JobView
        decreases events.len(),
    {
        if events.len() == 0 {
            self
        } else {
            self.step(events.first()).replay(events.drop_first())
        }
    }

    /// The actions a driver performs, in order, when its reports are
    /// `events`: the action pending now, then the action pending after each
    /// report.
    pub open spec fn actions(self, events: Seq<EventView>) -> Seq<ActionView>
        decreases events.len(),
    {
        if events.len() == 0 {
            seq![self.pending_action()]
        } else {
            seq![self.pending_action()] + self.step(events.first()).actions(events.drop_first())
        }
    }

    /// The record as the job last knew it to be stored, if it was ever read.
    pub open spec fn deployment(self) -> Option<DeploymentView> {
        match self.phase {
            PhaseView::Loading => None,
            PhaseView::MarkingStopping { deployment } => Some(deployment),
            PhaseView::StartingTeardown { deployment } => Some(deployment),
            PhaseView::Waiting { deployment, .. } => Some(deployment),
            PhaseView::MarkingStopped { deployment } => Some(deployment),
            PhaseView::MarkingFailed { deployment, .. } => Some(deployment),
            PhaseView::Done { record, .. } => record,
        }
    }
}

impl StoppingJob {
    /// The job for `task`, with nothing done yet. Its first action is to
    /// read the deployment.
    pub fn new(task: StoppingTask) -> (job: StoppingJob)
        ensures
            job@ == JobView::start(task),
    {
        StoppingJob { task, phase: Phase::Loading }
    }

    /// The action the driver has to perform now.
    pub fn pending(&self) -> (action: Action)
        ensures
            action@ == self@.pending_action(),
    {
        match &self.phase {
            Phase::Loading => Action::LoadDeployment { id: self.task.deployment_id },
            Phase::MarkingStopping { deployment } => Action::UpdateStatus {
                id: deployment.id,
                status: DeploymentStatus::Stopping,
            },
            Phase::StartingTeardown { deployment } => Action::StartTeardown {
                deployment_id: deployment.id,
            },
            Phase::Waiting { wait, .. } => match wait.pending() {
                WaitAction::Poll { run } => Action::PollStatus { run },
                WaitAction::Sleep { duration } => Action::Sleep { duration },
            },
            Phase::MarkingStopped { deployment } => Action::SetStatusAndError {
                id: deployment.id,
                status: DeploymentStatus::Stopped,
                error: None,
            },
            Phase::MarkingFailed { deployment, cause } => Action::SetStatusAndError {
                id: deployment.id,
                status: DeploymentStatus::Failed,
                error: Some(cause.failure_text()),
            },
            Phase::Done { .. } => Action::Finish,
        }
    }

    /// Whether `event` reports on the action that is pending.
    pub fn accepts(&self, event: &Event) -> (yes: bool)
        ensures
            yes == self@.answers(event@),
    {
        match (&self.phase, event) {
            (Phase::Loading, Event::DeploymentLoaded(_)) => true,
            (Phase::MarkingStopping { .. }, Event::Persisted(_)) => true,
            (Phase::StartingTeardown { .. }, Event::TeardownStarted(_)) => true,
            (Phase::Waiting { wait, .. }, Event::StatusPolled { .. }) => !wait.sleeping,
            (Phase::Waiting { wait, .. }, Event::Slept) => wait.sleeping,
            (Phase::MarkingStopped { .. }, Event::Persisted(_)) => true,
            (Phase::MarkingFailed { .. }, Event::Persisted(_)) => true,
            _ => false,
        }
    }

    /// Whether the job has ended.
    pub fn is_finished(&self) -> (yes: bool)
        ensures
            yes == (self@.phase is Done),
    {
        match &self.phase {
            Phase::Done { .. } => true,
            _ => false,
        }
    }

    /// The job in the phase that follows the reading of the record.
    fn loaded(task: StoppingTask, loaded: Result<Deployment, StorageError>) -> (next: StoppingJob)
        ensures
            next@ == JobView::start(task).after_load(
                match loaded {
                    Ok(deployment) => Ok(deployment@),
                    Err(error) => Err(error@),
                },
            ),
    {
        match loaded {
            Err(error) => StoppingJob {
                task,
                phase: Phase::Done {
                    outcome: Outcome::Aborted(DeployError::from_storage(error)),
                    record: None,
                },
            },
            Ok(deployment) => match deployment.status {
                DeploymentStatus::Running => StoppingJob {
                    task,
                    phase: Phase::MarkingStopping { deployment },
                },
                DeploymentStatus::Created
                | DeploymentStatus::Failed
                | DeploymentStatus::Pending
                | DeploymentStatus::Stopped
                | DeploymentStatus::Stopping => StoppingJob {
                    task,
                    phase: Phase::Done { outcome: Outcome::Skipped, record: Some(deployment) },
                },
            },
        }
    }

    /// The job in the phase that follows one step of its wait.
    fn waited(task: StoppingTask, deployment: Deployment, step: WaitStep) -> (next: StoppingJob)
        ensures
            next@ == JobView::start(task).after_wait(deployment@, step@),
    {
        match step {
            WaitStep::Continue(wait) => StoppingJob {
                task,
                phase: Phase::Waiting { deployment, wait },
            },
            WaitStep::Done(Ok(())) => StoppingJob {
                task,
                phase: Phase::MarkingStopped { deployment },
            },
            WaitStep::Done(Err(cause)) => StoppingJob {
                task,
                phase: Phase::MarkingFailed { deployment, cause },
            },
        }
    }

    /// The job ended because the store failed with `error`.
    fn aborted(task: StoppingTask, deployment: Deployment, error: StorageError) -> (next:
        StoppingJob)
        ensures
            next@ == JobView::start(task).ended(
                OutcomeView::Aborted(error@.as_deploy_error()),
                Some(deployment@),
            ),
    {
        StoppingJob {
            task,
            phase: Phase::Done {
                outcome: Outcome::Aborted(DeployError::from_storage(error)),
                record: Some(deployment),
            },
        }
    }

    /// Takes the driver's report and moves the job on.
    ///
    /// A report on an action that is not pending is ignored: the job that
    /// comes back is the job that was given.
    pub fn handle(self, event: Event) -> (next: StoppingJob)
        ensures
            next@ == self@.step(event@),
    {
        let StoppingJob { task, phase } = self;
        match (phase, event) {
            (Phase::Loading, Event::DeploymentLoaded(loaded)) => Self::loaded(task, loaded),
            (Phase::MarkingStopping { deployment }, Event::Persisted(Ok(()))) => {
                let mut deployment = deployment;
                deployment.update_status(DeploymentStatus::Stopping);
                StoppingJob { task, phase: Phase::StartingTeardown { deployment } }
            },
            (Phase::StartingTeardown { deployment }, Event::TeardownStarted(Ok(run))) => {
                let wait = Wait::new(run, task.workflow_timeout, task.workflow_check_interval);
                StoppingJob { task, phase: Phase::Waiting { deployment, wait } }
            },
            (Phase::StartingTeardown { deployment }, Event::TeardownStarted(Err(cause))) => {
                StoppingJob {
                    task,
                    phase: Phase::MarkingFailed {
                        deployment,
                        cause: DeployError::ExternalCallFailed(cause),
                    },
                }
            },
            (Phase::Waiting { deployment, wait }, Event::StatusPolled { status, elapsed }) => {
                Self::waited(task, deployment, wait.handle(WaitEvent::Polled { status, elapsed }))
            },
            (Phase::Waiting { deployment, wait }, Event::Slept) => {
                Self::waited(task, deployment, wait.handle(WaitEvent::Slept))
            },
            (Phase::MarkingStopped { deployment }, Event::Persisted(Ok(()))) => {
                let mut deployment = deployment;
                deployment.mark_as_finished();
                StoppingJob {
                    task,
                    phase: Phase::Done { outcome: Outcome::Stopped, record: Some(deployment) },
                }
            },
            (Phase::MarkingFailed { deployment, cause }, Event::Persisted(Ok(()))) => {
                let mut deployment = deployment;
                deployment.mark_as_error(cause.failure_text());
                StoppingJob {
                    task,
                    phase: Phase::Done {
                        outcome: Outcome::Failed(cause),
                        record: Some(deployment),
                    },
                }
            },
            (Phase::MarkingStopping { deployment }, Event::Persisted(Err(error))) => {
                Self::aborted(task, deployment, error)
            },
            (Phase::MarkingStopped { deployment }, Event::Persisted(Err(error))) => {
                Self::aborted(task, deployment, error)
            },
            (Phase::MarkingFailed { deployment, .. }, Event::Persisted(Err(error))) => {
                Self::aborted(task, deployment, error)
            },
            (phase, _) => StoppingJob { task, phase },
        }
    }

    /// How the job ended, if it has.
    pub fn into_outcome(self) -> (outcome: Option<Outcome>)
        ensures
            match outcome {
                Some(end) => self@.phase is Done && self@.phase->outcome == end@,
                None => !(self@.phase is Done),
            },
    {
        match self.phase {
            Phase::Done { outcome, .. } => Some(outcome),
            _ => None,
        }
    }

    /// The record as the job last knew it to be stored, if it was ever read.
    pub fn deployment(&self) -> (record: Option<&Deployment>)
        ensures
            match record {
                Some(deployment) => self@.deployment() == Some(deployment@),
                None => self@.deployment() is None,
            },
    {
        match &self.phase {
            Phase::Loading => None,
            Phase::MarkingStopping { deployment } => Some(deployment),
            Phase::StartingTeardown { deployment } => Some(deployment),
            Phase::Waiting { deployment, .. } => Some(deployment),
            Phase::MarkingStopped { deployment } => Some(deployment),
            Phase::MarkingFailed { deployment, .. } => Some(deployment),
            Phase::Done { record, .. } => record.as_ref(),
        }
    }
}

} // verus!
