//! What holds of every stopping job, proved from the job's definition.

use vstd::prelude::*;
use crate::deployment::{DeploymentStatus, DeploymentView};
use crate::error::{DeployErrorView, StorageErrorView};
use crate::job::{ActionView, EventView, JobView, OutcomeView, PhaseView};
use crate::span::Span;
use crate::task::StoppingTask;
use crate::wait::{RunHandle, Wait, WaitEventView, WaitStepView};
use crate::wait_laws::{
    failed, failure_ends_the_wait, pending_past_the_deadline_times_out, pending_rounds,
    still_going, succeeded, success_on_nth_poll, within,
};

verus! {

/// A report of the wait as the job's driver words it.
pub open spec fn lift(report: WaitEventView) -> EventView {
    match report {
        WaitEventView::Polled { status, elapsed } => EventView::StatusPolled { status, elapsed },
        WaitEventView::Slept => EventView::Slept,
    }
}

/// The reports of a wait as the job's driver words them.
pub open spec fn lift_all(reports: Seq<WaitEventView>) -> Seq<EventView> {
    Seq::new(reports.len(), |i: int| lift(reports[i]))
}

/// What the driver reports of a running deployment up to the start of the
/// wait, when the store and the workflow service do as they are asked: the
/// record, the write of `Stopping`, and the run that was started.
pub open spec fn until_wait(deployment: DeploymentView, run: RunHandle) -> Seq<EventView> {
    seq![
        EventView::DeploymentLoaded(Ok(deployment)),
        EventView::Persisted(Ok(())),
        EventView::TeardownStarted(Ok(run)),
    ]
}

/// Replaying one sequence of events after another is replaying the two as
/// one.
proof fn lemma_replay_concat(job: JobView, head: Seq<EventView>, tail: Seq<EventView>)
    ensures
        job.replay(head + tail) == job.replay(head).replay(tail),
    decreases head.len(),
{
    if head.len() == 0 {
        assert(head + tail =~= tail);
    } else {
        assert((head + tail).first() == head.first());
        assert((head + tail).drop_first() =~= head.drop_first() + tail);
        lemma_replay_concat(job.step(head.first()), head.drop_first(), tail);
    }
}

/// Replaying one more event is taking one more step.
proof fn lemma_replay_push(job: JobView, events: Seq<EventView>, last: EventView)
    ensures
        job.replay(events.push(last)) == job.replay(events).step(last),
{
    let after = job.replay(events);
    assert(events.push(last) =~= events + seq![last]);
    lemma_replay_concat(job, events, seq![last]);
    assert(seq![last].first() == last);
    assert(seq![last].drop_first() =~= Seq::<EventView>::empty());
    assert(after.replay(seq![last]) == after.step(last).replay(seq![last].drop_first()));
}

/// A job that is not waiting takes no notice of the wait's reports.
proof fn lemma_reports_ignored(job: JobView, reports: Seq<WaitEventView>)
    requires
        !(job.phase is Waiting),
    ensures
        job.replay(lift_all(reports)) == job,
    decreases reports.len(),
{
    let events = lift_all(reports);
    if reports.len() > 0 {
        assert(events.first() == lift(reports.first()));
        assert(events.drop_first() =~= lift_all(reports.drop_first()));
        assert(job.step(events.first()) == job);
        lemma_reports_ignored(job, reports.drop_first());
    }
}

/// While a job waits it goes where its wait goes: replaying the wait's
/// reports on the job gives the job that follows from replaying them on the
/// wait.
proof fn lemma_job_follows_wait(
    job: JobView,
    deployment: DeploymentView,
    wait: Wait,
    reports: Seq<WaitEventView>,
)
    requires
        job.phase == (PhaseView::Waiting { deployment, wait }),
    ensures
        job.replay(lift_all(reports)) == job.after_wait(deployment, wait.replay(reports)),
    decreases reports.len(),
{
    let events = lift_all(reports);
    if reports.len() == 0 {
        assert(job.after_wait(deployment, WaitStepView::Continue(wait)) == job);
    } else {
        let report = reports.first();
        assert(events.first() == lift(report));
        assert(events.drop_first() =~= lift_all(reports.drop_first()));
        assert(lift(report).as_wait_event() == Some(report));
        let next = job.step(lift(report));
        assert(next == job.after_wait(deployment, wait.step(report)));
        match wait.step(report) {
            WaitStepView::Continue(onward) => {
                lemma_job_follows_wait(next, deployment, onward, reports.drop_first());
                assert(next.after_wait(deployment, onward.replay(reports.drop_first()))
                    == job.after_wait(deployment, onward.replay(reports.drop_first())));
            },
            WaitStepView::Done(_) => {
                lemma_reports_ignored(next, reports.drop_first());
            },
        }
    }
}

/// With a store and a workflow service that do as they are asked, the job
/// of a running deployment comes to wait for the run that was started, for
/// the time and at the interval that its order names, with `Stopping` on
/// record.
proof fn lemma_until_wait(task: StoppingTask, deployment: DeploymentView, run: RunHandle)
    requires
        deployment.status == DeploymentStatus::Running,
    ensures
        JobView::start(task).replay(until_wait(deployment, run)) == JobView::start(task).at(
            PhaseView::Waiting {
                deployment: deployment.with_status(DeploymentStatus::Stopping),
                wait: Wait::begin(run, task.workflow_timeout, task.workflow_check_interval),
            },
        ),
{
    let job = JobView::start(task);
    let events = until_wait(deployment, run);
    let loaded = job.step(events.first());
    let second = events.drop_first();
    let marked = loaded.step(second.first());
    let third = second.drop_first();
    let started = marked.step(third.first());
    assert(third.drop_first() =~= Seq::<EventView>::empty());
    assert(job.replay(events) == loaded.replay(second));
    assert(loaded.replay(second) == marked.replay(third));
    assert(marked.replay(third) == started.replay(third.drop_first()));
}

impl JobView {
    /// What holds of a job however it was driven: the record it holds is
    /// where the stopping path has brought it, and no further.
    ///
    /// `Stopping` is on record from before the teardown is asked for until
    /// the end is written. A job that ended finds the record `Stopped`
    /// without an error, or `Failed` with the cause of the failure, or as it
    /// was read when it was not running; only where the store failed can
    /// the record be left as `Running` or `Stopping`.
    pub open spec fn sound(self) -> bool {
        match self.phase {
            PhaseView::Loading => true,
            PhaseView::MarkingStopping { deployment } => deployment.status
                == DeploymentStatus::Running,
            PhaseView::StartingTeardown { deployment } => deployment.status
                == DeploymentStatus::Stopping,
            PhaseView::Waiting { deployment, wait } => {
                &&& deployment.status == DeploymentStatus::Stopping
                &&& wait.timeout == self.task.workflow_timeout
                &&& wait.interval == self.task.workflow_check_interval
            },
            PhaseView::MarkingStopped { deployment } => deployment.status
                == DeploymentStatus::Stopping,
            PhaseView::MarkingFailed { deployment, cause } => {
                &&& deployment.status == DeploymentStatus::Stopping
                &&& cause.is_teardown_failure()
            },
            PhaseView::Done { outcome, record } => match outcome {
                OutcomeView::Skipped => {
                    &&& record matches Some(deployment)
                    &&& deployment.status != DeploymentStatus::Running
                },
                OutcomeView::Stopped => {
                    &&& record matches Some(deployment)
                    &&& deployment.status == DeploymentStatus::Stopped
                    &&& deployment.error is None
                },
                OutcomeView::Failed(cause) => {
                    &&& record matches Some(deployment)
                    &&& deployment.status == DeploymentStatus::Failed
                    &&& deployment.error == Some(cause.failure_text())
                    &&& cause.is_teardown_failure()
                },
                OutcomeView::Aborted(error) => {
                    &&& error.is_storage_failure()
                    &&& record matches Some(deployment) ==> deployment.status
                        == DeploymentStatus::Running || deployment.status
                        == DeploymentStatus::Stopping
                },
            },
        }
    }

    /// How far the job has come, as a number that only rises: the stage of
    /// the action that is pending.
    pub open spec fn stage(self) -> nat {
        self.pending_action().stage()
    }

    /// Whether each of `events` answers the action that is pending when it
    /// comes, as the reports of a driver do that performs what it is asked
    /// to.
    pub open spec fn paired(self, events: Seq<EventView>) -> bool
        decreases events.len(),
    {
        events.len() == 0 || (self.answers(events.first()) && self.step(events.first()).paired(
            events.drop_first(),
        ))
    }
}

impl DeployErrorView {
    /// Whether the error is one of the store.
    pub open spec fn is_storage_failure(self) -> bool {
        self is Db || self is NotFound
    }

    /// Whether the error is one of the teardown: of the call that starts
    /// it, of its run, or of the wait for it.
    pub open spec fn is_teardown_failure(self) -> bool {
        self is ExternalCallFailed || self is ExternalRunFailed || self is Timeout
    }
}

/// The stage of the wait: the one stage whose actions are asked for again
/// and again.
pub open spec fn wait_stage() -> nat {
    3
}

impl ActionView {
    /// The place of the action in the order in which a job asks for its
    /// actions. The two actions of the wait share a stage.
    pub open spec fn stage(self) -> nat {
        match self {
            ActionView::LoadDeployment { .. } => 0,
            ActionView::UpdateStatus { .. } => 1,
            ActionView::StartTeardown { .. } => 2,
            ActionView::PollStatus { .. } => wait_stage(),
            ActionView::Sleep { .. } => wait_stage(),
            ActionView::SetStatusAndError { .. } => 4,
            ActionView::Finish => 5,
        }
    }
}

/// How many of `actions` are of stage `stage`.
pub open spec fn count_stage(actions: Seq<ActionView>, stage: nat) -> nat
    decreases actions.len(),
{
    if actions.len() == 0 {
        0
    } else if actions.first().stage() == stage {
        1 + count_stage(actions.drop_first(), stage)
    } else {
        count_stage(actions.drop_first(), stage)
    }
}

/// No event takes a sound job to one that is not.
proof fn lemma_step_keeps_sound(job: JobView, event: EventView)
    requires
        job.sound(),
    ensures
        job.step(event).sound(),
{
}

/// However a job is driven, it stays sound: whatever the events and their
/// order, the record moves from `Running` to `Stopping` and from there to
/// `Stopped` or to `Failed`, and in no other way.
pub proof fn every_job_stays_sound(task: StoppingTask, events: Seq<EventView>)
    ensures
        JobView::start(task).replay(events).sound(),
{
    lemma_replay_keeps_sound(JobView::start(task), events);
}

/// Replaying events on a sound job gives a sound job.
proof fn lemma_replay_keeps_sound(job: JobView, events: Seq<EventView>)
    requires
        job.sound(),
    ensures
        job.replay(events).sound(),
    decreases events.len(),
{
    if events.len() > 0 {
        lemma_step_keeps_sound(job, events.first());
        lemma_replay_keeps_sound(job.step(events.first()), events.drop_first());
    }
}

/// A job never goes back: no event lowers its stage, an event that does
/// not answer the pending action changes nothing, and one that does raises
/// the stage unless the job is waiting.
pub proof fn a_job_never_goes_back(job: JobView, event: EventView)
    ensures
        job.step(event).stage() >= job.stage(),
        !job.answers(event) ==> job.step(event) == job,
        job.answers(event) && job.stage() != wait_stage() ==> job.step(event).stage()
            > job.stage(),
{
}

/// The count behind [`each_effect_is_asked_for_once`], for a job at any
/// stage.
proof fn lemma_count_stage(job: JobView, events: Seq<EventView>, stage: nat)
    requires
        job.paired(events),
        stage != wait_stage(),
    ensures
        count_stage(job.actions(events), stage) <= (if job.stage() <= stage {
            1nat
        } else {
            0nat
        }),
    decreases events.len(),
{
    let actions = job.actions(events);
    assert(actions.first() == job.pending_action());
    if events.len() == 0 {
        assert(actions.drop_first() =~= Seq::<ActionView>::empty());
        assert(count_stage(actions.drop_first(), stage) == 0);
    } else {
        let next = job.step(events.first());
        a_job_never_goes_back(job, events.first());
        lemma_count_stage(next, events.drop_first(), stage);
        assert(actions.drop_first() =~= next.actions(events.drop_first()));
        assert(count_stage(actions.drop_first(), stage) == count_stage(
            next.actions(events.drop_first()),
            stage,
        ));
    }
}

/// A driver that performs what it is asked to is asked once at most to read
/// the deployment, once at most to write `Stopping`, once at most to start
/// the teardown, and once at most to write the end. Only the queries and
/// the sleeps of the wait come more than once.
pub proof fn each_effect_is_asked_for_once(
    task: StoppingTask,
    events: Seq<EventView>,
    stage: nat,
)
    requires
        JobView::start(task).paired(events),
        stage != wait_stage(),
    ensures
        count_stage(JobView::start(task).actions(events), stage) <= 1,
{
    lemma_count_stage(JobView::start(task), events, stage);
}

/// A deployment that is not running is left alone: the job ends at once
/// with nothing done and the record as it was read, and whatever is
/// reported afterwards, nothing but the reading of the record is ever
/// asked for: no write, and no call to the workflow service.
pub proof fn not_running_is_left_alone(
    task: StoppingTask,
    deployment: DeploymentView,
    later: Seq<EventView>,
)
    requires
        deployment.status != DeploymentStatus::Running,
    ensures
        ({
            let job = JobView::start(task);
            let events = seq![EventView::DeploymentLoaded(Ok(deployment))] + later;
            &&& job.replay(events) == job.ended(OutcomeView::Skipped, Some(deployment))
            &&& job.actions(events).len() == later.len() + 2
            &&& job.actions(events)[0] == (ActionView::LoadDeployment { id: task.deployment_id })
            &&& forall|place: int|
                1 <= place < job.actions(events).len() ==> #[trigger] job.actions(events)[place]
                    == ActionView::Finish
        }),
        OutcomeView::Skipped.runner_result() == Ok::<(), DeployErrorView>(()),
{
    let job = JobView::start(task);
    let events = seq![EventView::DeploymentLoaded(Ok(deployment))] + later;
    let end = job.ended(OutcomeView::Skipped, Some(deployment));
    assert(events.first() == EventView::DeploymentLoaded(Ok(deployment)));
    assert(events.drop_first() =~= later);
    assert(job.step(events.first()) == end);
    lemma_ended_stays_ended(end, later);
    let rest = end.actions(later);
    assert(job.actions(events) == seq![job.pending_action()] + rest);
    assert forall|place: int| 1 <= place < job.actions(events).len() implies #[trigger] job.actions(
        events,
    )[place] == ActionView::Finish by {
        assert(job.actions(events)[place] == rest[place - 1]);
    }
}

/// A failure of the store ends the job wherever it happens: on the reading
/// of the record and on each of the three writes. The job is then aborted
/// with the store's error, which is what its runner is told, and the record
/// is held as it was last known.
pub proof fn store_failure_ends_the_job(job: JobView, error: StorageErrorView)
    ensures
        job.phase is Loading ==> job.step(EventView::DeploymentLoaded(Err(error))) == job.ended(
            OutcomeView::Aborted(error.as_deploy_error()),
            None,
        ),
        job.phase is MarkingStopping || job.phase is MarkingStopped || job.phase is MarkingFailed
            ==> job.step(EventView::Persisted(Err(error))) == job.ended(
            OutcomeView::Aborted(error.as_deploy_error()),
            job.deployment(),
        ),
        OutcomeView::Aborted(error.as_deploy_error()).runner_result() == Err::<
            (),
            DeployErrorView,
        >(error.as_deploy_error()),
{
}

/// A job that has ended stays as it is, and asks for nothing more.
proof fn lemma_ended_stays_ended(job: JobView, later: Seq<EventView>)
    requires
        job.phase is Done,
    ensures
        job.replay(later) == job,
        job.actions(later).len() == later.len() + 1,
        forall|place: int|
            0 <= place < job.actions(later).len() ==> #[trigger] job.actions(later)[place]
                == ActionView::Finish,
    decreases later.len(),
{
    if later.len() > 0 {
        assert(job.step(later.first()) == job);
        lemma_ended_stays_ended(job, later.drop_first());
        let rest = job.actions(later.drop_first());
        assert(job.actions(later) == seq![job.pending_action()] + rest);
        assert forall|place: int| 0 <= place < job.actions(later).len() implies #[trigger] job.actions(
            later,
        )[place] == ActionView::Finish by {
            if place > 0 {
                assert(job.actions(later)[place] == rest[place - 1]);
            }
        }
    }
}

/// The job of a running deployment whose teardown succeeds: the write that
/// is asked for at the end sets `Stopped` and clears the error, and once it
/// is done the job has ended well with that record.
///
/// `readings` are the times at which the run was found still going, none of
/// them past the time allowed; `last` is the time at which it was found
/// succeeded.
pub proof fn success_is_recorded_as_stopped(
    task: StoppingTask,
    deployment: DeploymentView,
    run: RunHandle,
    readings: Seq<Span>,
    last: Span,
)
    requires
        deployment.status == DeploymentStatus::Running,
        within(readings, task.workflow_timeout),
    ensures
        ({
            let events = until_wait(deployment, run) + lift_all(
                pending_rounds(readings).push(succeeded(last)),
            );
            let writing = JobView::start(task).replay(events);
            let end = JobView::start(task).replay(events.push(EventView::Persisted(Ok(()))));
            &&& writing.pending_action() == (ActionView::SetStatusAndError {
                id: deployment.id,
                status: DeploymentStatus::Stopped,
                error: None,
            })
            &&& end.phase == (PhaseView::Done {
                outcome: OutcomeView::Stopped,
                record: Some(
                    DeploymentView {
                        id: deployment.id,
                        status: DeploymentStatus::Stopped,
                        error: None,
                    },
                ),
            })
            &&& end.pending_action() == ActionView::Finish
        }),
{
    let job = JobView::start(task);
    let marked = deployment.with_status(DeploymentStatus::Stopping);
    let wait = Wait::begin(run, task.workflow_timeout, task.workflow_check_interval);
    let waiting = job.at(PhaseView::Waiting { deployment: marked, wait });
    let reports = pending_rounds(readings).push(succeeded(last));
    let events = until_wait(deployment, run) + lift_all(reports);
    lemma_until_wait(task, deployment, run);
    lemma_replay_concat(job, until_wait(deployment, run), lift_all(reports));
    lemma_job_follows_wait(waiting, marked, wait, reports);
    success_on_nth_poll(
        run,
        task.workflow_timeout,
        task.workflow_check_interval,
        readings,
        last,
    );
    lemma_replay_push(job, events, EventView::Persisted(Ok(())));
    assert(job.replay(events) == job.at(PhaseView::MarkingStopped { deployment: marked }));
}

/// The record of a deployment whose teardown failed for `cause`.
pub open spec fn failure_record(deployment: DeploymentView, cause: DeployErrorView)
    -> DeploymentView {
    DeploymentView {
        id: deployment.id,
        status: DeploymentStatus::Failed,
        error: Some(cause.failure_text()),
    }
}

/// Whether `writing` asks for the write that records the failure `cause` of
/// the teardown of `deployment`, and `end`, the job after that write, has
/// ended with the failure on record.
pub open spec fn records_failure(
    writing: JobView,
    end: JobView,
    deployment: DeploymentView,
    cause: DeployErrorView,
) -> bool {
    &&& writing.pending_action() == (ActionView::SetStatusAndError {
        id: deployment.id,
        status: DeploymentStatus::Failed,
        error: Some(cause.failure_text()),
    })
    &&& end.phase == (PhaseView::Done {
        outcome: OutcomeView::Failed(cause),
        record: Some(failure_record(deployment, cause)),
    })
    &&& end.pending_action() == ActionView::Finish
    &&& OutcomeView::Failed(cause).runner_result() == Ok::<(), DeployErrorView>(())
}

/// The common end of the three laws on a failed teardown: a job that is to
/// record a failure asks for that write and, once it is done, has ended.
proof fn lemma_failure_is_recorded(
    job: JobView,
    events: Seq<EventView>,
    deployment: DeploymentView,
    cause: DeployErrorView,
)
    requires
        job.replay(events).phase == (PhaseView::MarkingFailed {
            deployment: deployment.with_status(DeploymentStatus::Stopping),
            cause,
        }),
    ensures
        records_failure(
            job.replay(events),
            job.replay(events.push(EventView::Persisted(Ok(())))),
            deployment,
            cause,
        ),
{
    lemma_replay_push(job, events, EventView::Persisted(Ok(())));
}

/// The job of a running deployment whose teardown's run reports a failure:
/// the write that is asked for at the end sets `Failed` with an error text
/// that ends in the cause that was reported, and once it is done the job
/// has ended, with nothing for its runner to try again.
pub proof fn run_failure_is_recorded(
    task: StoppingTask,
    deployment: DeploymentView,
    run: RunHandle,
    readings: Seq<Span>,
    cause: Seq<char>,
    last: Span,
)
    requires
        deployment.status == DeploymentStatus::Running,
        within(readings, task.workflow_timeout),
    ensures
        ({
            let events = until_wait(deployment, run) + lift_all(
                pending_rounds(readings).push(failed(cause, last)),
            );
            records_failure(
                JobView::start(task).replay(events),
                JobView::start(task).replay(events.push(EventView::Persisted(Ok(())))),
                deployment,
                DeployErrorView::ExternalRunFailed(cause),
            )
        }),
        DeployErrorView::ExternalRunFailed(cause).failure_text()
            == "failed to stop deployment: "@ + ("external run failed: "@ + cause),
{
    let job = JobView::start(task);
    let marked = deployment.with_status(DeploymentStatus::Stopping);
    let wait = Wait::begin(run, task.workflow_timeout, task.workflow_check_interval);
    let waiting = job.at(PhaseView::Waiting { deployment: marked, wait });
    let reports = pending_rounds(readings).push(failed(cause, last));
    let events = until_wait(deployment, run) + lift_all(reports);
    lemma_until_wait(task, deployment, run);
    lemma_replay_concat(job, until_wait(deployment, run), lift_all(reports));
    lemma_job_follows_wait(waiting, marked, wait, reports);
    failure_ends_the_wait(
        run,
        task.workflow_timeout,
        task.workflow_check_interval,
        readings,
        cause,
        last,
    );
    lemma_failure_is_recorded(job, events, deployment, DeployErrorView::ExternalRunFailed(cause));
}

/// The job of a running deployment whose teardown could not be started:
/// no status is ever asked for, and the failure is recorded with the cause
/// that the call gave.
pub proof fn refused_teardown_is_recorded(
    task: StoppingTask,
    deployment: DeploymentView,
    cause: Seq<char>,
)
    requires
        deployment.status == DeploymentStatus::Running,
    ensures
        ({
            let events = seq![
                EventView::DeploymentLoaded(Ok(deployment)),
                EventView::Persisted(Ok(())),
                EventView::TeardownStarted(Err(cause)),
            ];
            records_failure(
                JobView::start(task).replay(events),
                JobView::start(task).replay(events.push(EventView::Persisted(Ok(())))),
                deployment,
                DeployErrorView::ExternalCallFailed(cause),
            )
        }),
{
    let job = JobView::start(task);
    let events = seq![
        EventView::DeploymentLoaded(Ok(deployment)),
        EventView::Persisted(Ok(())),
        EventView::TeardownStarted(Err(cause)),
    ];
    let loaded = job.step(events.first());
    let second = events.drop_first();
    let marked = loaded.step(second.first());
    let third = second.drop_first();
    let refused = marked.step(third.first());
    assert(third.drop_first() =~= Seq::<EventView>::empty());
    assert(job.replay(events) == loaded.replay(second));
    assert(loaded.replay(second) == marked.replay(third));
    assert(marked.replay(third) == refused.replay(third.drop_first()));
    lemma_failure_is_recorded(job, events, deployment, DeployErrorView::ExternalCallFailed(cause));
}

/// The job of a running deployment whose teardown's run is still going at
/// the first query answered past the time allowed: the write that is asked
/// for at the end sets `Failed` with the text of a timeout, and once it is
/// done the job has ended.
///
/// `readings` are the times at which the run was found still going within
/// the time allowed; `last` is the first time past it.
pub proof fn timeout_is_recorded(
    task: StoppingTask,
    deployment: DeploymentView,
    run: RunHandle,
    readings: Seq<Span>,
    last: Span,
)
    requires
        deployment.status == DeploymentStatus::Running,
        within(readings, task.workflow_timeout),
        last.nanos > task.workflow_timeout.nanos,
    ensures
        ({
            let events = until_wait(deployment, run) + lift_all(
                pending_rounds(readings).push(still_going(last)),
            );
            records_failure(
                JobView::start(task).replay(events),
                JobView::start(task).replay(events.push(EventView::Persisted(Ok(())))),
                deployment,
                DeployErrorView::Timeout,
            )
        }),
        DeployErrorView::Timeout.failure_text() == "failed to stop deployment: "@
            + "timed out waiting for the external run"@,
{
    let job = JobView::start(task);
    let marked = deployment.with_status(DeploymentStatus::Stopping);
    let wait = Wait::begin(run, task.workflow_timeout, task.workflow_check_interval);
    let waiting = job.at(PhaseView::Waiting { deployment: marked, wait });
    let reports = pending_rounds(readings).push(still_going(last));
    let events = until_wait(deployment, run) + lift_all(reports);
    lemma_until_wait(task, deployment, run);
    lemma_replay_concat(job, until_wait(deployment, run), lift_all(reports));
    lemma_job_follows_wait(waiting, marked, wait, reports);
    pending_past_the_deadline_times_out(
        run,
        task.workflow_timeout,
        task.workflow_check_interval,
        readings,
        last,
    );
    lemma_failure_is_recorded(job, events, deployment, DeployErrorView::Timeout);
}

} // verus!
