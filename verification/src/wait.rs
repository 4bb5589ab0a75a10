//! Waiting for a run of the external workflow to end.
//!
//! The workflow service only answers questions about a run, so its end has to
//! be waited for: ask for the status at once, and as long as no end is known
//! and the time allowed has not passed, sleep for the poll interval and ask
//! again. The wait ends in one of three ways: the run succeeded, the run
//! failed, or a query that brings no end is answered after more than the
//! time allowed. A query that fails brings no end: it says nothing of the
//! run, and the wait goes on as if the run had been found still going.
//!
//! A [`Wait`] holds the decisions only. Whoever drives it performs the
//! [`WaitAction`] that is pending, measures the time, and hands back a
//! [`WaitEvent`].

use vstd::prelude::*;
use crate::error::{DeployError, DeployErrorView};
use crate::span::Span;

verus! {

/// Names one run of the external workflow: all that is needed to ask for its
/// status.
#[derive(Clone, Copy, Debug, PartialEq, Eq, Structural)]
pub struct RunHandle {
    pub id: u64,
}

/// What the workflow service says of a run.
#[derive(Debug, Clone, PartialEq, Eq)]
pub enum RunStatus {
    /// The run has not ended yet.
    Pending,
    /// The run ended well.
    Succeeded,
    /// The run ended badly, for the cause given.
    Failed(String),
}

/// The mathematical value of a [`RunStatus`].
pub enum RunStatusView {
    Pending,
    Succeeded,
    Failed(Seq<char>),
}

impl View for RunStatus {
    type V = RunStatusView;

    open spec fn view(&self) -> RunStatusView {
        match self {
            RunStatus::Pending => RunStatusView::Pending,
            RunStatus::Succeeded => RunStatusView::Succeeded,
            RunStatus::Failed(cause) => RunStatusView::Failed(cause@),
        }
    }
}

/// The mathematical value of the answer to a status query: the status, or
/// the reason why the service could not be asked.
pub open spec fn answer_view(answer: Result<RunStatus, String>) -> Result<
    RunStatusView,
    Seq<char>,
> {
    match answer {
        Ok(status) => Ok(status@),
        Err(cause) => Err(cause@),
    }
}

/// What the driver of a wait has to do next.
#[derive(Clone, Copy, Debug, PartialEq, Eq, Structural)]
pub enum WaitAction {
    /// Ask the workflow service for the status of `run`.
    Poll { run: RunHandle },
    /// Let `duration` pass without doing anything.
    Sleep { duration: Span },
}

/// What the driver of a wait reports back.
#[derive(Debug, PartialEq, Eq)]
pub enum WaitEvent {
    /// The status query returned `status`, or failed for the reason given.
    /// `elapsed` is the time that had passed since the wait began when it
    /// returned.
    Polled { status: Result<RunStatus, String>, elapsed: Span },
    /// The sleep is over.
    Slept,
}

/// The mathematical value of a [`WaitEvent`].
pub enum WaitEventView {
    Polled { status: Result<RunStatusView, Seq<char>>, elapsed: Span },
    Slept,
}

impl View for WaitEvent {
    type V = WaitEventView;

    open spec fn view(&self) -> WaitEventView {
        match self {
            WaitEvent::Polled { status, elapsed } => WaitEventView::Polled {
                status: answer_view(*status),
                elapsed: *elapsed,
            },
            WaitEvent::Slept => WaitEventView::Slept,
        }
    }
}

/// A wait that has not ended: which run it watches, how long it may take,
/// how long it rests between two queries, and whose turn it is.
#[derive(Clone, Copy, Debug, PartialEq, Eq, Structural)]
pub struct Wait {
    pub run: RunHandle,
    /// The time allowed. A run found still going later than this has timed
    /// out.
    pub timeout: Span,
    /// The rest between two status queries.
    pub interval: Span,
    /// `true` while a sleep is pending, `false` while a query is.
    pub sleeping: bool,
}

/// Where a wait stands after an event.
#[derive(Debug, PartialEq, Eq)]
pub enum WaitStep {
    /// The wait goes on from the state given.
    Continue(Wait),
    /// The wait is over, with the result given.
    Done(Result<(), DeployError>),
}

/// The mathematical value of a [`WaitStep`].
pub enum WaitStepView {
    Continue(Wait),
    Done(Result<(), DeployErrorView>),
}

impl View for WaitStep {
    type V = WaitStepView;

    open spec fn view(&self) -> WaitStepView {
        match self {
            WaitStep::Continue(wait) => WaitStepView::Continue(*wait),
            WaitStep::Done(Ok(())) => WaitStepView::Done(Ok(())),
            WaitStep::Done(Err(error)) => WaitStepView::Done(Err(error@)),
        }
    }
}

impl Wait {
    /// The wait at its beginning: the first status query is pending, no sleep
    /// comes before it.
    pub open spec fn begin(run: RunHandle, timeout: Span, interval: Span) -> Wait {
        Wait { run, timeout, interval, sleeping: false }
    }

    /// The action the driver has to perform in this state.
    pub open spec fn pending_action(self) -> WaitAction {
        if self.sleeping {
            WaitAction::Sleep { duration: self.interval }
        } else {
            WaitAction::Poll { run: self.run }
        }
    }

    /// Whether `event` reports on the action that is pending.
    pub open spec fn answers(self, event: WaitEventView) -> bool {
        match event {
            WaitEventView::Polled { .. } => !self.sleeping,
            WaitEventView::Slept => self.sleeping,
        }
    }

    /// The wait after the answer to a status query, when a query was pending.
    /// The end of the run ends the wait. Any other answer, a failed query
    /// among them, is held against the time allowed: past it the wait has
    /// timed out, within it a sleep is due.
    pub open spec fn after_poll(self, status: Result<RunStatusView, Seq<char>>, elapsed: Span)
        -> WaitStepView {
        match status {
            Ok(RunStatusView::Succeeded) => WaitStepView::Done(Ok(())),
            Ok(RunStatusView::Failed(cause)) => WaitStepView::Done(
                Err(DeployErrorView::ExternalRunFailed(cause)),
            ),
            Ok(RunStatusView::Pending) | Err(_) => if elapsed.nanos > self.timeout.nanos {
                WaitStepView::Done(Err(DeployErrorView::Timeout))
            } else {
                WaitStepView::Continue(Wait { sleeping: true, ..self })
            },
        }
    }

    /// The wait after `event`. An event that does not answer the pending
    /// action changes nothing.
    pub open spec fn step(self, event: WaitEventView) -> WaitStepView {
        if !self.answers(event) {
            WaitStepView::Continue(self)
        } else {
            match event {
                WaitEventView::Polled { status, elapsed } => self.after_poll(status, elapsed),
                WaitEventView::Slept => WaitStepView::Continue(Wait { sleeping: false, ..self }),
            }
        }
    }

    /// Where the wait stands after the events of `events`, taken in order.
    /// Once the wait is over, what follows is not looked at.
    pub open spec fn replay(self, events: Seq<WaitEventView>) -> WaitStepView
        decreases events.len(),
    {
        if events.len() == 0 {
            WaitStepView::Continue(self)
        } else {
            match self.step(events.first()) {
                WaitStepView::Continue(next) => next.replay(events.drop_first()),
                WaitStepView::Done(result) => WaitStepView::Done(result),
            }
        }
    }

    /// The actions a driver performs, in order, when its reports are
    /// `events`: the action pending now, then, after each report that leaves
    /// the wait going, the action pending then.
    pub open spec fn actions(self, events: Seq<WaitEventView>) -> Seq<WaitAction>
        decreases events.len(),
    {
        if events.len() == 0 {
            seq![self.pending_action()]
        } else {
            match self.step(events.first()) {
                WaitStepView::Continue(next) => seq![self.pending_action()] + next.actions(
                    events.drop_first(),
                ),
                WaitStepView::Done(_) => seq![self.pending_action()],
            }
        }
    }

    /// Begins the wait for `run`. The first action is a status query.
    pub fn new(run: RunHandle, timeout: Span, interval: Span) -> (wait: Wait)
        ensures
            wait == Wait::begin(run, timeout, interval),
    {
        Wait { run, timeout, interval, sleeping: false }
    }

    /// The action the driver has to perform now.
    pub fn pending(&self) -> (action: WaitAction)
        ensures
            action == self.pending_action(),
    {
        if self.sleeping {
            WaitAction::Sleep { duration: self.interval }
        } else {
            WaitAction::Poll { run: self.run }
        }
    }

    /// Whether `event` reports on the action that is pending.
    pub fn accepts(&self, event: &WaitEvent) -> (yes: bool)
        ensures
            yes == self.answers(event@),
    {
        match event {
            WaitEvent::Polled { .. } => !self.sleeping,
            WaitEvent::Slept => self.sleeping,
        }
    }

    /// Takes the driver's report and decides how the wait goes on.
    ///
    /// After a status query: success ends the wait well, and a failed run
    /// ends it with the cause that was reported. A run still going, and
    /// likewise a query that failed, ends the wait with
    /// [`DeployError::Timeout`] when `elapsed` is more than the time allowed,
    /// and otherwise orders a sleep. After a sleep the next query is due. A
    /// report on an action that is not pending is ignored.
    pub fn handle(self, event: WaitEvent) -> (step: WaitStep)
        ensures
            step@ == self.step(event@),
    {
        match event {
            WaitEvent::Polled { status, elapsed } => {
                if self.sleeping {
                    WaitStep::Continue(self)
                } else {
                    match status {
                        Ok(RunStatus::Succeeded) => WaitStep::Done(Ok(())),
                        Ok(RunStatus::Failed(cause)) => WaitStep::Done(
                            Err(DeployError::ExternalRunFailed(cause)),
                        ),
                        Ok(RunStatus::Pending) | Err(_) => {
                            if elapsed.exceeds(self.timeout) {
                                WaitStep::Done(Err(DeployError::Timeout))
                            } else {
                                WaitStep::Continue(Wait { sleeping: true, ..self })
                            }
                        },
                    }
                }
            },
            WaitEvent::Slept => {
                if self.sleeping {
                    WaitStep::Continue(Wait { sleeping: false, ..self })
                } else {
                    WaitStep::Continue(self)
                }
            },
        }
    }
}

} // verus!
