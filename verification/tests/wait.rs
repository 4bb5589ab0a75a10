use scoutcloud::error::DeployError;
use scoutcloud::span::Span;
use scoutcloud::wait::{RunHandle, RunStatus, Wait, WaitAction, WaitEvent, WaitStep};

const RUN: RunHandle = RunHandle { id: 77 };

fn polled(status: RunStatus, secs: u64) -> WaitEvent {
    WaitEvent::Polled { status: Ok(status), elapsed: Span::from_secs(secs) }
}

/// Drives a wait against a service that answers `answers` in order, with a
/// clock that moves only while the driver sleeps. Gives back the result,
/// the number of queries and the sleeps that were made.
fn drive(
    timeout: Span,
    interval: Span,
    answers: Vec<Result<RunStatus, String>>,
) -> (Result<(), DeployError>, usize, Vec<Span>) {
    let mut wait = Wait::new(RUN, timeout, interval);
    let mut answers = answers.into_iter();
    let mut clock: u128 = 0;
    let mut polls = 0;
    let mut sleeps = Vec::new();
    for _ in 0..10_000 {
        let event = match wait.pending() {
            WaitAction::Poll { run } => {
                assert_eq!(run, RUN);
                polls += 1;
                let status = answers.next().unwrap_or(Ok(RunStatus::Pending));
                WaitEvent::Polled { status, elapsed: Span::from_nanos(clock) }
            }
            WaitAction::Sleep { duration } => {
                clock += duration.nanos;
                sleeps.push(duration);
                WaitEvent::Slept
            }
        };
        assert!(wait.accepts(&event));
        match wait.handle(event) {
            WaitStep::Continue(next) => wait = next,
            WaitStep::Done(result) => return (result, polls, sleeps),
        }
    }
    panic!("the wait did not end");
}

#[test]
fn wait_begins_with_a_query() {
    let wait = Wait::new(RUN, Span::from_secs(10), Span::from_secs(5));
    assert_eq!(wait.run, RUN);
    assert_eq!(wait.timeout, Span::from_secs(10));
    assert_eq!(wait.interval, Span::from_secs(5));
    assert!(!wait.sleeping);
    assert_eq!(wait.pending(), WaitAction::Poll { run: RUN });
    assert!(wait.accepts(&polled(RunStatus::Pending, 0)));
    assert!(!wait.accepts(&WaitEvent::Slept));
}

#[test]
fn wait_success_on_first_poll_makes_one_query() {
    let (result, polls, sleeps) =
        drive(Span::from_secs(10), Span::from_secs(5), vec![Ok(RunStatus::Succeeded)]);
    assert_eq!(result, Ok(()));
    assert_eq!(polls, 1);
    assert!(sleeps.is_empty());
}

#[test]
fn wait_success_on_third_poll_makes_three_queries() {
    let (result, polls, sleeps) = drive(
        Span::from_secs(10),
        Span::from_secs(5),
        vec![Ok(RunStatus::Pending), Ok(RunStatus::Pending), Ok(RunStatus::Succeeded)],
    );
    assert_eq!(result, Ok(()));
    assert_eq!(polls, 3);
    assert_eq!(sleeps, vec![Span::from_secs(5), Span::from_secs(5)]);
}

#[test]
fn wait_success_on_nth_poll_makes_n_queries() {
    for n in 1..=20usize {
        let mut answers = vec![Ok(RunStatus::Pending); n - 1];
        answers.push(Ok(RunStatus::Succeeded));
        let (result, polls, sleeps) = drive(Span::from_secs(600), Span::from_secs(5), answers);
        assert_eq!(result, Ok(()));
        assert_eq!(polls, n);
        assert_eq!(sleeps, vec![Span::from_secs(5); n - 1]);
    }
}

#[test]
fn wait_sleeps_between_two_queries() {
    let wait = Wait::new(RUN, Span::from_secs(10), Span::from_secs(5));
    let asleep = match wait.handle(polled(RunStatus::Pending, 0)) {
        WaitStep::Continue(next) => next,
        WaitStep::Done(result) => panic!("ended with {:?}", result),
    };
    assert!(asleep.sleeping);
    assert_eq!(asleep.pending(), WaitAction::Sleep { duration: Span::from_secs(5) });
    assert!(asleep.accepts(&WaitEvent::Slept));
    assert!(!asleep.accepts(&polled(RunStatus::Succeeded, 0)));
    let awake = match asleep.handle(WaitEvent::Slept) {
        WaitStep::Continue(next) => next,
        WaitStep::Done(result) => panic!("ended with {:?}", result),
    };
    assert_eq!(awake, wait);
    assert_eq!(awake.pending(), WaitAction::Poll { run: RUN });
}

#[test]
fn wait_reports_the_cause_of_a_failed_run() {
    let (result, polls, sleeps) = drive(
        Span::from_secs(10),
        Span::from_secs(5),
        vec![
            Ok(RunStatus::Pending),
            Ok(RunStatus::Failed("job cleanup exited with 1".to_string())),
        ],
    );
    assert_eq!(
        result,
        Err(DeployError::ExternalRunFailed("job cleanup exited with 1".to_string()))
    );
    assert_eq!(polls, 2);
    assert_eq!(sleeps, vec![Span::from_secs(5)]);
}

#[test]
fn wait_goes_on_after_a_query_that_failed() {
    let wait = Wait::new(RUN, Span::from_secs(10), Span::from_secs(5));
    let unanswered =
        WaitEvent::Polled { status: Err("502 bad gateway".to_string()), elapsed: Span::from_secs(5) };
    assert_eq!(wait.handle(unanswered), WaitStep::Continue(Wait { sleeping: true, ..wait }));

    let (result, polls, sleeps) = drive(
        Span::from_secs(10),
        Span::from_secs(5),
        vec![Err("connection refused".to_string()), Ok(RunStatus::Succeeded)],
    );
    assert_eq!(result, Ok(()));
    assert_eq!(polls, 2);
    assert_eq!(sleeps, vec![Span::from_secs(5)]);
}

#[test]
fn wait_times_out_when_no_query_is_ever_answered() {
    let (result, polls, sleeps) = drive(
        Span::from_secs(10),
        Span::from_secs(5),
        vec![Err("connection refused".to_string()); 10],
    );
    assert_eq!(result, Err(DeployError::Timeout));
    assert_eq!(polls, 4);
    assert_eq!(sleeps, vec![Span::from_secs(5); 3]);
}

#[test]
fn wait_times_out_within_one_interval_of_the_time_allowed() {
    let (result, polls, sleeps) = drive(Span::from_secs(10), Span::from_secs(5), vec![]);
    assert_eq!(result, Err(DeployError::Timeout));
    // Queries at 0 s, 5 s, 10 s and 15 s: the first three are in time.
    assert_eq!(polls, 4);
    assert_eq!(sleeps, vec![Span::from_secs(5); 3]);
    let waited: u128 = sleeps.iter().map(|sleep| sleep.nanos).sum();
    assert_eq!(waited, 15_000_000_000);
    assert!(waited <= Span::from_secs(10).nanos + Span::from_secs(5).nanos);
}

#[test]
fn wait_with_uneven_timing_overruns_by_less_than_an_interval() {
    let (result, polls, sleeps) = drive(Span::from_secs(10), Span::from_secs(4), vec![]);
    assert_eq!(result, Err(DeployError::Timeout));
    // Queries at 0 s, 4 s, 8 s and 12 s.
    assert_eq!(polls, 4);
    let waited: u128 = sleeps.iter().map(|sleep| sleep.nanos).sum();
    assert_eq!(waited, 12_000_000_000);
    assert!(waited <= Span::from_secs(10).nanos + Span::from_secs(4).nanos);
}

#[test]
fn wait_at_exactly_the_time_allowed_goes_on() {
    let wait = Wait::new(RUN, Span::from_secs(10), Span::from_secs(5));
    assert_eq!(
        wait.handle(polled(RunStatus::Pending, 10)),
        WaitStep::Continue(Wait { sleeping: true, ..wait })
    );
    assert_eq!(
        wait.handle(WaitEvent::Polled {
            status: Ok(RunStatus::Pending),
            elapsed: Span::from_nanos(10_000_000_001),
        }),
        WaitStep::Done(Err(DeployError::Timeout))
    );
}

#[test]
fn wait_with_no_time_allowed_still_asks_once() {
    let (result, polls, sleeps) =
        drive(Span::from_secs(0), Span::from_secs(5), vec![Ok(RunStatus::Succeeded)]);
    assert_eq!(result, Ok(()));
    assert_eq!(polls, 1);
    assert!(sleeps.is_empty());

    let (result, polls, sleeps) = drive(Span::from_secs(0), Span::from_secs(5), vec![]);
    assert_eq!(result, Err(DeployError::Timeout));
    assert_eq!(polls, 2);
    assert_eq!(sleeps, vec![Span::from_secs(5)]);
}

#[test]
fn wait_takes_an_end_that_is_found_late() {
    let wait = Wait::new(RUN, Span::from_secs(10), Span::from_secs(5));
    assert_eq!(wait.handle(polled(RunStatus::Succeeded, 3600)), WaitStep::Done(Ok(())));
    assert_eq!(
        wait.handle(polled(RunStatus::Failed("late".to_string()), 3600)),
        WaitStep::Done(Err(DeployError::ExternalRunFailed("late".to_string())))
    );
}

#[test]
fn wait_ignores_a_report_out_of_turn() {
    let wait = Wait::new(RUN, Span::from_secs(10), Span::from_secs(5));
    assert_eq!(wait.handle(WaitEvent::Slept), WaitStep::Continue(wait));
    let asleep = Wait { sleeping: true, ..wait };
    assert_eq!(asleep.handle(polled(RunStatus::Succeeded, 1)), WaitStep::Continue(asleep));
    let unanswered =
        WaitEvent::Polled { status: Err("x".to_string()), elapsed: Span::from_secs(99) };
    assert_eq!(asleep.handle(unanswered), WaitStep::Continue(asleep));
}

#[test]
fn wait_queries_are_an_interval_apart() {
    let interval = Span::from_secs(5);
    let mut wait = Wait::new(RUN, Span::from_secs(60), interval);
    let mut clock: u128 = 0;
    let mut asked_at: Vec<u128> = Vec::new();
    let result = loop {
        let event = match wait.pending() {
            WaitAction::Poll { .. } => {
                asked_at.push(clock);
                let status =
                    if asked_at.len() == 7 { RunStatus::Succeeded } else { RunStatus::Pending };
                WaitEvent::Polled { status: Ok(status), elapsed: Span::from_nanos(clock) }
            }
            WaitAction::Sleep { duration } => {
                clock += duration.nanos;
                WaitEvent::Slept
            }
        };
        match wait.handle(event) {
            WaitStep::Continue(next) => wait = next,
            WaitStep::Done(result) => break result,
        }
    };
    assert_eq!(result, Ok(()));
    assert_eq!(asked_at.len(), 7);
    for pair in asked_at.windows(2) {
        assert!(pair[1] - pair[0] >= interval.nanos);
        assert_eq!(pair[1] - pair[0], 5_000_000_000);
    }
}
