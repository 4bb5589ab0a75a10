//! What holds of every wait, proved from the wait's definition.

use vstd::prelude::*;
use crate::error::DeployErrorView;
use crate::span::Span;
use crate::wait::{RunHandle, RunStatusView, Wait, WaitAction, WaitEventView, WaitStepView};

verus! {

/// The report that a query found the run still going at `elapsed`.
pub open spec fn still_going(elapsed: Span) -> WaitEventView {
    WaitEventView::Polled { status: Ok(RunStatusView::Pending), elapsed }
}

/// The report that a query found the run succeeded at `elapsed`.
pub open spec fn succeeded(elapsed: Span) -> WaitEventView {
    WaitEventView::Polled { status: Ok(RunStatusView::Succeeded), elapsed }
}

/// The report that a query found the run failed for `cause` at `elapsed`.
pub open spec fn failed(cause: Seq<char>, elapsed: Span) -> WaitEventView {
    WaitEventView::Polled { status: Ok(RunStatusView::Failed(cause)), elapsed }
}

/// Whether none of `readings` is later than `limit`.
pub open spec fn within(readings: Seq<Span>, limit: Span) -> bool {
    forall|i: int| 0 <= i < readings.len() ==> (#[trigger] readings[i]).nanos <= limit.nanos
}

/// The reports of a driver that finds the run still going once for each of
/// `readings`, and sleeps after each.
pub open spec fn pending_rounds(readings: Seq<Span>) -> Seq<WaitEventView>
    decreases readings.len(),
{
    if readings.len() == 0 {
        Seq::empty()
    } else {
        seq![still_going(readings.first()), WaitEventView::Slept] + pending_rounds(
            readings.drop_first(),
        )
    }
}

/// `polls` queries for the status of `run`, with one sleep of `interval`
/// between each two.
pub open spec fn poll_schedule(run: RunHandle, interval: Span, polls: nat) -> Seq<WaitAction>
    decreases polls,
{
    if polls == 0 {
        Seq::empty()
    } else if polls == 1 {
        seq![WaitAction::Poll { run }]
    } else {
        seq![WaitAction::Poll { run }, WaitAction::Sleep { duration: interval }] + poll_schedule(
            run,
            interval,
            (polls - 1) as nat,
        )
    }
}

/// How many of `actions` are status queries.
pub open spec fn count_polls(actions: Seq<WaitAction>) -> nat
    decreases actions.len(),
{
    if actions.len() == 0 {
        0
    } else if actions.first() is Poll {
        1 + count_polls(actions.drop_first())
    } else {
        count_polls(actions.drop_first())
    }
}

/// Whether the clock that gave `readings` ran as fast as the protocol alone
/// allows: the first query was answered within one `interval` of the wait's
/// beginning, and each later one within one `interval` of the one before.
/// That is a clock on which queries take no time and no sleep is overslept.
pub open spec fn paced(readings: Seq<Span>, interval: Span) -> bool {
    &&& readings.len() > 0 ==> readings[0].nanos <= interval.nanos
    &&& forall|i: int|
        0 < i < readings.len() ==> (#[trigger] readings[i]).nanos <= readings[i - 1].nanos
            + interval.nanos
}

/// Whether the clock that gave `readings` ran no faster than a sleep
/// allows: each query after the first was answered one `interval` or more
/// after the one before.
pub open spec fn rested(readings: Seq<Span>, interval: Span) -> bool {
    forall|i: int|
        0 < i < readings.len() ==> (#[trigger] readings[i]).nanos >= readings[i - 1].nanos
            + interval.nanos
}

/// One round in which the run is found still going in time leaves the wait
/// as it was, and costs one query and one sleep of the poll interval.
proof fn lemma_round(wait: Wait, reading: Span, rest: Seq<WaitEventView>)
    requires
        !wait.sleeping,
        reading.nanos <= wait.timeout.nanos,
    ensures
        wait.replay(seq![still_going(reading), WaitEventView::Slept] + rest) == wait.replay(rest),
        wait.actions(seq![still_going(reading), WaitEventView::Slept] + rest) == seq![
            WaitAction::Poll { run: wait.run },
            WaitAction::Sleep { duration: wait.interval },
        ] + wait.actions(rest),
{
    let events = seq![still_going(reading), WaitEventView::Slept] + rest;
    let asleep = Wait { sleeping: true, ..wait };
    let tail = events.drop_first();
    assert(events.first() == still_going(reading));
    assert(wait.step(events.first()) == WaitStepView::Continue(asleep));
    assert(tail.first() == WaitEventView::Slept);
    assert(asleep.step(tail.first()) == WaitStepView::Continue(wait));
    assert(tail.drop_first() =~= rest);
    assert(wait.replay(events) == asleep.replay(tail));
    assert(asleep.replay(tail) == wait.replay(rest));
    assert(wait.actions(events) == seq![wait.pending_action()] + asleep.actions(tail));
    assert(asleep.actions(tail) == seq![asleep.pending_action()] + wait.actions(rest));
    assert(seq![wait.pending_action()] + (seq![asleep.pending_action()] + wait.actions(rest))
        =~= seq![
        WaitAction::Poll { run: wait.run },
        WaitAction::Sleep { duration: wait.interval },
    ] + wait.actions(rest));
}

/// Rounds in which the run is found still going in time leave the wait as it
/// was. What the driver did in them is one query and one sleep for each.
proof fn lemma_rounds(wait: Wait, readings: Seq<Span>, last: WaitEventView)
    requires
        !wait.sleeping,
        within(readings, wait.timeout),
        last is Polled,
        !(wait.step(last) is Continue),
    ensures
        wait.replay(pending_rounds(readings).push(last)) == wait.step(last),
        wait.actions(pending_rounds(readings).push(last)) == poll_schedule(
            wait.run,
            wait.interval,
            readings.len() + 1,
        ),
    decreases readings.len(),
{
    let events = pending_rounds(readings).push(last);
    if readings.len() == 0 {
        assert(events =~= seq![last]);
        assert(events.first() == last);
        assert(events.drop_first() =~= Seq::<WaitEventView>::empty());
        assert(wait.replay(events) == wait.step(last));
        assert(wait.actions(events) == seq![wait.pending_action()]);
    } else {
        let rest = pending_rounds(readings.drop_first()).push(last);
        assert(readings.first() == readings[0]);
        assert(within(readings.drop_first(), wait.timeout)) by {
            assert forall|i: int| 0 <= i < readings.drop_first().len() implies (
            #[trigger] readings.drop_first()[i]).nanos <= wait.timeout.nanos by {
                assert(readings.drop_first()[i] == readings[i + 1]);
            }
        }
        assert(events =~= seq![still_going(readings.first()), WaitEventView::Slept] + rest);
        lemma_round(wait, readings.first(), rest);
        lemma_rounds(wait, readings.drop_first(), last);
        assert(readings.drop_first().len() + 1 == readings.len());
    }
}

/// A schedule of `polls` queries holds `polls` queries.
pub proof fn schedule_holds_its_polls(run: RunHandle, interval: Span, polls: nat)
    ensures
        count_polls(poll_schedule(run, interval, polls)) == polls,
        polls > 0 ==> poll_schedule(run, interval, polls).len() == 2 * polls - 1,
    decreases polls,
{
    let schedule = poll_schedule(run, interval, polls);
    if polls == 0 {
    } else if polls == 1 {
        assert(schedule.drop_first() =~= Seq::<WaitAction>::empty());
    } else {
        let rest = poll_schedule(run, interval, (polls - 1) as nat);
        schedule_holds_its_polls(run, interval, (polls - 1) as nat);
        let tail = schedule.drop_first();
        assert(schedule.first() is Poll);
        assert(tail.first() is Sleep);
        assert(tail.drop_first() =~= rest);
        assert(count_polls(schedule) == 1 + count_polls(tail));
        assert(count_polls(tail) == count_polls(rest));
    }
}

/// In a schedule the queries stand at the even places and the sleeps, each
/// of the poll interval, at the odd ones: no two queries follow each other
/// without a sleep between them.
pub proof fn schedule_alternates(run: RunHandle, interval: Span, polls: nat, place: int)
    requires
        0 <= place < poll_schedule(run, interval, polls).len(),
    ensures
        place % 2 == 0 ==> poll_schedule(run, interval, polls)[place] == (WaitAction::Poll { run }),
        place % 2 == 1 ==> poll_schedule(run, interval, polls)[place] == (WaitAction::Sleep {
            duration: interval,
        }),
    decreases polls,
{
    if polls >= 2 && place >= 2 {
        schedule_alternates(run, interval, (polls - 1) as nat, place - 2);
    }
}

/// A run that is found still going at each of `readings`, none of them past
/// the time allowed, and is then found succeeded, ends the wait well. The
/// driver has then asked for the status exactly once more than there are
/// `readings`, and has slept for the poll interval between each two
/// queries.
pub proof fn success_on_nth_poll(
    run: RunHandle,
    timeout: Span,
    interval: Span,
    readings: Seq<Span>,
    last: Span,
)
    requires
        within(readings, timeout),
    ensures
        Wait::begin(run, timeout, interval).replay(pending_rounds(readings).push(succeeded(last)))
            == WaitStepView::Done(Ok(())),
        Wait::begin(run, timeout, interval).actions(pending_rounds(readings).push(succeeded(last)))
            == poll_schedule(run, interval, readings.len() + 1),
        count_polls(poll_schedule(run, interval, readings.len() + 1)) == readings.len() + 1,
{
    lemma_rounds(Wait::begin(run, timeout, interval), readings, succeeded(last));
    schedule_holds_its_polls(run, interval, readings.len() + 1);
}

/// A query that fails says nothing of the run: the wait goes on from it
/// exactly as it does from a query that finds the run still going.
pub proof fn a_failed_query_is_no_news(wait: Wait, reason: Seq<char>, elapsed: Span)
    ensures
        wait.step(WaitEventView::Polled { status: Err(reason), elapsed }) == wait.step(
            still_going(elapsed),
        ),
{
}

/// A run that is found failed ends the wait with the cause that the
/// workflow service reported, whenever that is.
pub proof fn failure_ends_the_wait(
    run: RunHandle,
    timeout: Span,
    interval: Span,
    readings: Seq<Span>,
    cause: Seq<char>,
    last: Span,
)
    requires
        within(readings, timeout),
    ensures
        Wait::begin(run, timeout, interval).replay(
            pending_rounds(readings).push(failed(cause, last)),
        ) == WaitStepView::Done(Err(DeployErrorView::ExternalRunFailed(cause))),
        Wait::begin(run, timeout, interval).actions(
            pending_rounds(readings).push(failed(cause, last)),
        ) == poll_schedule(run, interval, readings.len() + 1),
{
    lemma_rounds(Wait::begin(run, timeout, interval), readings, failed(cause, last));
}

/// A run that is still going at the first query answered past the time
/// allowed ends the wait with a timeout, and no sleep is ordered after that
/// query.
pub proof fn pending_past_the_deadline_times_out(
    run: RunHandle,
    timeout: Span,
    interval: Span,
    readings: Seq<Span>,
    last: Span,
)
    requires
        within(readings, timeout),
        last.nanos > timeout.nanos,
    ensures
        Wait::begin(run, timeout, interval).replay(pending_rounds(readings).push(still_going(last)))
            == WaitStepView::Done(Err(DeployErrorView::Timeout)),
        Wait::begin(run, timeout, interval).actions(
            pending_rounds(readings).push(still_going(last)),
        ) == poll_schedule(run, interval, readings.len() + 1),
{
    lemma_rounds(Wait::begin(run, timeout, interval), readings, still_going(last));
}

/// The wait outlasts the time allowed by one poll interval at most: when
/// queries take no time and sleeps are exact, the reading at which the
/// timeout is found is no later than the time allowed plus one interval.
pub proof fn deadline_is_overrun_by_one_interval_at_most(
    timeout: Span,
    interval: Span,
    readings: Seq<Span>,
    last: Span,
)
    requires
        within(readings, timeout),
        paced(readings.push(last), interval),
    ensures
        last.nanos <= timeout.nanos + interval.nanos,
{
    let all = readings.push(last);
    if readings.len() == 0 {
        assert(all[0] == last);
    } else {
        let place: int = readings.len() as int;
        assert(all[place] == last);
        assert(all[place - 1] == readings[place - 1]);
    }
}

/// On a clock that counts each sleep, the query at place `place` is
/// answered no earlier than after `place` intervals.
proof fn lemma_reading_is_late(readings: Seq<Span>, interval: Span, place: int)
    requires
        rested(readings, interval),
        0 <= place < readings.len(),
    ensures
        readings[place].nanos >= place * interval.nanos,
    decreases place,
{
    if place > 0 {
        lemma_reading_is_late(readings, interval, place - 1);
        assert(readings[place].nanos >= readings[place - 1].nanos + interval.nanos);
        assert((place - 1) * interval.nanos + interval.nanos == place * interval.nanos)
            by (nonlinear_arith);
    } else {
        assert(place * interval.nanos == 0) by (nonlinear_arith)
            requires
                place == 0,
        ;
    }
}

/// The wait is bounded. One sleep is ordered after each query that finds
/// the run still going in time, and on a clock that counts each sleep these
/// sleeps add up to no more than the time allowed and one poll interval.
/// One more query, and the wait is over.
pub proof fn the_wait_is_bounded(timeout: Span, interval: Span, readings: Seq<Span>)
    requires
        within(readings, timeout),
        rested(readings, interval),
    ensures
        readings.len() * interval.nanos <= timeout.nanos + interval.nanos,
{
    let rounds: int = readings.len() as int;
    if rounds == 0 {
        assert(rounds * interval.nanos == 0) by (nonlinear_arith)
            requires
                rounds == 0,
        ;
    } else {
        lemma_reading_is_late(readings, interval, rounds - 1);
        assert(rounds * interval.nanos == (rounds - 1) * interval.nanos + interval.nanos)
            by (nonlinear_arith);
    }
}

} // verus!
