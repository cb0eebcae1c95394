use vstd::prelude::*;
use crate::server::{
    command_bytes, exit_result, ActionView, EventView, Outcome, Phase, Supervisor,
    SupervisorErrorView, STOP_COMMAND,
};

verus! {

/// The supervisor after the given events, taken in order.
pub open spec fn after(s: Supervisor, events: Seq<EventView>) -> Supervisor
    decreases events.len(),
{
    if events.len() == 0 {
        s
    } else {
        after(s.next(events[0]).0, events.drop_first())
    }
}

/// All that the supervisor has written to the server's input over the given
/// events, in order.
pub open spec fn written(s: Supervisor, events: Seq<EventView>) -> Seq<u8>
    decreases events.len(),
{
    if events.len() == 0 {
        Seq::empty()
    } else {
        let (then, action) = s.next(events[0]);
        match action {
            ActionView::Write(bytes) => bytes + written(then, events.drop_first()),
            _ => written(then, events.drop_first()),
        }
    }
}

/// How often the supervisor has queued the stop command over the given
/// events.
pub open spec fn stops(s: Supervisor, events: Seq<EventView>) -> nat
    decreases events.len(),
{
    if events.len() == 0 {
        0
    } else {
        let (then, action) = s.next(events[0]);
        if action is Stop {
            1 + stops(then, events.drop_first())
        } else {
            stops(then, events.drop_first())
        }
    }
}

/// The arrival of each of the given lines, in order.
pub open spec fn arrivals(lines: Seq<Seq<char>>) -> Seq<EventView> {
    Seq::new(lines.len(), |i: int| EventView::Line(lines[i]))
}

/// What the given lines amount to on the server's input: each line followed
/// by a line feed, in order.
pub open spec fn input_of(lines: Seq<Seq<char>>) -> Seq<u8>
    decreases lines.len(),
{
    if lines.len() == 0 {
        Seq::empty()
    } else {
        command_bytes(lines[0]) + input_of(lines.drop_first())
    }
}

/// What is written over two runs of events is what is written over the first,
/// then what is written over the second from where the first ended.
pub proof fn lemma_written_splits(s: Supervisor, first: Seq<EventView>, second: Seq<EventView>)
    ensures
        written(s, first + second) == written(s, first) + written(after(s, first), second),
        after(s, first + second) == after(after(s, first), second),
    decreases first.len(),
{
    if first.len() == 0 {
        assert(first + second =~= second);
    } else {
        let then = s.next(first[0]).0;
        assert((first + second).drop_first() =~= first.drop_first() + second);
        lemma_written_splits(then, first.drop_first(), second);
        assert(written(s, first + second) =~= written(s, first) + written(
            after(s, first),
            second,
        ));
    }
}

/// Lines that arrive while the input is open are written through, each with
/// its line feed, in the order of their arrival, and change nothing else.
pub proof fn lemma_lines_are_written_in_order(s: Supervisor, lines: Seq<Seq<char>>)
    requires
        s.phase is Running || s.phase is ShuttingDown || s.phase is Killing,
        s.input_open,
    ensures
        written(s, arrivals(lines)) == input_of(lines),
        after(s, arrivals(lines)) == s,
    decreases lines.len(),
{
    if lines.len() > 0 {
        assert(arrivals(lines).drop_first() =~= arrivals(lines.drop_first()));
        lemma_lines_are_written_in_order(s, lines.drop_first());
    }
}

/// Ordering of the stop command. Where lines have arrived before a
/// termination signal, the signal has the stop command queued behind them;
/// once that command comes off the channel in its turn, the server's input
/// has received every line and then the stop command, in that order.
pub proof fn lemma_stop_follows_queued_lines(s: Supervisor, lines: Seq<Seq<char>>)
    requires
        s.phase is Running,
        s.input_open,
    ensures
        after(s, arrivals(lines)).next(EventView::Terminate) == (
            s.at(Phase::ShuttingDown),
            ActionView::Stop { line: STOP_COMMAND@, timeout: s.shutdown_timeout },
        ),
        written(
            s,
            arrivals(lines) + seq![EventView::Terminate, EventView::Line(STOP_COMMAND@)],
        ) == input_of(lines) + command_bytes(STOP_COMMAND@),
{
    let tail = seq![EventView::Terminate, EventView::Line(STOP_COMMAND@)];
    lemma_lines_are_written_in_order(s, lines);
    lemma_written_splits(s, arrivals(lines), tail);
    let down = s.at(Phase::ShuttingDown);
    assert(tail.drop_first() =~= seq![EventView::Line(STOP_COMMAND@)]);
    assert(tail.drop_first().drop_first() =~= Seq::<EventView>::empty());
    assert(written(down, tail.drop_first()) =~= command_bytes(STOP_COMMAND@)) by {
        assert(written(down.next(tail.drop_first()[0]).0, tail.drop_first().drop_first())
            =~= Seq::<u8>::empty());
    }
    assert(written(s, tail) =~= command_bytes(STOP_COMMAND@));
}

/// A run never goes back: once the server is being shut down, it is no longer
/// simply running, and once the run has ended it stays ended.
pub open spec fn rank(phase: Phase) -> int {
    match phase {
        Phase::Starting => 0,
        Phase::Running => 1,
        Phase::ShuttingDown => 2,
        Phase::Killing => 3,
        Phase::Exited => 4,
    }
}

/// No event takes a run back to an earlier phase.
pub proof fn lemma_phases_only_advance(s: Supervisor, events: Seq<EventView>)
    ensures
        rank(s.phase) <= rank(after(s, events).phase),
        after(s, events).shutdown_timeout == s.shutdown_timeout,
    decreases events.len(),
{
    if events.len() > 0 {
        lemma_phases_only_advance(s.next(events[0]).0, events.drop_first());
    }
}

/// The stop command is queued at most once in a run, and never after the
/// shutdown has begun.
pub proof fn lemma_stop_is_queued_once(s: Supervisor, events: Seq<EventView>)
    ensures
        stops(s, events) <= 1,
        rank(s.phase) >= 2 ==> stops(s, events) == 0,
    decreases events.len(),
{
    if events.len() > 0 {
        lemma_stop_is_queued_once(s.next(events[0]).0, events.drop_first());
    }
}

/// Natural exit. A server that exits by itself while it runs ends the run: as
/// a success where its status is zero, and otherwise as an abnormal exit that
/// carries the status.
pub proof fn lemma_natural_exit(s: Supervisor, status: Option<i32>)
    requires
        s.phase is Running,
    ensures
        s.next(EventView::Exited(status)) == s.finished(exit_result(status)),
        status == Some(0i32) ==> s.next(EventView::Exited(status)).1 == ActionView::Finish(
            Ok(Outcome::Success),
        ),
        status != Some(0i32) ==> s.next(EventView::Exited(status)).1 == ActionView::Finish(
            Err(SupervisorErrorView::AbnormalExit { status }),
        ),
{
}

/// Shutdown by timeout. After a termination signal, a server that does not
/// exit before the timer runs out is killed, whatever lines arrive meanwhile,
/// and the run ends as a forced termination; the timer is the configured one.
pub proof fn lemma_timeout_forces_termination(s: Supervisor, lines: Seq<Seq<char>>)
    requires
        s.phase is Running,
    ensures
        ({
            let (down, stop) = s.next(EventView::Terminate);
            let waiting = after(down, arrivals(lines));
            let (killing, kill) = waiting.next(EventView::TimedOut);
            &&& stop == (ActionView::Stop { line: STOP_COMMAND@, timeout: s.shutdown_timeout })
            &&& down.phase is ShuttingDown
            &&& kill == ActionView::Kill
            &&& killing.next(EventView::Killed).1 == ActionView::Finish(
                Ok(Outcome::ForcedTermination),
            )
            &&& killing.next(EventView::Killed).0.phase is Exited
        }),
{
    let down = s.next(EventView::Terminate).0;
    lemma_lines_keep_phase(down, lines);
}

/// Lines that arrive change neither the phase nor the timer.
pub proof fn lemma_lines_keep_phase(s: Supervisor, lines: Seq<Seq<char>>)
    ensures
        after(s, arrivals(lines)) == s,
    decreases lines.len(),
{
    if lines.len() > 0 {
        assert(arrivals(lines).drop_first() =~= arrivals(lines.drop_first()));
        lemma_lines_keep_phase(s, lines.drop_first());
    }
}

/// An exit during the shutdown is a success, whatever the status.
pub proof fn lemma_exit_during_shutdown_is_graceful(s: Supervisor, status: Option<i32>)
    requires
        s.phase is ShuttingDown,
    ensures
        s.next(EventView::Exited(status)).1 == ActionView::Finish(Ok(Outcome::Success)),
        s.next(EventView::Terminate) == (s, ActionView::Wait),
{
}

} // verus!
