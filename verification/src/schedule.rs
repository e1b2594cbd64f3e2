//! What holds of the supervisor whatever the order in which events reach it.

use crate::subproc::{
    exit_message, keep_last, push_line, ActionView, CommandView, RunEvent, ServerView,
    MAX_STDOUT_LINES,
};
use crate::text::join_lines;
use vstd::prelude::*;

verus! {

/// The state that a run of events leads to.
pub open spec fn after_events(start: ServerView, events: Seq<RunEvent>) -> ServerView
    decreases events.len(),
{
    if events.len() == 0 {
        start
    } else {
        after_events(start, events.drop_last()).step(events.last()).0
    }
}

/// The state after the child has written `lines`, one event per line.
pub open spec fn after_lines(start: ServerView, lines: Seq<Seq<char>>) -> ServerView
    decreases lines.len(),
{
    if lines.len() == 0 {
        start
    } else {
        after_lines(start, lines.drop_last()).on_line(lines.last()).0
    }
}

/// Whether `event`, met in `state`, reports that a child was started.
pub open spec fn starts_child(state: ServerView, event: RunEvent) -> bool {
    state.phase is Spawning && event is Spawned
}

/// Whether `event`, met in `state`, takes the live child away: it exited, an
/// operation on it failed, or the loop ended and dropped it.
pub open spec fn ends_child(state: ServerView, event: RunEvent) -> bool {
    state.phase is Running && (event is Exited || event is Failed || event is QueueClosed)
}

/// How many children were started in the course of `events`.
pub open spec fn children_started(start: ServerView, events: Seq<RunEvent>) -> nat
    decreases events.len(),
{
    if events.len() == 0 {
        0
    } else {
        let earlier = events.drop_last();
        children_started(start, earlier) + if starts_child(
            after_events(start, earlier),
            events.last(),
        ) {
            1nat
        } else {
            0nat
        }
    }
}

/// How many children were lost in the course of `events`.
pub open spec fn children_ended(start: ServerView, events: Seq<RunEvent>) -> nat
    decreases events.len(),
{
    if events.len() == 0 {
        0
    } else {
        let earlier = events.drop_last();
        children_ended(start, earlier) + if ends_child(after_events(start, earlier), events.last()) {
            1nat
        } else {
            0nat
        }
    }
}

/// Whether the loop, after it was answered `action` and left in `state`, can
/// report `event` next. A spawn is answered by its outcome; after any other
/// action the loop awaits a command, and while a child is alive also its
/// output and exit, or sees the operation on the child fail; once it has
/// been told to end it reports nothing.
pub open spec fn may_report(state: ServerView, action: ActionView, event: RunEvent) -> bool {
    match action {
        ActionView::Spawn(_) => event is Spawned || event is Failed,
        ActionView::Stop | ActionView::Fail => false,
        _ => if state.phase is Running {
            event is Command || event is QueueClosed || event is Line || event is Exited
                || event is Failed
        } else {
            event is Command || event is QueueClosed
        },
    }
}

/// Whether `events` is a run as the loop reports it: `Begin` first, and then
/// each event one that may follow the answer to the one before.
pub open spec fn orderly(start: ServerView, events: Seq<RunEvent>) -> bool
    decreases events.len(),
{
    if events.len() == 0 {
        true
    } else if events.len() == 1 {
        events.last() is Begin
    } else {
        let earlier = events.drop_last();
        let answer = after_events(start, earlier.drop_last()).step(earlier.last());
        orderly(start, earlier) && may_report(answer.0, answer.1, events.last())
    }
}

/// Whether `event` is taken in by a supervisor in `state`, rather than
/// passed over because it does not belong to the phase.
pub open spec fn taken_in(state: ServerView, event: RunEvent) -> bool {
    match event {
        RunEvent::Begin | RunEvent::Spawned => state.phase is Spawning,
        RunEvent::Command { .. } | RunEvent::QueueClosed => state.phase is Running
            || state.phase is Waiting,
        RunEvent::Line(_) | RunEvent::Exited(_) => state.phase is Running,
        RunEvent::Failed => state.phase is Spawning || state.phase is Running,
    }
}

/// In a run as the loop reports it, every event meets the supervisor in a
/// phase that takes it in: no command is dropped and no line is lost.
pub proof fn lemma_orderly_events_are_taken_in(command: CommandView, port: u16, events: Seq<RunEvent>)
    requires
        events.len() > 0,
        orderly(ServerView::initial(command, port), events),
    ensures
        taken_in(after_events(ServerView::initial(command, port), events.drop_last()), events.last()),
        ({
            let answer = after_events(ServerView::initial(command, port), events.drop_last()).step(
                events.last(),
            );
            &&& answer.1 is Spawn ==> answer.0.phase is Spawning
            &&& answer.1 is Stop || answer.1 is Fail <==> answer.0.phase is Stopped
            &&& answer.1 is Reload ==> answer.0.phase is Running
        }),
    decreases events.len(),
{
    if events.len() > 1 {
        let earlier = events.drop_last();
        lemma_orderly_events_are_taken_in(command, port, earlier);
        lemma_every_schedule_keeps_inv(command, port, earlier);
    }
}

/// A pushed line is the last of the buffer, and the buffer is within its
/// limit afterwards, however long it was.
pub proof fn lemma_push_line_bounded(ring: Seq<Seq<char>>, line: Seq<char>)
    ensures
        push_line(ring, line).len() <= MAX_STDOUT_LINES,
        push_line(ring, line).len() > 0,
        push_line(ring, line).last() == line,
{
}

/// One turn of the loop keeps the invariant: the buffer holds at most
/// `MAX_STDOUT_LINES` lines and the running flag is up exactly while a child
/// is alive.
pub proof fn lemma_step_keeps_inv(state: ServerView, event: RunEvent)
    requires
        state.inv(),
    ensures
        state.step(event).0.inv(),
{
    match event {
        RunEvent::Line(line) => {
            lemma_push_line_bounded(state.stdout, line@);
        },
        RunEvent::Exited(code) => {
            lemma_push_line_bounded(push_line(state.stdout, Seq::empty()), exit_message(code));
        },
        _ => {},
    }
}

/// Whatever the order of events, a supervisor never holds more than
/// `MAX_STDOUT_LINES` lines.
pub proof fn lemma_every_schedule_keeps_inv(command: CommandView, port: u16, events: Seq<RunEvent>)
    ensures
        after_events(ServerView::initial(command, port), events).inv(),
        after_events(ServerView::initial(command, port), events).stdout.len() <= MAX_STDOUT_LINES,
    decreases events.len(),
{
    if events.len() > 0 {
        lemma_every_schedule_keeps_inv(command, port, events.drop_last());
        lemma_step_keeps_inv(
            after_events(ServerView::initial(command, port), events.drop_last()),
            events.last(),
        );
    }
}

/// At every moment the running flag is up exactly when a child that was
/// started has not ended yet; there is never more than one such child.
pub proof fn lemma_running_means_live_child(command: CommandView, port: u16, events: Seq<RunEvent>)
    ensures
        ({
            let start = ServerView::initial(command, port);
            let now = after_events(start, events);
            &&& now.running <==> children_started(start, events) == children_ended(start, events)
                + 1
            &&& !now.running <==> children_started(start, events) == children_ended(start, events)
        }),
    decreases events.len(),
{
    if events.len() > 0 {
        lemma_running_means_live_child(command, port, events.drop_last());
        lemma_every_schedule_keeps_inv(command, port, events.drop_last());
    }
}

/// After a live child has written `lines`, the buffer holds the newest
/// `MAX_STDOUT_LINES` of what it held before followed by `lines`, in order,
/// and nothing else has changed.
pub proof fn lemma_lines_kept_in_order(start: ServerView, lines: Seq<Seq<char>>)
    requires
        start.inv(),
        start.phase is Running,
    ensures
        after_lines(start, lines) == (ServerView {
            stdout: keep_last(start.stdout + lines, MAX_STDOUT_LINES as nat),
            ..start
        }),
    decreases lines.len(),
{
    if lines.len() > 0 {
        let limit = MAX_STDOUT_LINES as nat;
        let earlier = lines.drop_last();
        lemma_lines_kept_in_order(start, earlier);
        assert(push_line(keep_last(start.stdout + earlier, limit), lines.last()) =~= keep_last(
            start.stdout + lines,
            limit,
        ));
    }
}

/// The text that `stdout` gives after a child, started with an empty buffer,
/// has written `lines`: the last `min(lines.len(), MAX_STDOUT_LINES)` of them,
/// in order, joined by line feeds.
pub proof fn lemma_stdout_shows_newest_lines(start: ServerView, lines: Seq<Seq<char>>)
    requires
        start.inv(),
        start.phase is Running,
        start.stdout.len() == 0,
    ensures
        ({
            let shown = if lines.len() <= MAX_STDOUT_LINES {
                lines.len()
            } else {
                MAX_STDOUT_LINES as nat
            };
            join_lines(after_lines(start, lines).stdout) == join_lines(
                lines.subrange(lines.len() - shown, lines.len() as int),
            )
        }),
{
    lemma_lines_kept_in_order(start, lines);
    assert(lines.subrange(0, lines.len() as int) =~= lines);
}

} // verus!
