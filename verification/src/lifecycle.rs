//! What holds of a session on every path from its start to its end: the
//! terminal is given back, closing twice is harmless, the channel is asked
//! in order, and the bytes of both directions pass unchanged.

use vstd::prelude::*;
use crate::error::SessionError;
use crate::event::{LoopEventView, SshEventView};
use crate::fidelity::{
    input_bytes, lemma_bridges_while_running, lemma_trace_unfold, output_bytes, sent_bytes,
    written_bytes,
};
use crate::event_loop::LoopModel;
use crate::pty::PtyOptionsView;
use crate::session::{ActionView, EventView, Outcome, Phase, SessionView};

verus! {

/// The mode of the local terminal after the driver has performed `actions`
/// on a terminal that was raw or not as `raw` says.
pub open spec fn raw_after(raw: bool, actions: Seq<ActionView>) -> bool
    decreases actions.len(),
{
    if actions.len() == 0 {
        raw
    } else {
        match actions.last() {
            ActionView::EnterRawMode => true,
            ActionView::RestoreMode => false,
            _ => raw_after(raw, actions.drop_last()),
        }
    }
}

/// All bytes that `actions` hand to the channel, in order.
pub open spec fn bytes_sent(actions: Seq<ActionView>) -> Seq<u8> {
    actions.flat_map(
        |action: ActionView|
            match action {
                ActionView::Send(bytes) => bytes,
                _ => Seq::empty(),
            },
    )
}

/// All bytes that `actions` hand to local output, in order.
pub open spec fn bytes_written(actions: Seq<ActionView>) -> Seq<u8> {
    actions.flat_map(
        |action: ActionView|
            match action {
                ActionView::Write(bytes) => bytes,
                _ => Seq::empty(),
            },
    )
}

/// The events of the loop as the driver reports them to the session.
pub open spec fn loop_events(events: Seq<LoopEventView>) -> Seq<EventView> {
    events.map_values(|event: LoopEventView| EventView::Loop(event))
}

/// Every event leaves a session well-formed.
pub proof fn lemma_next_keeps_wf(session: SessionView, event: EventView)
    requires
        session.wf(),
    ensures
        session.next(event).wf(),
{
}

/// The raw-mode guard follows what the driver is asked to do: the terminal
/// is entered only when the guard is free, restored only when it is held,
/// and untouched by every other step.
pub proof fn lemma_guard_follows_actions(session: SessionView, event: EventView)
    requires
        session.wf(),
    ensures
        match session.answer(event) {
            Some(ActionView::EnterRawMode) => !session.raw && session.next(event).raw,
            Some(ActionView::RestoreMode) => session.raw && !session.next(event).raw,
            _ => session.next(event).raw == session.raw,
        },
        session.answer(event) matches Some(ActionView::Finish(outcome)) ==> {
            &&& session.next(event).phase is Finished
            &&& !session.next(event).raw
            &&& outcome == session.next(event).outcome()
        },
{
}

/// Raw mode is entered and left symmetrically. Whatever the events, the
/// terminal is in the mode that the session holds it to be in; so when the
/// session has finished, and when the driver is told to stop, the terminal
/// is not raw.
pub proof fn lemma_raw_mode_symmetry(session: SessionView, events: Seq<EventView>)
    requires
        session.wf(),
    ensures
        session.run(events).wf(),
        raw_after(session.raw, session.trace(events)) == session.run(events).raw,
        session.run(events).phase is Finished ==> !raw_after(session.raw, session.trace(events)),
        session.trace(events).len() > 0 && session.trace(events).last() is Finish ==> !raw_after(
            session.raw,
            session.trace(events),
        ),
    decreases events.len(),
{
    if events.len() > 0 {
        let front = events.drop_last();
        lemma_raw_mode_symmetry(session, front);
        let before = session.run(front);
        lemma_guard_follows_actions(before, events.last());
        lemma_last_action_tells_phase(session, events);
        match before.answer(events.last()) {
            Some(action) => {
                assert(session.trace(events).drop_last() =~= session.trace(front));
            },
            None => {},
        }
    }
}

proof fn lemma_last_action_tells_phase(session: SessionView, events: Seq<EventView>)
    requires
        session.wf(),
    ensures
        session.run(events).wf(),
        session.trace(events).len() > 0 && session.trace(events).last() is Finish
            ==> session.run(events).phase is Finished,
    decreases events.len(),
{
    if events.len() > 0 {
        lemma_last_action_tells_phase(session, events.drop_last());
        lemma_guard_follows_actions(session.run(events.drop_last()), events.last());
    }
}

/// A failure in any phase begins the teardown at once, and the teardown
/// ends after at most two answers, whatever they are: the session neither
/// goes on after a failure nor hangs.
pub proof fn lemma_teardown_completes(session: SessionView, first: EventView, second: EventView)
    requires
        session.wf(),
        session.phase is Closing,
        first is Completed || first is Failed,
        second is Completed || second is Failed,
    ensures
        session.raw ==> {
            &&& session.answer(first) == Some(ActionView::RestoreMode)
            &&& session.next(first).next(second).phase is Finished
            &&& session.next(first).answer(second) matches Some(ActionView::Finish(_))
        },
        !session.raw ==> {
            &&& session.next(first).phase is Finished
            &&& session.answer(first) matches Some(ActionView::Finish(_))
        },
        session.error is Some ==> session.next(first).next(second).error == session.error,
{
}

/// A session can always be brought to its end: from any phase, a request to
/// close and the answers to the two requests of the teardown finish it with
/// the terminal given back.
pub proof fn lemma_close_always_finishes(session: SessionView, first: EventView, second: EventView)
    requires
        session.wf(),
        first is Completed || first is Failed,
        second is Completed || second is Failed,
    ensures
        session.next(EventView::Close).next(first).next(second).phase is Finished,
        !session.next(EventView::Close).next(first).next(second).raw,
        session.error is Some ==> session.next(EventView::Close).next(first).next(second).error
            == session.error,
{
}

/// A request that the remote side or the terminal refuses, and an event
/// that stops the loop, each begin the teardown with the disconnect notice.
pub proof fn lemma_failure_begins_teardown(session: SessionView, event: EventView)
    requires
        session.wf(),
        session.accepts(event),
        match session.phase {
            Phase::Opening | Phase::RequestingPty | Phase::Starting | Phase::EnteringRawMode => event
                is Failed,
            Phase::Looping => event matches EventView::Loop(e) && !e.keeps_running(),
            _ => false,
        },
    ensures
        session.next(event).phase is Closing,
        session.answer(event) == Some(ActionView::Disconnect),
        session.next(event).raw == session.raw,
        event is Failed ==> session.next(event).error is Some,
        session.phase is Opening ==> session.next(event).error == Some(
            SessionError::ChannelOpenError,
        ),
        session.phase is RequestingPty ==> session.next(event).error == Some(
            SessionError::PtyRequestError,
        ),
        session.phase is EnteringRawMode ==> session.next(event).error == Some(
            SessionError::TerminalModeError,
        ),
{
}

/// Closing is idempotent and never a failure. The first request to close
/// asks for the disconnect notice; a second one, or one after the teardown
/// has begun for another reason, changes nothing and asks for nothing.
pub proof fn lemma_close_idempotent(session: SessionView)
    requires
        session.wf(),
    ensures
        session.next(EventView::Close).next(EventView::Close) == session.next(EventView::Close),
        session.next(EventView::Close).answer(EventView::Close) is None,
        session.next(EventView::Close).error == session.error,
        session.answer(EventView::Close) is Some ==> session.answer(EventView::Close) == Some(
            ActionView::Disconnect,
        ),
        session.next(EventView::Close).wf(),
{
}

/// A request to close that comes after the remote side has closed the
/// channel changes nothing, asks for nothing and is no failure.
pub proof fn lemma_close_after_remote_close(session: SessionView)
    requires
        session.wf(),
        session.phase is Looping,
    ensures
        ({
            let closed = session.next(EventView::Loop(LoopEventView::Remote(SshEventView::Closed)));
            &&& closed.channel is Some
            &&& closed.channel->Some_0.closed
            &&& closed.error is None
            &&& closed.next(EventView::Close) == closed
            &&& closed.answer(EventView::Close) is None
        }),
{
}

/// The channel is asked in order: for a pseudo-terminal only right after it
/// was opened, for a shell or a command only once, and for bytes only while
/// a shell or a command runs on it. The channel is asked for when the
/// session sets out, and no event asks for another.
pub proof fn lemma_channel_asked_in_order(session: SessionView, event: EventView)
    requires
        session.wf(),
    ensures
        match session.answer(event) {
            Some(ActionView::OpenChannel) => false,
            Some(ActionView::RequestPty(_)) => {
                &&& session.phase is Opening
                &&& session.next(event).channel matches Some(channel)
                &&& channel.may_request_pty()
            },
            Some(ActionView::StartShell) => {
                &&& session.next(event).channel matches Some(channel)
                &&& channel.may_start()
                &&& channel.pty_requested
            },
            Some(ActionView::Exec(_)) => {
                &&& session.next(event).channel matches Some(channel)
                &&& channel.may_start()
                &&& !channel.pty_requested
            },
            Some(ActionView::Send(_)) => {
                &&& session.next(event).channel matches Some(channel)
                &&& channel.may_send()
            },
            _ => true,
        },
{
}

proof fn lemma_session_trace_unfold(session: SessionView, events: Seq<EventView>, action: ActionView)
    requires
        events.len() > 0,
        session.run(events.drop_last()).answer(events.last()) == Some(action),
    ensures
        bytes_sent(session.trace(events)) == bytes_sent(session.trace(events.drop_last())) + (
        match action {
            ActionView::Send(bytes) => bytes,
            _ => Seq::empty(),
        }),
        bytes_written(session.trace(events)) == bytes_written(session.trace(events.drop_last()))
            + (match action {
            ActionView::Write(bytes) => bytes,
            _ => Seq::empty(),
        }),
{
    session.trace(events.drop_last()).lemma_flat_map_push(
        |action: ActionView|
            match action {
                ActionView::Send(bytes) => bytes,
                _ => Seq::empty(),
            },
        action,
    );
    session.trace(events.drop_last()).lemma_flat_map_push(
        |action: ActionView|
            match action {
                ActionView::Write(bytes) => bytes,
                _ => Seq::empty(),
            },
        action,
    );
}

/// While its event loop runs, a session passes on what the loop passes on:
/// the bytes of the local input to the channel and the bytes of the remote
/// messages to local output, each as they came. A batch session has no
/// local input.
pub proof fn lemma_session_bridges(session: SessionView, events: Seq<LoopEventView>)
    requires
        session.wf(),
        session.phase is Looping,
        forall|i: int| 0 <= i < events.len() ==> (#[trigger] events[i]).keeps_running(),
        session.mode is Batch ==> forall|i: int|
            0 <= i < events.len() ==> !(#[trigger] events[i]).local(),
    ensures
        session.run(loop_events(events)).wf(),
        session.run(loop_events(events)).phase is Looping,
        session.run(loop_events(events)).event_loop == session.event_loop.run(events),
        session.run(loop_events(events)) == (SessionView {
            event_loop: session.event_loop.run(events),
            ..session
        }),
        bytes_sent(session.trace(loop_events(events))) == input_bytes(events),
        bytes_written(session.trace(loop_events(events))) == output_bytes(events),
    decreases events.len(),
{
    let lifted = loop_events(events);
    lemma_bridges_while_running(session.event_loop, events);
    lemma_raw_mode_symmetry(session, lifted);
    if events.len() > 0 {
        let front = events.drop_last();
        lemma_session_bridges(session, front);
        lemma_bridges_while_running(session.event_loop, front);
        assert(lifted.drop_last() =~= loop_events(front));
        assert(lifted.last() == EventView::Loop(events.last()));
        assert(events.last().keeps_running());
        let before = session.run(loop_events(front));
        let action = ActionView::of_loop(before.event_loop.action(events.last()));
        assert(before.answer(lifted.last()) == Some(action));
        lemma_session_trace_unfold(session, lifted, action);
        lemma_trace_unfold(session.event_loop, events);
    } else {
        assert(bytes_sent(session.trace(lifted)) =~= Seq::<u8>::empty());
        assert(bytes_written(session.trace(lifted)) =~= Seq::<u8>::empty());
        assert(sent_bytes(session.event_loop.trace(events)) =~= Seq::<u8>::empty());
        assert(written_bytes(session.event_loop.trace(events)) =~= Seq::<u8>::empty());
    }
}

/// Running over two lists of events in turn is running over their
/// concatenation.
pub proof fn lemma_session_run_concat(
    session: SessionView,
    first: Seq<EventView>,
    second: Seq<EventView>,
)
    ensures
        session.run(first + second) == session.run(first).run(second),
        session.trace(first + second) == session.trace(first) + session.run(first).trace(second),
    decreases second.len(),
{
    if second.len() > 0 {
        lemma_session_run_concat(session, first, second.drop_last());
        assert((first + second).drop_last() =~= first + second.drop_last());
        assert((first + second).last() == second.last());
        assert(session.trace(first + second) =~= session.trace(first) + session.run(first).trace(
            second,
        ));
    } else {
        assert(first + second =~= first);
        assert(session.trace(first) + session.run(first).trace(second) =~= session.trace(first));
    }
}

proof fn lemma_run_push(session: SessionView, events: Seq<EventView>, event: EventView)
    ensures
        session.run(events.push(event)) == session.run(events).next(event),
        session.trace(events.push(event)) == (match session.run(events).answer(event) {
            Some(action) => session.trace(events).push(action),
            None => session.trace(events),
        }),
{
    assert(events.push(event).drop_last() =~= events);
}

proof fn lemma_bytes_concat(first: Seq<ActionView>, second: Seq<ActionView>)
    ensures
        bytes_sent(first + second) == bytes_sent(first) + bytes_sent(second),
        bytes_written(first + second) == bytes_written(first) + bytes_written(second),
        forall|raw: bool|
            raw_after(raw, first + second) == raw_after(
                #[trigger] raw_after(raw, first),
                second,
            ),
    decreases second.len(),
{
    let sent = |action: ActionView|
        match action {
            ActionView::Send(bytes) => bytes,
            _ => Seq::empty(),
        };
    let written = |action: ActionView|
        match action {
            ActionView::Write(bytes) => bytes,
            _ => Seq::empty(),
        };
    if second.len() > 0 {
        lemma_bytes_concat(first, second.drop_last());
        assert(first + second =~= (first + second.drop_last()).push(second.last()));
        assert(second =~= second.drop_last().push(second.last()));
        (first + second.drop_last()).lemma_flat_map_push(sent, second.last());
        second.drop_last().lemma_flat_map_push(sent, second.last());
        (first + second.drop_last()).lemma_flat_map_push(written, second.last());
        second.drop_last().lemma_flat_map_push(written, second.last());
        assert((first + second).drop_last() =~= first + second.drop_last());
    } else {
        assert(first + second =~= first);
        assert(bytes_sent(second) =~= Seq::<u8>::empty());
        assert(bytes_written(second) =~= Seq::<u8>::empty());
    }
}

proof fn lemma_bytes_of_few(actions: Seq<ActionView>)
    requires
        forall|i: int|
            0 <= i < actions.len() ==> !((#[trigger] actions[i]) is Send) && !(actions[i] is Write),
    ensures
        bytes_sent(actions) == Seq::<u8>::empty(),
        bytes_written(actions) == Seq::<u8>::empty(),
    decreases actions.len(),
{
    if actions.len() > 0 {
        lemma_bytes_of_few(actions.drop_last());
        lemma_bytes_concat(actions.drop_last(), seq![actions.last()]);
        assert(actions =~= actions.drop_last() + seq![actions.last()]);
        assert(seq![actions.last()] =~= Seq::<ActionView>::empty().push(actions.last()));
        Seq::<ActionView>::empty().lemma_flat_map_push(
            |action: ActionView|
                match action {
                    ActionView::Send(bytes) => bytes,
                    _ => Seq::empty(),
                },
            actions.last(),
        );
        Seq::<ActionView>::empty().lemma_flat_map_push(
            |action: ActionView|
                match action {
                    ActionView::Write(bytes) => bytes,
                    _ => Seq::empty(),
                },
            actions.last(),
        );
        assert(bytes_sent(Seq::<ActionView>::empty()) =~= Seq::<u8>::empty());
        assert(bytes_written(Seq::<ActionView>::empty()) =~= Seq::<u8>::empty());
    } else {
        assert(bytes_sent(actions) =~= Seq::<u8>::empty());
        assert(bytes_written(actions) =~= Seq::<u8>::empty());
    }
}

/// The answers that set an interactive session up.
pub open spec fn shell_setup() -> Seq<EventView> {
    seq![EventView::Completed, EventView::Completed, EventView::Completed, EventView::Completed]
}

/// The answers that set a batch session up.
pub open spec fn batch_setup() -> Seq<EventView> {
    seq![EventView::Completed, EventView::Completed]
}

/// The setup of an interactive session asks for the pseudo-terminal, the
/// shell and raw mode, in this order, and then waits in the event loop.
pub proof fn lemma_shell_setup(probe: Option<(u16, u16)>)
    ensures
        ({
            let start = SessionView::connected().shell(probe);
            &&& start.wf()
            &&& start.run(shell_setup()).wf()
            &&& start.run(shell_setup()).phase is Looping
            &&& start.run(shell_setup()).raw
            &&& start.run(shell_setup()).event_loop == LoopModel::start()
            &&& start.run(shell_setup()).error is None
            &&& start.trace(shell_setup()) == seq![
                ActionView::RequestPty(PtyOptionsView::for_terminal(probe)),
                ActionView::StartShell,
                ActionView::EnterRawMode,
                ActionView::Wait,
            ]
        }),
{
    let start = SessionView::connected().shell(probe);
    let done = EventView::Completed;
    let none = Seq::<EventView>::empty();
    lemma_run_push(start, none, done);
    lemma_run_push(start, none.push(done), done);
    lemma_run_push(start, none.push(done).push(done), done);
    lemma_run_push(start, none.push(done).push(done).push(done), done);
    assert(shell_setup() =~= none.push(done).push(done).push(done).push(done));
    assert(start.trace(shell_setup()) =~= seq![
        ActionView::RequestPty(PtyOptionsView::for_terminal(probe)),
        ActionView::StartShell,
        ActionView::EnterRawMode,
        ActionView::Wait,
    ]);
}

/// The setup of a batch session asks for the command, without a
/// pseudo-terminal and without raw mode, and then waits in the event loop.
pub proof fn lemma_batch_setup(command: Seq<char>)
    ensures
        ({
            let start = SessionView::connected().batch(command);
            &&& start.wf()
            &&& start.run(batch_setup()).wf()
            &&& start.run(batch_setup()).phase is Looping
            &&& !start.run(batch_setup()).raw
            &&& start.run(batch_setup()).event_loop == LoopModel::start()
            &&& start.run(batch_setup()).error is None
            &&& start.trace(batch_setup()) == seq![ActionView::Exec(command), ActionView::Wait]
        }),
{
    let start = SessionView::connected().batch(command);
    let done = EventView::Completed;
    let none = Seq::<EventView>::empty();
    lemma_run_push(start, none, done);
    lemma_run_push(start, none.push(done), done);
    assert(batch_setup() =~= none.push(done).push(done));
    assert(start.trace(batch_setup()) =~= seq![ActionView::Exec(command), ActionView::Wait]);
}

/// An interactive session from its start to its end. After the setup, the
/// events `live` are bridged until `stop` ends the loop; then the session
/// disconnects, restores the terminal and finishes, whatever the answers
/// `closed` and `restored` to these two requests. The bytes of `live` have
/// passed unchanged, the terminal is not raw, and the session ends with the
/// failure that stopped the loop, else with the failure to restore the
/// terminal, else with success.
pub proof fn lemma_shell_end_to_end(
    probe: Option<(u16, u16)>,
    live: Seq<LoopEventView>,
    stop: LoopEventView,
    closed: EventView,
    restored: EventView,
)
    requires
        forall|i: int| 0 <= i < live.len() ==> (#[trigger] live[i]).keeps_running(),
        !stop.keeps_running(),
        closed is Completed || closed is Failed,
        restored is Completed || restored is Failed,
    ensures
        ({
            let start = SessionView::connected().shell(probe);
            let events = shell_setup() + loop_events(live) + seq![
                EventView::Loop(stop),
                closed,
                restored,
            ];
            let end = start.run(events);
            let actions = start.trace(events);
            &&& end.phase is Finished
            &&& !end.raw
            &&& !raw_after(false, actions)
            &&& bytes_sent(actions) == input_bytes(live)
            &&& bytes_written(actions) == output_bytes(live)
            &&& actions.len() == 4 + live.len() + 3
            &&& actions[actions.len() - 3] == ActionView::Disconnect
            &&& actions[actions.len() - 2] == ActionView::RestoreMode
            &&& actions[actions.len() - 1] == ActionView::Finish(end.outcome())
            &&& end.outcome() == (match stop.failure() {
                Some(error) => Outcome::Failed(error),
                None => if restored is Failed {
                    Outcome::Failed(SessionError::TerminalModeError)
                } else {
                    Outcome::Success
                },
            })
        }),
{
    let start = SessionView::connected().shell(probe);
    let tail = seq![EventView::Loop(stop), closed, restored];
    let events = shell_setup() + loop_events(live) + tail;
    lemma_shell_setup(probe);
    let ready = start.run(shell_setup());
    lemma_session_bridges(ready, live);
    lemma_session_trace_len(ready, live);
    let drained = ready.run(loop_events(live));
    lemma_bridges_while_running(ready.event_loop, live);
    let none = Seq::<EventView>::empty();
    lemma_run_push(drained, none, EventView::Loop(stop));
    lemma_run_push(drained, none.push(EventView::Loop(stop)), closed);
    lemma_run_push(drained, none.push(EventView::Loop(stop)).push(closed), restored);
    assert(tail =~= none.push(EventView::Loop(stop)).push(closed).push(restored));
    let end = drained.run(tail);
    assert(drained.trace(tail) =~= seq![
        ActionView::Disconnect,
        ActionView::RestoreMode,
        ActionView::Finish(end.outcome()),
    ]);
    lemma_session_run_concat(start, shell_setup(), loop_events(live));
    lemma_session_run_concat(start, shell_setup() + loop_events(live), tail);
    let head = start.trace(shell_setup());
    let middle = ready.trace(loop_events(live));
    let last = drained.trace(tail);
    lemma_bytes_concat(head, middle);
    lemma_bytes_concat(head + middle, last);
    lemma_bytes_of_few(head);
    lemma_bytes_of_few(last);
    lemma_raw_mode_symmetry(start, events);
    assert(start.trace(events) == head + middle + last);
    assert(bytes_sent(start.trace(events)) =~= input_bytes(live));
    assert(bytes_written(start.trace(events)) =~= output_bytes(live));
}

/// A batch session from its start to its end. After the setup, the
/// messages of `live` are written until `stop` ends the loop; then the
/// session disconnects and finishes, whatever the answer `closed`. The
/// terminal is never raw, nothing goes to the channel, and the session ends
/// with the failure that stopped the loop, else with the exit status that
/// was reported last, else with the failure that there is none.
pub proof fn lemma_batch_end_to_end(
    command: Seq<char>,
    live: Seq<LoopEventView>,
    stop: LoopEventView,
    closed: EventView,
)
    requires
        forall|i: int| 0 <= i < live.len() ==> (#[trigger] live[i]).keeps_running(),
        forall|i: int| 0 <= i < live.len() ==> !(#[trigger] live[i]).local(),
        !stop.keeps_running(),
        !stop.local(),
        closed is Completed || closed is Failed,
    ensures
        ({
            let start = SessionView::connected().batch(command);
            let events = batch_setup() + loop_events(live) + seq![EventView::Loop(stop), closed];
            let end = start.run(events);
            let actions = start.trace(events);
            &&& end.phase is Finished
            &&& !end.raw
            &&& !raw_after(false, actions)
            &&& bytes_sent(actions) == Seq::<u8>::empty()
            &&& bytes_written(actions) == output_bytes(live)
            &&& actions.len() == 2 + live.len() + 2
            &&& actions[actions.len() - 2] == ActionView::Disconnect
            &&& actions[actions.len() - 1] == ActionView::Finish(end.outcome())
            &&& end.outcome() == (match stop.failure() {
                Some(error) => Outcome::Failed(error),
                None => match LoopModel::start().run(live).exit_status {
                    Some(status) => Outcome::Exited(status),
                    None => Outcome::Failed(SessionError::MissingExitStatus),
                },
            })
        }),
{
    let start = SessionView::connected().batch(command);
    let tail = seq![EventView::Loop(stop), closed];
    let events = batch_setup() + loop_events(live) + tail;
    lemma_batch_setup(command);
    let ready = start.run(batch_setup());
    lemma_session_bridges(ready, live);
    lemma_session_trace_len(ready, live);
    let drained = ready.run(loop_events(live));
    lemma_bridges_while_running(ready.event_loop, live);
    let none = Seq::<EventView>::empty();
    lemma_run_push(drained, none, EventView::Loop(stop));
    lemma_run_push(drained, none.push(EventView::Loop(stop)), closed);
    assert(tail =~= none.push(EventView::Loop(stop)).push(closed));
    let end = drained.run(tail);
    assert(drained.trace(tail) =~= seq![
        ActionView::Disconnect,
        ActionView::Finish(end.outcome()),
    ]);
    lemma_session_run_concat(start, batch_setup(), loop_events(live));
    lemma_session_run_concat(start, batch_setup() + loop_events(live), tail);
    let head = start.trace(batch_setup());
    let middle = ready.trace(loop_events(live));
    let last = drained.trace(tail);
    lemma_bytes_concat(head, middle);
    lemma_bytes_concat(head + middle, last);
    lemma_bytes_of_few(head);
    lemma_bytes_of_few(last);
    lemma_raw_mode_symmetry(start, events);
    lemma_no_local_input(live);
    assert(bytes_sent(start.trace(events)) =~= Seq::<u8>::empty());
    assert(bytes_written(start.trace(events)) =~= output_bytes(live));
}

proof fn lemma_no_local_input(events: Seq<LoopEventView>)
    requires
        forall|i: int| 0 <= i < events.len() ==> !(#[trigger] events[i]).local(),
    ensures
        input_bytes(events) == Seq::<u8>::empty(),
    decreases events.len(),
{
    if events.len() > 0 {
        lemma_no_local_input(events.drop_last());
        assert(events =~= events.drop_last().push(events.last()));
        events.drop_last().lemma_flat_map_push(
            |event: LoopEventView| event.local_payload(),
            events.last(),
        );
    } else {
        assert(input_bytes(events) =~= Seq::<u8>::empty());
    }
}

proof fn lemma_session_trace_len(session: SessionView, events: Seq<LoopEventView>)
    requires
        session.wf(),
        session.phase is Looping,
        forall|i: int| 0 <= i < events.len() ==> (#[trigger] events[i]).keeps_running(),
        session.mode is Batch ==> forall|i: int|
            0 <= i < events.len() ==> !(#[trigger] events[i]).local(),
    ensures
        session.trace(loop_events(events)).len() == events.len(),
    decreases events.len(),
{
    if events.len() > 0 {
        let front = events.drop_last();
        lemma_session_trace_len(session, front);
        lemma_session_bridges(session, front);
        lemma_bridges_while_running(session.event_loop, front);
        assert(loop_events(events).drop_last() =~= loop_events(front));
        assert(loop_events(events).last() == EventView::Loop(events.last()));
        assert(events.last().keeps_running());
    }
}

} // verus!
