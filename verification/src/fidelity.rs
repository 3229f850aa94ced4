//! What the event loop guarantees about the bytes it bridges: every byte is
//! passed on once, in the order it came, for as long as the loop runs.

use vstd::prelude::*;
use crate::event::{LoopActionView, LoopEventView, SshEventView};
use crate::event_loop::{LoopModel, LoopState};

verus! {

/// All bytes that `events` offer to the remote side, in order.
pub open spec fn input_bytes(events: Seq<LoopEventView>) -> Seq<u8> {
    events.flat_map(|event: LoopEventView| event.local_payload())
}

/// All bytes that `events` offer to the local output, in order.
pub open spec fn output_bytes(events: Seq<LoopEventView>) -> Seq<u8> {
    events.flat_map(|event: LoopEventView| event.remote_payload())
}

/// All bytes that `actions` hand to the channel, in order.
pub open spec fn sent_bytes(actions: Seq<LoopActionView>) -> Seq<u8> {
    actions.flat_map(|action: LoopActionView| action.sent())
}

/// All bytes that `actions` hand to local output, in order.
pub open spec fn written_bytes(actions: Seq<LoopActionView>) -> Seq<u8> {
    actions.flat_map(|action: LoopActionView| action.written())
}

/// Reads of local input that returned `chunks`, one read for each chunk.
pub open spec fn local_reads(chunks: Seq<Seq<u8>>) -> Seq<LoopEventView> {
    chunks.map_values(|chunk: Seq<u8>| LoopEventView::LocalInput(chunk))
}

/// The arrival of `messages` from the channel, one event for each message.
pub open spec fn remote_arrivals(messages: Seq<SshEventView>) -> Seq<LoopEventView> {
    messages.map_values(|message: SshEventView| LoopEventView::Remote(message))
}

/// All bytes that `messages` carry, in order.
pub open spec fn payloads(messages: Seq<SshEventView>) -> Seq<u8> {
    messages.flat_map(|message: SshEventView| message.payload())
}

proof fn lemma_bytes_unfold(events: Seq<LoopEventView>)
    requires
        events.len() > 0,
    ensures
        input_bytes(events) == input_bytes(events.drop_last()) + events.last().local_payload(),
        output_bytes(events) == output_bytes(events.drop_last()) + events.last().remote_payload(),
{
    assert(events =~= events.drop_last().push(events.last()));
    events.drop_last().lemma_flat_map_push(
        |event: LoopEventView| event.local_payload(),
        events.last(),
    );
    events.drop_last().lemma_flat_map_push(
        |event: LoopEventView| event.remote_payload(),
        events.last(),
    );
}

/// What a trace hands on is what the trace before its last action hands on,
/// and then what that action does.
pub proof fn lemma_trace_unfold(start: LoopModel, events: Seq<LoopEventView>)
    requires
        events.len() > 0,
    ensures
        sent_bytes(start.trace(events)) == sent_bytes(start.trace(events.drop_last()))
            + start.run(events.drop_last()).action(events.last()).sent(),
        written_bytes(start.trace(events)) == written_bytes(start.trace(events.drop_last()))
            + start.run(events.drop_last()).action(events.last()).written(),
{
    let action = start.run(events.drop_last()).action(events.last());
    start.trace(events.drop_last()).lemma_flat_map_push(
        |action: LoopActionView| action.sent(),
        action,
    );
    start.trace(events.drop_last()).lemma_flat_map_push(
        |action: LoopActionView| action.written(),
        action,
    );
}

/// A loop goes on after an event exactly when the event is input that is
/// not the end of input, remote output, or a remote exit status. An exit
/// status by itself never ends the loop: it makes the loop drain.
pub proof fn lemma_stops_only_on_stop_events(start: LoopModel, event: LoopEventView)
    requires
        !start.terminated(),
    ensures
        start.next(event).terminated() <==> !event.keeps_running(),
        event matches LoopEventView::Remote(SshEventView::Exit(status)) ==> {
            &&& start.next(event).state == LoopState::Draining
            &&& start.next(event).exit_status == Some(status)
        },
        start.action(event) is Stop <==> start.next(event).terminated(),
{
}

/// The loop keeps its invariant, whatever the events.
pub proof fn lemma_run_keeps_wf(start: LoopModel, events: Seq<LoopEventView>)
    requires
        start.wf(),
    ensures
        start.run(events).wf(),
    decreases events.len(),
{
    if events.len() > 0 {
        lemma_run_keeps_wf(start, events.drop_last());
    }
}

/// While the loop runs, the bytes handed to the channel are the bytes of
/// the local input, and the bytes handed to local output are the bytes of
/// the remote messages, each in the order of arrival and however the two
/// directions interleave.
pub proof fn lemma_bridges_while_running(start: LoopModel, events: Seq<LoopEventView>)
    requires
        !start.terminated(),
        forall|i: int| 0 <= i < events.len() ==> (#[trigger] events[i]).keeps_running(),
    ensures
        !start.run(events).terminated(),
        sent_bytes(start.trace(events)) == input_bytes(events),
        written_bytes(start.trace(events)) == output_bytes(events),
    decreases events.len(),
{
    if events.len() > 0 {
        lemma_bridges_while_running(start, events.drop_last());
        assert(events.last().keeps_running());
        lemma_bytes_unfold(events);
        lemma_trace_unfold(start, events);
    } else {
        assert(sent_bytes(start.trace(events)) =~= input_bytes(events));
        assert(written_bytes(start.trace(events)) =~= output_bytes(events));
    }
}

/// A loop that is over stays as it is and passes nothing on.
pub proof fn lemma_silent_once_terminated(start: LoopModel, events: Seq<LoopEventView>)
    requires
        start.terminated(),
    ensures
        start.run(events) == start,
        sent_bytes(start.trace(events)) == Seq::<u8>::empty(),
        written_bytes(start.trace(events)) == Seq::<u8>::empty(),
    decreases events.len(),
{
    if events.len() > 0 {
        lemma_silent_once_terminated(start, events.drop_last());
        lemma_trace_unfold(start, events);
    } else {
        assert(sent_bytes(start.trace(events)) =~= Seq::<u8>::empty());
        assert(written_bytes(start.trace(events)) =~= Seq::<u8>::empty());
    }
}

/// Running over two lists of events in turn is running over their
/// concatenation.
pub proof fn lemma_run_concat(
    start: LoopModel,
    first: Seq<LoopEventView>,
    second: Seq<LoopEventView>,
)
    ensures
        start.run(first + second) == start.run(first).run(second),
        sent_bytes(start.trace(first + second)) == sent_bytes(start.trace(first)) + sent_bytes(
            start.run(first).trace(second),
        ),
        written_bytes(start.trace(first + second)) == written_bytes(start.trace(first))
            + written_bytes(start.run(first).trace(second)),
    decreases second.len(),
{
    if second.len() > 0 {
        lemma_run_concat(start, first, second.drop_last());
        assert((first + second).drop_last() =~= first + second.drop_last());
        assert((first + second).last() == second.last());
        lemma_trace_unfold(start, first + second);
        lemma_trace_unfold(start.run(first), second);
    } else {
        assert(first + second =~= first);
        assert(sent_bytes(start.run(first).trace(second)) =~= Seq::<u8>::empty());
        assert(written_bytes(start.run(first).trace(second)) =~= Seq::<u8>::empty());
    }
}

/// Every list of events splits into the events up to the first one that
/// stops the loop, that event, and the rest. What is passed on is what came
/// before the stop: nothing is lost before it and nothing passes after it.
pub proof fn lemma_bridges_until_stop(
    start: LoopModel,
    live: Seq<LoopEventView>,
    stop: LoopEventView,
    rest: Seq<LoopEventView>,
)
    requires
        !start.terminated(),
        forall|i: int| 0 <= i < live.len() ==> (#[trigger] live[i]).keeps_running(),
        !stop.keeps_running(),
    ensures
        start.run(live.push(stop) + rest).terminated(),
        sent_bytes(start.trace(live.push(stop) + rest)) == input_bytes(live),
        written_bytes(start.trace(live.push(stop) + rest)) == output_bytes(live),
{
    let head = live.push(stop);
    lemma_bridges_while_running(start, live);
    assert(head.drop_last() =~= live);
    lemma_trace_unfold(start, head);
    lemma_stops_only_on_stop_events(start.run(live), stop);
    lemma_run_concat(start, head, rest);
    lemma_silent_once_terminated(start.run(head), rest);
}

/// Local input that arrives in chunks of any size reaches the channel as
/// the same bytes in the same order: none lost, none twice, none moved. A
/// chunk without bytes is the end of input, so none with bytes may follow
/// one.
pub proof fn lemma_round_trip(start: LoopModel, chunks: Seq<Seq<u8>>)
    requires
        !start.terminated(),
        forall|i: int, j: int|
            0 <= i < j < chunks.len() && (#[trigger] chunks[i]).len() == 0 ==> (
            #[trigger] chunks[j]).len() == 0,
    ensures
        sent_bytes(start.trace(local_reads(chunks))) == chunks.flatten(),
        written_bytes(start.trace(local_reads(chunks))) == Seq::<u8>::empty(),
        (forall|i: int| 0 <= i < chunks.len() ==> (#[trigger] chunks[i]).len() > 0)
            ==> !start.run(local_reads(chunks)).terminated(),
    decreases chunks.len(),
{
    let events = local_reads(chunks);
    if chunks.len() > 0 {
        let front = chunks.drop_last();
        lemma_round_trip(start, front);
        assert(events.drop_last() =~= local_reads(front));
        lemma_trace_unfold(start, events);
        assert(chunks =~= front.push(chunks.last()));
        front.lemma_flatten_push(chunks.last());
        if chunks.last().len() > 0 {
            assert forall|i: int| 0 <= i < front.len() implies (#[trigger] front[i]).len() > 0 by {
                assert(chunks[i] == front[i]);
                assert(chunks[chunks.len() - 1] == chunks.last());
            }
        }
    } else {
        assert(sent_bytes(start.trace(events)) =~= Seq::<u8>::empty());
        assert(written_bytes(start.trace(events)) =~= Seq::<u8>::empty());
        assert(chunks.flatten() =~= Seq::<u8>::empty());
    }
}

/// Whatever the channel emits before it closes reaches local output as the
/// concatenation of the payloads, in the order of receipt, and nothing goes
/// to the channel.
pub proof fn lemma_output_fidelity(start: LoopModel, messages: Seq<SshEventView>)
    requires
        !start.terminated(),
        forall|i: int| 0 <= i < messages.len() ==> !((#[trigger] messages[i]) is Closed),
    ensures
        written_bytes(start.trace(remote_arrivals(messages))) == payloads(messages),
        sent_bytes(start.trace(remote_arrivals(messages))) == Seq::<u8>::empty(),
        !start.run(remote_arrivals(messages)).terminated(),
    decreases messages.len(),
{
    let events = remote_arrivals(messages);
    if messages.len() > 0 {
        let front = messages.drop_last();
        lemma_output_fidelity(start, front);
        assert(events.drop_last() =~= remote_arrivals(front));
        lemma_trace_unfold(start, events);
        assert(messages =~= front.push(messages.last()));
        front.lemma_flat_map_push(|message: SshEventView| message.payload(), messages.last());
    } else {
        assert(sent_bytes(start.trace(events)) =~= Seq::<u8>::empty());
        assert(written_bytes(start.trace(events)) =~= Seq::<u8>::empty());
        assert(payloads(messages) =~= Seq::<u8>::empty());
    }
}

/// Output that arrives after the exit status and before the channel closes
/// is still written, and only the close ends the loop.
pub proof fn lemma_drains_after_exit(start: LoopModel, status: u32, trailing: Seq<SshEventView>)
    requires
        !start.terminated(),
        forall|i: int| 0 <= i < trailing.len() ==> !((#[trigger] trailing[i]) is Closed),
    ensures
        ({
            let events = remote_arrivals(
                (seq![SshEventView::Exit(status)] + trailing).push(SshEventView::Closed),
            );
            &&& !start.run(events.drop_last()).terminated()
            &&& start.run(events).terminated()
            &&& start.run(events).error == start.error
            &&& written_bytes(start.trace(events)) == payloads(trailing)
        }),
{
    let drained = seq![SshEventView::Exit(status)] + trailing;
    let events = remote_arrivals(drained.push(SshEventView::Closed));
    assert(events.drop_last() =~= remote_arrivals(drained));
    lemma_output_fidelity(start, drained);
    lemma_trace_unfold(start, events);
    assert(drained =~= seq![SshEventView::Exit(status)] + trailing);
    lemma_payloads_concat(seq![SshEventView::Exit(status)], trailing);
    assert(seq![SshEventView::Exit(status)] =~= Seq::<SshEventView>::empty().push(
        SshEventView::Exit(status),
    ));
    Seq::<SshEventView>::empty().lemma_flat_map_push(
        |message: SshEventView| message.payload(),
        SshEventView::Exit(status),
    );
    assert(payloads(Seq::<SshEventView>::empty()) =~= Seq::<u8>::empty());
    lemma_error_kept_while_running(start, remote_arrivals(drained));
}

proof fn lemma_payloads_concat(first: Seq<SshEventView>, second: Seq<SshEventView>)
    ensures
        payloads(first + second) == payloads(first) + payloads(second),
    decreases second.len(),
{
    if second.len() > 0 {
        lemma_payloads_concat(first, second.drop_last());
        assert(first + second =~= (first + second.drop_last()).push(second.last()));
        assert(second =~= second.drop_last().push(second.last()));
        (first + second.drop_last()).lemma_flat_map_push(
            |message: SshEventView| message.payload(),
            second.last(),
        );
        second.drop_last().lemma_flat_map_push(
            |message: SshEventView| message.payload(),
            second.last(),
        );
    } else {
        assert(first + second =~= first);
        assert(payloads(second) =~= Seq::<u8>::empty());
    }
}

proof fn lemma_error_kept_while_running(start: LoopModel, events: Seq<LoopEventView>)
    requires
        !start.terminated(),
        forall|i: int| 0 <= i < events.len() ==> (#[trigger] events[i]).keeps_running(),
    ensures
        start.run(events).error == start.error,
        !start.run(events).terminated(),
    decreases events.len(),
{
    if events.len() > 0 {
        lemma_error_kept_while_running(start, events.drop_last());
        assert(events.last().keeps_running());
    }
}

} // verus!
