//! What holds of every run of a subscription.
use crate::failure::{ErrorReportView, FailureView};
use crate::listener::ListenerEventView;
use crate::log::{wire_entries, ValidatedQueryView, WireLogEntryView};
use crate::model::{
    closure, fetching, lag, lag_notice, mediating, pending, quiet, signal, terminated, waiting,
    ActionView, EventView, PhaseView, SubscriptionView,
};
use crate::params::SubscribeParametersView;
use crate::trace::{
    confirmations, delivered, handed_out, lag_reports, lemma_run_in_parts, lemma_run_of_one,
    lemma_terminated_is_final, round_events, rounds_entries, rounds_events, run, BlockRound,
};
use vstd::prelude::*;

verus! {

/// The three events that open a block's round: signal, query and rows.
spec fn opening(round: BlockRound) -> Seq<EventView> {
    seq![
        signal(round.block_hash),
        EventView::Mediated(Ok(round.query)),
        EventView::Fetched(Ok(round.rows)),
    ]
}

/// Confirming the entry in flight and every entry queued behind it delivers
/// them in order and brings the session back to waiting.
proof fn lemma_queue_drains(
    params: SubscribeParametersView,
    in_flight: WireLogEntryView,
    queue: Seq<WireLogEntryView>,
)
    ensures
        ({
            let start = SubscriptionView {
                params,
                phase: PhaseView::Delivering { in_flight, queue },
            };
            let events = confirmations(queue.len() + 1);
            &&& run(start, events) == waiting(params)
            &&& delivered(start, events) == seq![in_flight] + queue
            &&& handed_out(start, events) == queue
            &&& lag_reports(start, events) == Seq::<nat>::empty()
        }),
    decreases queue.len(),
{
    let start = SubscriptionView { params, phase: PhaseView::Delivering { in_flight, queue } };
    let confirmation = EventView::Sent(Ok(()));
    let rest = confirmations(queue.len());
    assert(confirmations(queue.len() + 1) =~= seq![confirmation] + rest);
    lemma_run_of_one(start, confirmation);
    lemma_run_in_parts(start, seq![confirmation], rest);
    if queue.len() == 0 {
        assert(rest.len() == 0);
        assert(seq![in_flight] + Seq::<WireLogEntryView>::empty() =~= seq![in_flight] + queue);
        assert(Seq::<WireLogEntryView>::empty() + Seq::<WireLogEntryView>::empty() =~= queue);
    } else {
        lemma_queue_drains(params, queue[0], queue.drop_first());
        assert(seq![in_flight] + (seq![queue[0]] + queue.drop_first()) =~= seq![in_flight]
            + queue);
        assert(seq![queue[0]] + queue.drop_first() =~= queue);
    }
}

/// A round without a failure delivers the block's entries in storage's order
/// and leaves the session exactly as it found it.
pub proof fn lemma_round(params: SubscribeParametersView, round: BlockRound)
    ensures
        run(waiting(params), round_events(round)) == waiting(params),
        delivered(waiting(params), round_events(round)) == wire_entries(round.rows),
        handed_out(waiting(params), round_events(round)) == wire_entries(round.rows),
        lag_reports(waiting(params), round_events(round)) == Seq::<nat>::empty(),
{
    let start = waiting(params);
    let head = opening(round);
    let entries = wire_entries(round.rows);
    let tail = confirmations(round.rows.len());
    lemma_run_in_parts(start, head, tail);
    let mediating = start.next(head[0]);
    let fetching = mediating.next(head[1]);
    let sending = fetching.next(head[2]);
    assert(head.drop_first().drop_first().drop_first() =~= Seq::<EventView>::empty());
    assert(run(start, head) == sending) by {
        reveal_with_fuel(run, 4);
    }
    assert(delivered(start, head) =~= Seq::<WireLogEntryView>::empty()) by {
        reveal_with_fuel(delivered, 4);
    }
    assert(handed_out(start, head) =~= fetching.offered(head[2])) by {
        reveal_with_fuel(handed_out, 4);
    }
    assert(lag_reports(start, head) =~= Seq::<nat>::empty()) by {
        reveal_with_fuel(lag_reports, 4);
    }
    if entries.len() == 0 {
        assert(tail =~= Seq::<EventView>::empty());
        assert(entries =~= Seq::<WireLogEntryView>::empty());
    } else {
        lemma_queue_drains(params, entries[0], entries.drop_first());
        assert(entries.drop_first().len() + 1 == round.rows.len());
        assert(seq![entries[0]] + entries.drop_first() =~= entries);
    }
}

/// The delivered stream is the concatenation of the blocks' entries.
///
/// Where the bus announces blocks one after the other, with no lag and no
/// closure, and nothing fails, the session delivers each block's entries in
/// the order of storage's rows and the blocks in the order of their signals,
/// hands the transport exactly those entries, and waits for the next signal
/// afterwards.
pub proof fn lemma_stream_is_concatenation(
    params: SubscribeParametersView,
    rounds: Seq<BlockRound>,
)
    ensures
        run(waiting(params), rounds_events(rounds)) == waiting(params),
        delivered(waiting(params), rounds_events(rounds)) == rounds_entries(rounds),
        handed_out(waiting(params), rounds_events(rounds)) == rounds_entries(rounds),
        lag_reports(waiting(params), rounds_events(rounds)) == Seq::<nat>::empty(),
    decreases rounds.len(),
{
    let start = waiting(params);
    if rounds.len() > 0 {
        let rest = rounds.drop_first();
        let events = rounds.map_values(|round: BlockRound| round_events(round));
        let entries = rounds.map_values(|round: BlockRound| wire_entries(round.rows));
        assert(events.drop_first() =~= rest.map_values(
            |round: BlockRound| round_events(round),
        ));
        assert(entries.drop_first() =~= rest.map_values(
            |round: BlockRound| wire_entries(round.rows),
        ));
        assert(rounds_events(rounds) == round_events(rounds[0]) + rounds_events(rest));
        assert(rounds_entries(rounds) == wire_entries(rounds[0].rows) + rounds_entries(rest));
        lemma_round(params, rounds[0]);
        lemma_stream_is_concatenation(params, rest);
        lemma_run_in_parts(start, round_events(rounds[0]), rounds_events(rest));
    }
}

/// Acceptance comes before the first delivered message.
///
/// Take the first `count` events that a subscription is fed from the moment
/// it is requested. If none of them, but perhaps the last, is the accepted
/// handshake, then by the end of them nothing has been handed to the transport
/// and nothing delivered: the first message comes strictly after acceptance.
pub proof fn lemma_acceptance_precedes_delivery(
    params: SubscribeParametersView,
    events: Seq<EventView>,
    count: int,
)
    requires
        0 <= count <= events.len(),
        forall|i: int| 0 <= i < count - 1 ==> events[i] != EventView::Handshake(Ok(())),
    ensures
        handed_out(pending(params), events.take(count)) == Seq::<WireLogEntryView>::empty(),
        delivered(pending(params), events.take(count)) == Seq::<WireLogEntryView>::empty(),
{
    lemma_silent_until_accepted(pending(params), events.take(count));
}

/// A subscription that is pending, or was refused, sends nothing until an
/// accepted handshake has been taken in.
proof fn lemma_silent_until_accepted(start: SubscriptionView, events: Seq<EventView>)
    requires
        start.phase is Pending || start.phase is Terminated,
        forall|i: int| 0 <= i < events.len() - 1 ==> events[i] != EventView::Handshake(Ok(())),
    ensures
        handed_out(start, events) == Seq::<WireLogEntryView>::empty(),
        delivered(start, events) == Seq::<WireLogEntryView>::empty(),
    decreases events.len(),
{
    if events.len() > 0 {
        let after = start.next(events[0]);
        let rest = events.drop_first();
        if events.len() == 1 {
            assert(rest.len() == 0);
            assert(handed_out(after, rest) == Seq::<WireLogEntryView>::empty());
            assert(delivered(after, rest) == Seq::<WireLogEntryView>::empty());
        } else {
            assert(events[0] != EventView::Handshake(Ok(())));
            if let EventView::Handshake(Ok(unit)) = events[0] {
                assert(unit == ());
            }
            assert(after.phase is Pending || after.phase is Terminated);
            assert forall|i: int| 0 <= i < rest.len() - 1 implies rest[i] != EventView::Handshake(
                Ok(()),
            ) by {
                assert(rest[i] == events[i + 1]);
            }
            lemma_silent_until_accepted(after, rest);
        }
    }
}

/// Processing a block leaves nothing behind.
///
/// A round without a failure returns the session to the very state it started
/// in, so the same block with the same answers of mediation and storage, met a
/// second time, makes the session ask for the same work and deliver the same
/// entries again.
pub proof fn lemma_round_repeats(params: SubscribeParametersView, round: BlockRound)
    ensures
        run(waiting(params), round_events(round)) == waiting(params),
        run(waiting(params), round_events(round) + round_events(round)) == waiting(params),
        delivered(waiting(params), round_events(round) + round_events(round))
            == wire_entries(round.rows) + wire_entries(round.rows),
        handed_out(waiting(params), round_events(round) + round_events(round))
            == wire_entries(round.rows) + wire_entries(round.rows),
{
    lemma_round(params, round);
    lemma_run_in_parts(waiting(params), round_events(round), round_events(round));
}

/// What a session asks of mediation and storage for a block depends on the
/// block alone: mediation is asked about the announced hash (with the
/// session's parameters, which never change), and storage is handed the very
/// query that mediation returned.
pub proof fn lemma_requests_depend_on_block_alone(
    params: SubscribeParametersView,
    block_hash: Seq<char>,
    query: ValidatedQueryView,
)
    ensures
        waiting(params).reaction(signal(block_hash)) == Some(
            quiet(ActionView::Mediate { block_hash }),
        ),
        waiting(params).next(signal(block_hash)) == mediating(params),
        mediating(params).reaction(EventView::Mediated(Ok(query))) == Some(
            quiet(ActionView::Fetch { query }),
        ),
        mediating(params).next(EventView::Mediated(Ok(query))) == fetching(params),
{
}

/// Lag costs the stream nothing but the dropped blocks.
///
/// A waiting session that is told of `dropped` lost signals stays as it is and
/// goes on receiving; the count goes to the log and nowhere else. Whatever
/// follows is processed as if the lag had not been reported: the same state
/// in the end and the same entries handed out and delivered, so that the next
/// block processed is the first one announced after the drop.
pub proof fn lemma_lag_is_invisible(
    params: SubscribeParametersView,
    dropped: nat,
    later: Seq<EventView>,
)
    ensures
        waiting(params).next(lag(dropped)) == waiting(params),
        waiting(params).reaction(lag(dropped)) == Some(lag_notice(dropped)),
        run(waiting(params), seq![lag(dropped)] + later) == run(waiting(params), later),
        delivered(waiting(params), seq![lag(dropped)] + later) == delivered(
            waiting(params),
            later,
        ),
        handed_out(waiting(params), seq![lag(dropped)] + later) == handed_out(
            waiting(params),
            later,
        ),
        lag_reports(waiting(params), seq![lag(dropped)] + later) == seq![dropped]
            + lag_reports(waiting(params), later),
{
    let start = waiting(params);
    lemma_run_of_one(start, lag(dropped));
    lemma_run_in_parts(start, seq![lag(dropped)], later);
    assert(Seq::<WireLogEntryView>::empty() + delivered(start, later) =~= delivered(
        start,
        later,
    ));
    assert(Seq::<WireLogEntryView>::empty() + handed_out(start, later) =~= handed_out(
        start,
        later,
    ));
}

/// The producer's shutdown ends a session at once and without an error.
///
/// One step takes a waiting session that learns of the closure to its end,
/// with a clean outcome; the event delivers nothing, and nothing that follows
/// is taken in.
pub proof fn lemma_closure_ends_cleanly(params: SubscribeParametersView, later: Seq<EventView>)
    ensures
        waiting(params).next(closure()) == terminated(params, Ok(())),
        waiting(params).reaction(closure()) == Some(quiet(ActionView::Stop { outcome: Ok(()) })),
        run(waiting(params), seq![closure()] + later) == terminated(params, Ok(())),
        delivered(waiting(params), seq![closure()] + later)
            == Seq::<WireLogEntryView>::empty(),
        handed_out(waiting(params), seq![closure()] + later)
            == Seq::<WireLogEntryView>::empty(),
{
    let start = waiting(params);
    lemma_run_of_one(start, closure());
    lemma_run_in_parts(start, seq![closure()], later);
    lemma_terminated_is_final(terminated(params, Ok(())), later);
}

/// The events of a block whose storage query fails: its signal, mediation's
/// query and the failure.
pub open spec fn failed_fetch_events(
    block_hash: Seq<char>,
    query: ValidatedQueryView,
    report: ErrorReportView,
) -> Seq<EventView> {
    seq![signal(block_hash), EventView::Mediated(Ok(query)), EventView::Fetched(Err(report))]
}

/// A failed storage query ends the stream after the blocks before it.
///
/// Where the blocks of `before` are processed without a failure and the
/// storage query of the block that follows fails, every entry of the blocks
/// before has been delivered, no entry of the failing block is handed to the
/// transport, the session is over with the storage failure as its outcome,
/// and nothing that follows is delivered.
pub proof fn lemma_failed_fetch_closes_stream(
    params: SubscribeParametersView,
    before: Seq<BlockRound>,
    block_hash: Seq<char>,
    query: ValidatedQueryView,
    report: ErrorReportView,
    later: Seq<EventView>,
)
    ensures
        ({
            let events = rounds_events(before) + failed_fetch_events(block_hash, query, report);
            &&& run(waiting(params), events + later) == terminated(
                params,
                Err(FailureView::Storage(report)),
            )
            &&& delivered(waiting(params), events + later) == rounds_entries(before)
            &&& handed_out(waiting(params), events + later) == rounds_entries(before)
        }),
{
    let start = waiting(params);
    let failing = failed_fetch_events(block_hash, query, report);
    let events = rounds_events(before) + failing;
    let end = terminated(params, Err(FailureView::Storage(report)));
    lemma_stream_is_concatenation(params, before);
    lemma_run_in_parts(start, rounds_events(before), failing);
    lemma_run_in_parts(start, events, later);
    assert(failing.drop_first().drop_first().drop_first() =~= Seq::<EventView>::empty());
    assert(run(start, failing) == end) by {
        reveal_with_fuel(run, 4);
    }
    assert(delivered(start, failing) =~= Seq::<WireLogEntryView>::empty()) by {
        reveal_with_fuel(delivered, 4);
    }
    assert(handed_out(start, failing) =~= Seq::<WireLogEntryView>::empty()) by {
        reveal_with_fuel(handed_out, 4);
    }
    lemma_terminated_is_final(end, later);
    assert(rounds_entries(before) + Seq::<WireLogEntryView>::empty() =~= rounds_entries(before));
}

/// A session processes one block at a time.
///
/// While a block is being mediated, fetched or delivered, the session takes in
/// nothing from the bus: a signal, lag or closure offered to it then changes
/// nothing and gets no reaction. The next signal is read only once the block is
/// done or the session is over.
pub proof fn lemma_one_block_at_a_time(start: SubscriptionView, event: ListenerEventView)
    requires
        start.phase.is_processing(),
    ensures
        start.next(EventView::Listener(event)) == start,
        start.reaction(EventView::Listener(event)) is None,
{
}

/// A session has at most one query in flight.
///
/// Storage is asked only in answer to mediation's query, and from then until
/// storage has answered the session asks for nothing at all.
pub proof fn lemma_one_query_in_flight(start: SubscriptionView, event: EventView)
    ensures
        start.reaction(event) is Some && start.reaction(event)->0.action is Fetch ==> {
            &&& start.phase is Mediating
            &&& event == EventView::Mediated(Ok(start.reaction(event)->0.action->query))
            &&& start.next(event).phase is Fetching
        },
        start.phase is Fetching && !(event is Fetched) ==> {
            &&& start.reaction(event) is None
            &&& start.next(event) == start
        },
{
}

/// The entry that a subscription has handed to the transport and not heard
/// of since, if there is one.
spec fn unconfirmed(subscription: SubscriptionView) -> Seq<WireLogEntryView> {
    if subscription.phase is Delivering {
        seq![subscription.phase->in_flight]
    } else {
        Seq::empty()
    }
}

/// From any state: what a run delivers, and then still has in flight, opens
/// what was in flight before it and what it hands out.
proof fn lemma_delivered_opens_handed_out(start: SubscriptionView, events: Seq<EventView>)
    ensures
        (delivered(start, events) + unconfirmed(run(start, events))).is_prefix_of(
            unconfirmed(start) + handed_out(start, events),
        ),
    decreases events.len(),
{
    if events.len() > 0 {
        let event = events[0];
        let after = start.next(event);
        let rest = events.drop_first();
        lemma_delivered_opens_handed_out(after, rest);
        let shorter = delivered(after, rest) + unconfirmed(run(after, rest));
        let longer = unconfirmed(after) + handed_out(after, rest);
        if start.phase is Delivering && event is Sent && event != EventView::Sent(Ok(())) {
            if let EventView::Sent(Ok(unit)) = event {
                assert(unit == ());
            }
            lemma_terminated_is_final(after, rest);
        } else {
            let head = start.confirmed(event);
            assert(unconfirmed(start) + start.offered(event) =~= head + unconfirmed(after));
            assert(delivered(start, events) + unconfirmed(run(start, events)) =~= head
                + shorter);
            assert(unconfirmed(start) + handed_out(start, events) =~= head + longer);
            assert forall|i: int| 0 <= i < head.len() + shorter.len() implies (head
                + shorter)[i] == (head + longer)[i] by {
                if i >= head.len() {
                    assert(shorter[i - head.len()] == longer[i - head.len()]);
                }
            }
        }
    }
}

/// Nothing is delivered that was not handed out.
///
/// In every run of a subscription, from its request on, the delivered stream
/// opens the stream of entries handed to the transport: the same entries in
/// the same order, short of those not confirmed.
pub proof fn lemma_delivered_was_handed_out(
    params: SubscribeParametersView,
    events: Seq<EventView>,
)
    ensures
        delivered(pending(params), events).is_prefix_of(handed_out(pending(params), events)),
{
    let start = pending(params);
    lemma_delivered_opens_handed_out(start, events);
    assert(unconfirmed(start) + handed_out(start, events) =~= handed_out(start, events));
    let whole = delivered(start, events) + unconfirmed(run(start, events));
    assert(delivered(start, events) =~= whole.subrange(0, delivered(start, events).len() as int));
}

} // verus!
