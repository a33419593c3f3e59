//! Runs of a subscription: what a sequence of events leads to and what it
//! makes the subscription send.
use crate::log::{wire_entries, ShadowLogRowView, ValidatedQueryView, WireLogEntryView};
use crate::model::{signal, ActionView, EventView, SubscriptionView};
use vstd::prelude::*;

verus! {

impl SubscriptionView {
    /// The entries that the reaction to `event` hands to the transport: one
    /// where the reaction is a delivery, none otherwise.
    pub open spec fn offered(self, event: EventView) -> Seq<WireLogEntryView> {
        match self.reaction(event) {
            Some(reaction) => match reaction.action {
                ActionView::Deliver { entry } => seq![entry],
                _ => Seq::empty(),
            },
            None => Seq::empty(),
        }
    }

    /// The lag that the reaction to `event` reports for the log: one count
    /// where the event is lag that the subscription awaited, none otherwise.
    pub open spec fn reported(self, event: EventView) -> Seq<nat> {
        match self.reaction(event) {
            Some(reaction) => match reaction.lagged {
                Some(dropped) => seq![dropped],
                None => Seq::empty(),
            },
            None => Seq::empty(),
        }
    }
}

/// The subscription after `events`, taken in order.
pub open spec fn run(start: SubscriptionView, events: Seq<EventView>) -> SubscriptionView
    decreases events.len(),
{
    if events.len() == 0 {
        start
    } else {
        run(start.next(events[0]), events.drop_first())
    }
}

/// The delivered stream of a run: the entries whose sending the events
/// confirm, in order.
pub open spec fn delivered(start: SubscriptionView, events: Seq<EventView>) -> Seq<
    WireLogEntryView,
>
    decreases events.len(),
{
    if events.len() == 0 {
        Seq::empty()
    } else {
        start.confirmed(events[0]) + delivered(start.next(events[0]), events.drop_first())
    }
}

/// The entries that a run hands to the transport, in order, confirmed or not.
pub open spec fn handed_out(start: SubscriptionView, events: Seq<EventView>) -> Seq<
    WireLogEntryView,
>
    decreases events.len(),
{
    if events.len() == 0 {
        Seq::empty()
    } else {
        start.offered(events[0]) + handed_out(start.next(events[0]), events.drop_first())
    }
}

/// The lag counts that a run reports for the log, in order.
pub open spec fn lag_reports(start: SubscriptionView, events: Seq<EventView>) -> Seq<nat>
    decreases events.len(),
{
    if events.len() == 0 {
        Seq::empty()
    } else {
        start.reported(events[0]) + lag_reports(start.next(events[0]), events.drop_first())
    }
}

/// One indexed block as a session meets it: the hash that the bus announces,
/// the query that mediation resolves for it and the rows that storage returns.
pub struct BlockRound {
    pub block_hash: Seq<char>,
    pub query: ValidatedQueryView,
    pub rows: Seq<ShadowLogRowView>,
}

/// `count` confirmations of a sent entry.
pub open spec fn confirmations(count: nat) -> Seq<EventView> {
    Seq::new(count, |i: int| EventView::Sent(Ok(())))
}

/// The events of one block that is processed without a failure: its signal,
/// mediation's query, storage's rows, and one confirmation per row.
pub open spec fn round_events(round: BlockRound) -> Seq<EventView> {
    seq![
        signal(round.block_hash),
        EventView::Mediated(Ok(round.query)),
        EventView::Fetched(Ok(round.rows)),
    ] + confirmations(round.rows.len())
}

/// The events of several blocks processed one after the other without a
/// failure, with no lag and no closure between them.
pub open spec fn rounds_events(rounds: Seq<BlockRound>) -> Seq<EventView> {
    rounds.map_values(|round: BlockRound| round_events(round)).flatten()
}

/// The entries of several blocks: each block's rows in storage's order, the
/// blocks in the order given.
pub open spec fn rounds_entries(rounds: Seq<BlockRound>) -> Seq<WireLogEntryView> {
    rounds.map_values(|round: BlockRound| wire_entries(round.rows)).flatten()
}

/// A run of one event is one step.
pub proof fn lemma_run_of_one(start: SubscriptionView, event: EventView)
    ensures
        run(start, seq![event]) == start.next(event),
        delivered(start, seq![event]) == start.confirmed(event),
        handed_out(start, seq![event]) == start.offered(event),
        lag_reports(start, seq![event]) == start.reported(event),
{
    let events = seq![event];
    let after = start.next(event);
    assert(events.drop_first().len() == 0);
    assert(run(after, events.drop_first()) == after);
    assert(delivered(start, events) =~= start.confirmed(event)) by {
        assert(delivered(after, events.drop_first()) == Seq::<WireLogEntryView>::empty());
    }
    assert(handed_out(start, events) =~= start.offered(event)) by {
        assert(handed_out(after, events.drop_first()) == Seq::<WireLogEntryView>::empty());
    }
    assert(lag_reports(start, events) =~= start.reported(event)) by {
        assert(lag_reports(after, events.drop_first()) == Seq::<nat>::empty());
    }
}

/// A run of two parts is the run of the second part from where the first one
/// ends, and it sends what the two parts send, one after the other.
pub proof fn lemma_run_in_parts(
    start: SubscriptionView,
    first: Seq<EventView>,
    second: Seq<EventView>,
)
    ensures
        run(start, first + second) == run(run(start, first), second),
        delivered(start, first + second) == delivered(start, first) + delivered(
            run(start, first),
            second,
        ),
        handed_out(start, first + second) == handed_out(start, first) + handed_out(
            run(start, first),
            second,
        ),
        lag_reports(start, first + second) == lag_reports(start, first) + lag_reports(
            run(start, first),
            second,
        ),
    decreases first.len(),
{
    if first.len() == 0 {
        assert(first + second =~= second);
    } else {
        let after = start.next(first[0]);
        assert((first + second)[0] == first[0]);
        assert((first + second).drop_first() =~= first.drop_first() + second);
        lemma_run_in_parts(after, first.drop_first(), second);
        assert(delivered(start, first + second) =~= delivered(start, first) + delivered(
            run(start, first),
            second,
        ));
        assert(handed_out(start, first + second) =~= handed_out(start, first) + handed_out(
            run(start, first),
            second,
        ));
        assert(lag_reports(start, first + second) =~= lag_reports(start, first) + lag_reports(
            run(start, first),
            second,
        ));
    }
}

/// The parameters of a subscription are the same after every run.
pub proof fn lemma_params_never_change(start: SubscriptionView, events: Seq<EventView>)
    ensures
        run(start, events).params == start.params,
    decreases events.len(),
{
    if events.len() > 0 {
        lemma_params_never_change(start.next(events[0]), events.drop_first());
    }
}

/// A subscription that is over stays as it is, whatever events follow, and
/// sends and reports nothing more.
pub proof fn lemma_terminated_is_final(start: SubscriptionView, events: Seq<EventView>)
    requires
        start.phase is Terminated,
    ensures
        run(start, events) == start,
        delivered(start, events) == Seq::<WireLogEntryView>::empty(),
        handed_out(start, events) == Seq::<WireLogEntryView>::empty(),
        lag_reports(start, events) == Seq::<nat>::empty(),
    decreases events.len(),
{
    if events.len() > 0 {
        lemma_terminated_is_final(start.next(events[0]), events.drop_first());
    }
}

} // verus!
