//! Running a subscription over a recorded sequence of events.
use crate::log::{entry_views, WireLogEntry};
use crate::model::{pending, EventView};
use crate::params::SubscribeParameters;
use crate::subscription::{Action, Event, Reaction, Subscription};
use crate::trace::{delivered, lag_reports, lemma_run_in_parts, lemma_run_of_one, run};
use vstd::prelude::*;

verus! {

/// The models of a list of events, in order.
pub open spec fn event_views(events: Seq<Event>) -> Seq<EventView> {
    events.map_values(|event: Event| event@)
}

/// A list of lag counts as numbers.
pub open spec fn counts(reports: Seq<u64>) -> Seq<nat> {
    reports.map_values(|dropped: u64| dropped as nat)
}

/// What a recorded run came to.
pub struct Replay {
    /// The subscription as the run leaves it.
    pub subscription: Subscription,
    /// The delivered stream: the entries whose sending the record confirms.
    pub delivered: Vec<WireLogEntry>,
    /// The lag counts that the run reported for the log.
    pub lag_reports: Vec<u64>,
}

/// Runs a fresh subscription over a record of events, from the handshake on,
/// and collects what the run delivers and reports.
pub fn replay(params: SubscribeParameters, events: Vec<Event>) -> (outcome: Replay)
    ensures
        outcome.subscription@ == run(pending(params@), event_views(events@)),
        entry_views(outcome.delivered@) == delivered(pending(params@), event_views(events@)),
        counts(outcome.lag_reports@) == lag_reports(pending(params@), event_views(events@)),
{
    let ghost start = pending(params@);
    let ghost record = event_views(events@);
    let mut subscription = Subscription::new(params);
    let mut sent: Vec<WireLogEntry> = Vec::new();
    let mut lags: Vec<u64> = Vec::new();
    let mut in_flight: Option<WireLogEntry> = None;
    assert(record.take(0) =~= Seq::<EventView>::empty());
    for event in it: events
        invariant
            record == event_views(it.seq()),
            subscription@ == run(start, record.take(it.index() as int)),
            entry_views(sent@) == delivered(start, record.take(it.index() as int)),
            counts(lags@) == lag_reports(start, record.take(it.index() as int)),
            subscription@.phase is Delivering ==> in_flight is Some && in_flight->0@
                == subscription@.phase->in_flight,
    {
        let ghost done = it.index() as int;
        let ghost before = subscription@;
        let ghost taken = event@;
        let ghost sent_before = sent@;
        let ghost lags_before = lags@;
        proof {
            assert(0 <= done < record.len());
            assert(record[done] == taken);
            assert(record.take(done + 1) =~= record.take(done) + seq![taken]);
            lemma_run_in_parts(start, record.take(done), seq![taken]);
            lemma_run_of_one(before, taken);
        }
        let confirms = subscription.awaits(&event) && matches!(&event, Event::Sent(Ok(_)));
        let reaction = subscription.step(event);
        if confirms {
            if let Some(entry) = in_flight.take() {
                sent.push(entry);
                assert(entry_views(sent@) =~= entry_views(sent_before) + seq![entry@]);
            }
        }
        assert(entry_views(sent@) =~= entry_views(sent_before) + before.confirmed(taken));
        if let Some(Reaction { action, lagged }) = reaction {
            if let Some(dropped) = lagged {
                lags.push(dropped);
                assert(counts(lags@) =~= counts(lags_before) + seq![dropped as nat]);
            }
            if let Action::Deliver { entry } = action {
                in_flight = Some(entry);
            }
        }
        assert(counts(lags@) =~= counts(lags_before) + before.reported(taken));
    }
    assert(record.take(record.len() as int) =~= record);
    Replay { subscription, delivered: sent, lag_reports: lags }
}

} // verus!
