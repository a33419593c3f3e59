//! The subscription state machine as mathematics: phases, events, actions and
//! the transition function that the executable engine implements.
use crate::failure::{
    delivery_failure, DeliveryFaultView, ErrorReportView, FailureView,
};
use crate::listener::ListenerEventView;
use crate::log::{wire_entries, ShadowLogRowView, ValidatedQueryView, WireLogEntryView};
use crate::params::SubscribeParametersView;
use vstd::prelude::*;

verus! {

/// Where a subscription stands.
pub enum PhaseView {
    /// The handshake has not been answered; no session exists yet.
    Pending,
    /// The session waits for the next event of the bus.
    Waiting,
    /// Processing a block: query mediation has been asked.
    Mediating,
    /// Processing a block: the storage query has been asked.
    Fetching,
    /// Processing a block: `in_flight` has been handed to the transport and
    /// `queue` holds the block's entries that follow it.
    Delivering { in_flight: WireLogEntryView, queue: Seq<WireLogEntryView> },
    /// The subscription is over, cleanly (`Ok`) or not.
    Terminated { outcome: Result<(), FailureView> },
}

impl PhaseView {
    /// A block is being processed.
    pub open spec fn is_processing(self) -> bool {
        self is Mediating || self is Fetching || self is Delivering
    }
}

/// Mathematical model of a subscription: its fixed parameters and its phase.
pub struct SubscriptionView {
    pub params: SubscribeParametersView,
    pub phase: PhaseView,
}

/// The outcome of one piece of outside work.
pub enum EventView {
    /// The transport answered the handshake: accepted, or refused with a reason.
    Handshake(Result<(), Seq<char>>),
    /// A receive on the bus returned.
    Listener(ListenerEventView),
    /// Query mediation returned.
    Mediated(Result<ValidatedQueryView, ErrorReportView>),
    /// The storage query returned the block's rows, in its order.
    Fetched(Result<Seq<ShadowLogRowView>, ErrorReportView>),
    /// The entry in flight was serialized and sent, or one of the two failed.
    Sent(Result<(), DeliveryFaultView>),
}

/// The outside work that a subscription asks for next.
pub enum ActionView {
    /// Await the next event of the bus.
    Receive,
    /// Ask query mediation to bind the subscription's parameters to this block.
    Mediate { block_hash: Seq<char> },
    /// Run this query against storage.
    Fetch { query: ValidatedQueryView },
    /// Serialize this entry and send it as one message.
    Deliver { entry: WireLogEntryView },
    /// Nothing more: end the stream. The outcome is for diagnostics only.
    Stop { outcome: Result<(), FailureView> },
}

/// What a subscription answers an event with.
pub struct ReactionView {
    /// The outside work to do next.
    pub action: ActionView,
    /// The number of signals the bus dropped, where the event reported lag. It
    /// is to be logged, and shows nowhere else.
    pub lagged: Option<nat>,
}

/// A reaction that reports no lag.
pub open spec fn quiet(action: ActionView) -> ReactionView {
    ReactionView { action, lagged: None }
}

/// A subscription whose handshake is still open.
pub open spec fn pending(params: SubscribeParametersView) -> SubscriptionView {
    SubscriptionView { params, phase: PhaseView::Pending }
}

/// A session that waits for the bus.
pub open spec fn waiting(params: SubscribeParametersView) -> SubscriptionView {
    SubscriptionView { params, phase: PhaseView::Waiting }
}

/// A session that has asked query mediation about a block.
pub open spec fn mediating(params: SubscribeParametersView) -> SubscriptionView {
    SubscriptionView { params, phase: PhaseView::Mediating }
}

/// A session that has asked storage for a block's rows.
pub open spec fn fetching(params: SubscribeParametersView) -> SubscriptionView {
    SubscriptionView { params, phase: PhaseView::Fetching }
}

/// The bus announcing the block with this hash.
pub open spec fn signal(block_hash: Seq<char>) -> EventView {
    EventView::Listener(ListenerEventView::NewSignal(block_hash))
}

/// The bus reporting that it dropped this many signals.
pub open spec fn lag(dropped: nat) -> EventView {
    EventView::Listener(ListenerEventView::Lagged(dropped))
}

/// The bus reporting that its producer is gone.
pub open spec fn closure() -> EventView {
    EventView::Listener(ListenerEventView::Closed)
}

/// The reaction to lag: go on receiving, and log the count.
pub open spec fn lag_notice(dropped: nat) -> ReactionView {
    ReactionView { action: ActionView::Receive, lagged: Some(dropped) }
}

/// A subscription that has ended with `outcome`.
pub open spec fn terminated(
    params: SubscribeParametersView,
    outcome: Result<(), FailureView>,
) -> SubscriptionView {
    SubscriptionView { params, phase: PhaseView::Terminated { outcome } }
}

/// The phase that sends `entries`, in order, and the action that starts it:
/// waiting for the bus where there is nothing to send.
pub open spec fn deliver_from(entries: Seq<WireLogEntryView>) -> (PhaseView, ActionView) {
    if entries.len() == 0 {
        (PhaseView::Waiting, ActionView::Receive)
    } else {
        (
            PhaseView::Delivering { in_flight: entries[0], queue: entries.drop_first() },
            ActionView::Deliver { entry: entries[0] },
        )
    }
}

/// In this phase the subscription has asked for the work that `event` is the
/// outcome of. A subscription that is over awaits nothing.
pub open spec fn awaits(phase: PhaseView, event: EventView) -> bool {
    match phase {
        PhaseView::Pending => event is Handshake,
        PhaseView::Waiting => event is Listener,
        PhaseView::Mediating => event is Mediated,
        PhaseView::Fetching => event is Fetched,
        PhaseView::Delivering { .. } => event is Sent,
        PhaseView::Terminated { .. } => false,
    }
}

/// The phase after an awaited event, and the reaction to it.
pub open spec fn transition(phase: PhaseView, event: EventView) -> (PhaseView, ReactionView)
    recommends
        awaits(phase, event),
{
    match event {
        EventView::Handshake(Ok(_)) => (PhaseView::Waiting, quiet(ActionView::Receive)),
        EventView::Handshake(Err(reason)) => stop(Err(FailureView::Handshake(reason))),
        EventView::Listener(ListenerEventView::NewSignal(block_hash)) => (
            PhaseView::Mediating,
            quiet(ActionView::Mediate { block_hash }),
        ),
        EventView::Listener(ListenerEventView::Lagged(dropped)) => (
            PhaseView::Waiting,
            lag_notice(dropped),
        ),
        EventView::Listener(ListenerEventView::Closed) => stop(Ok(())),
        EventView::Mediated(Ok(query)) => (
            PhaseView::Fetching,
            quiet(ActionView::Fetch { query }),
        ),
        EventView::Mediated(Err(report)) => stop(Err(FailureView::Validation(report))),
        EventView::Fetched(Ok(rows)) => {
            let (next, action) = deliver_from(wire_entries(rows));
            (next, quiet(action))
        },
        EventView::Fetched(Err(report)) => stop(Err(FailureView::Storage(report))),
        EventView::Sent(Ok(_)) => {
            let (next, action) = deliver_from(phase->queue);
            (next, quiet(action))
        },
        EventView::Sent(Err(fault)) => stop(Err(delivery_failure(fault))),
    }
}

/// The end of a subscription with `outcome`.
pub open spec fn stop(outcome: Result<(), FailureView>) -> (PhaseView, ReactionView) {
    (PhaseView::Terminated { outcome }, quiet(ActionView::Stop { outcome }))
}

impl SubscriptionView {
    /// The subscription after `event`: moved on where it awaits the event,
    /// unchanged where it does not. The parameters never change.
    pub open spec fn next(self, event: EventView) -> SubscriptionView {
        if awaits(self.phase, event) {
            SubscriptionView { params: self.params, phase: transition(self.phase, event).0 }
        } else {
            self
        }
    }

    /// The reaction to `event`: none where the subscription does not await it.
    pub open spec fn reaction(self, event: EventView) -> Option<ReactionView> {
        if awaits(self.phase, event) {
            Some(transition(self.phase, event).1)
        } else {
            None
        }
    }

    /// The entries whose delivery `event` confirms: the one in flight, where
    /// the event says that it was sent, and none otherwise.
    pub open spec fn confirmed(self, event: EventView) -> Seq<WireLogEntryView> {
        if self.phase is Delivering && event == EventView::Sent(Ok(())) {
            seq![self.phase->in_flight]
        } else {
            Seq::empty()
        }
    }
}

} // verus!
