//! The executable engine of one subscription.
//!
//! A [`Subscription`] never awaits. Its driver performs the [`Action`] it hands
//! out, in whatever way the surrounding service does such work, and feeds the
//! outcome back with [`Subscription::step`] as an [`Event`].
use crate::failure::{DeliveryFault, ErrorReport, Failure, FailureView};
use crate::listener::ListenerEvent;
use crate::log::{
    entry_views, row_views, transform_rows, ShadowLogRow, ValidatedQueryParams, WireLogEntry,
    WireLogEntryView,
};
use crate::model::{
    pending, waiting, ActionView, EventView, PhaseView, ReactionView, SubscriptionView,
};
use crate::params::SubscribeParameters;
use std::collections::VecDeque;
use vstd::prelude::*;

verus! {

/// The outcome of one piece of outside work, handed to the engine.
#[derive(Debug, PartialEq, Eq)]
pub enum Event {
    /// The transport answered the handshake: accepted, or refused with a reason.
    Handshake(Result<(), String>),
    /// A receive on the bus returned.
    Listener(ListenerEvent),
    /// Query mediation returned.
    Mediated(Result<ValidatedQueryParams, ErrorReport>),
    /// The storage query returned the block's rows, in its order.
    Fetched(Result<Vec<ShadowLogRow>, ErrorReport>),
    /// The entry in flight was serialized and sent, or one of the two failed.
    Sent(Result<(), DeliveryFault>),
}

impl View for Event {
    type V = EventView;

    open spec fn view(&self) -> EventView {
        match self {
            Event::Handshake(Ok(_)) => EventView::Handshake(Ok(())),
            Event::Handshake(Err(reason)) => EventView::Handshake(Err(reason@)),
            Event::Listener(event) => EventView::Listener(event@),
            Event::Mediated(Ok(query)) => EventView::Mediated(Ok(query@)),
            Event::Mediated(Err(report)) => EventView::Mediated(Err(report@)),
            Event::Fetched(Ok(rows)) => EventView::Fetched(Ok(row_views(rows@))),
            Event::Fetched(Err(report)) => EventView::Fetched(Err(report@)),
            Event::Sent(Ok(_)) => EventView::Sent(Ok(())),
            Event::Sent(Err(fault)) => EventView::Sent(Err(fault@)),
        }
    }
}

/// The model of how a subscription ended.
pub open spec fn outcome_view(outcome: Result<(), Failure>) -> Result<(), FailureView> {
    match outcome {
        Ok(_) => Ok(()),
        Err(failure) => Err(failure@),
    }
}

/// The outside work that the engine asks for next.
#[derive(Debug, PartialEq, Eq)]
pub enum Action {
    /// Await the next event of the bus.
    Receive,
    /// Ask query mediation to bind the subscription's parameters to this block.
    Mediate { block_hash: String },
    /// Run this query against storage.
    Fetch { query: ValidatedQueryParams },
    /// Serialize this entry and send it as one message.
    Deliver { entry: WireLogEntry },
    /// Nothing more: end the stream. The outcome is for diagnostics only; the
    /// client is told nothing but that the stream has ended.
    Stop { outcome: Result<(), Failure> },
}

impl View for Action {
    type V = ActionView;

    open spec fn view(&self) -> ActionView {
        match self {
            Action::Receive => ActionView::Receive,
            Action::Mediate { block_hash } => ActionView::Mediate { block_hash: block_hash@ },
            Action::Fetch { query } => ActionView::Fetch { query: query@ },
            Action::Deliver { entry } => ActionView::Deliver { entry: entry@ },
            Action::Stop { outcome } => ActionView::Stop { outcome: outcome_view(*outcome) },
        }
    }
}

/// What the engine answers an event with.
#[derive(Debug, PartialEq, Eq)]
pub struct Reaction {
    /// The outside work to do next.
    pub action: Action,
    /// The number of signals the bus dropped, where the event reported lag. It
    /// is to be logged, and shows nowhere else.
    pub lagged: Option<u64>,
}

impl View for Reaction {
    type V = ReactionView;

    open spec fn view(&self) -> ReactionView {
        ReactionView {
            action: self.action@,
            lagged: match self.lagged {
                Some(dropped) => Some(dropped as nat),
                None => None,
            },
        }
    }
}

/// The model of an optional reaction.
pub open spec fn reaction_view(reaction: Option<Reaction>) -> Option<ReactionView> {
    match reaction {
        Some(reaction) => Some(reaction@),
        None => None,
    }
}

/// The stage a subscription is in, without what the stage holds.
#[derive(Debug, Clone, Copy, PartialEq, Eq, Structural)]
pub enum Status {
    /// The handshake has not been answered.
    Pending,
    /// Waiting for the bus.
    Waiting,
    /// Mediating, fetching or delivering for one block.
    Processing,
    /// Over.
    Terminated,
}

/// The status of a phase.
pub open spec fn status_of(phase: PhaseView) -> Status {
    match phase {
        PhaseView::Pending => Status::Pending,
        PhaseView::Waiting => Status::Waiting,
        PhaseView::Mediating => Status::Processing,
        PhaseView::Fetching => Status::Processing,
        PhaseView::Delivering { .. } => Status::Processing,
        PhaseView::Terminated { .. } => Status::Terminated,
    }
}

enum Phase {
    Pending,
    Waiting,
    Mediating,
    Fetching,
    Delivering { in_flight: Ghost<WireLogEntryView>, queue: VecDeque<WireLogEntry> },
    Terminated { outcome: Result<(), Failure> },
}

impl View for Phase {
    type V = PhaseView;

    closed spec fn view(&self) -> PhaseView {
        match self {
            Phase::Pending => PhaseView::Pending,
            Phase::Waiting => PhaseView::Waiting,
            Phase::Mediating => PhaseView::Mediating,
            Phase::Fetching => PhaseView::Fetching,
            Phase::Delivering { in_flight, queue } => PhaseView::Delivering {
                in_flight: in_flight@,
                queue: entry_views(queue@),
            },
            Phase::Terminated { outcome } => PhaseView::Terminated {
                outcome: outcome_view(*outcome),
            },
        }
    }
}

/// One subscription: the client's parameters, which never change, and the
/// phase it is in.
pub struct Subscription {
    params: SubscribeParameters,
    phase: Phase,
}

impl View for Subscription {
    type V = SubscriptionView;

    closed spec fn view(&self) -> SubscriptionView {
        SubscriptionView { params: self.params@, phase: self.phase@ }
    }
}

impl Reaction {
    fn quiet(action: Action) -> (reaction: Reaction)
        ensures
            reaction@ == crate::model::quiet(action@),
    {
        Reaction { action, lagged: None }
    }
}

impl Subscription {
    /// A subscription whose handshake is still open.
    pub fn new(params: SubscribeParameters) -> (subscription: Subscription)
        ensures
            subscription@ == pending(params@),
    {
        Subscription { params, phase: Phase::Pending }
    }

    /// The parameters the client subscribed with.
    pub fn params(&self) -> (params: &SubscribeParameters)
        ensures
            params@ == self@.params,
    {
        &self.params
    }

    /// The stage the subscription is in.
    pub fn status(&self) -> (status: Status)
        ensures
            status == status_of(self@.phase),
    {
        match &self.phase {
            Phase::Pending => Status::Pending,
            Phase::Waiting => Status::Waiting,
            Phase::Mediating => Status::Processing,
            Phase::Fetching => Status::Processing,
            Phase::Delivering { .. } => Status::Processing,
            Phase::Terminated { .. } => Status::Terminated,
        }
    }

    /// How the subscription ended, once it has.
    pub fn outcome(&self) -> (outcome: Option<&Result<(), Failure>>)
        ensures
            match outcome {
                Some(outcome) => self@.phase == (PhaseView::Terminated {
                    outcome: outcome_view(*outcome),
                }),
                None => !(self@.phase is Terminated),
            },
    {
        match &self.phase {
            Phase::Terminated { outcome } => Some(outcome),
            _ => None,
        }
    }

    /// Whether the subscription has asked for the work that `event` is the
    /// outcome of.
    pub fn awaits(&self, event: &Event) -> (awaited: bool)
        ensures
            awaited == crate::model::awaits(self@.phase, event@),
    {
        match &self.phase {
            Phase::Pending => matches!(event, Event::Handshake(_)),
            Phase::Waiting => matches!(event, Event::Listener(_)),
            Phase::Mediating => matches!(event, Event::Mediated(_)),
            Phase::Fetching => matches!(event, Event::Fetched(_)),
            Phase::Delivering { .. } => matches!(event, Event::Sent(_)),
            Phase::Terminated { .. } => false,
        }
    }

    /// Ends the subscription with `outcome`.
    fn stop(&mut self, outcome: Result<(), Failure>) -> (reaction: Reaction)
        ensures
            final(self).params == old(self).params,
            (final(self).phase@, reaction@) == crate::model::stop(outcome_view(outcome)),
    {
        let kept = match &outcome {
            Ok(_) => Ok(()),
            Err(failure) => Err(failure.clone()),
        };
        self.phase = Phase::Terminated { outcome: kept };
        Reaction::quiet(Action::Stop { outcome })
    }

    /// Starts sending `queue`, or goes back to waiting where it is empty.
    fn deliver_from(&mut self, queue: VecDeque<WireLogEntry>) -> (reaction: Reaction)
        ensures
            final(self).params == old(self).params,
            final(self).phase@ == crate::model::deliver_from(entry_views(queue@)).0,
            reaction@ == crate::model::quiet(
                crate::model::deliver_from(entry_views(queue@)).1,
            ),
    {
        let mut queue = queue;
        let ghost entries = entry_views(queue@);
        match queue.pop_front() {
            Some(entry) => {
                assert(entry_views(queue@) =~= entries.drop_first());
                self.phase = Phase::Delivering { in_flight: Ghost(entry@), queue };
                Reaction::quiet(Action::Deliver { entry })
            },
            None => {
                self.phase = Phase::Waiting;
                Reaction::quiet(Action::Receive)
            },
        }
    }

    /// Takes in the outcome of the work that the subscription asked for last and
    /// says what to do next.
    ///
    /// An event that the subscription does not await changes nothing and gets no
    /// reaction; after `Stop` no event is awaited.
    pub fn step(&mut self, event: Event) -> (reaction: Option<Reaction>)
        ensures
            final(self)@ == old(self)@.next(event@),
            reaction_view(reaction) == old(self)@.reaction(event@),
    {
        if !self.awaits(&event) {
            return None;
        }
        let mut phase = Phase::Waiting;
        core::mem::swap(&mut self.phase, &mut phase);
        let reaction = match event {
            Event::Handshake(Ok(_)) => Reaction::quiet(Action::Receive),
            Event::Handshake(Err(reason)) => self.stop(Err(Failure::Handshake(reason))),
            Event::Listener(ListenerEvent::NewSignal(block_hash)) => {
                self.phase = Phase::Mediating;
                Reaction::quiet(Action::Mediate { block_hash })
            },
            Event::Listener(ListenerEvent::Lagged(dropped)) => Reaction {
                action: Action::Receive,
                lagged: Some(dropped),
            },
            Event::Listener(ListenerEvent::Closed) => self.stop(Ok(())),
            Event::Mediated(Ok(query)) => {
                self.phase = Phase::Fetching;
                Reaction::quiet(Action::Fetch { query })
            },
            Event::Mediated(Err(report)) => self.stop(Err(Failure::Validation(report))),
            Event::Fetched(Ok(rows)) => {
                let queue = transform_rows(rows);
                self.deliver_from(queue)
            },
            Event::Fetched(Err(report)) => self.stop(Err(Failure::Storage(report))),
            Event::Sent(Ok(_)) => {
                let queue = match phase {
                    Phase::Delivering { queue, .. } => queue,
                    _ => VecDeque::new(),
                };
                self.deliver_from(queue)
            },
            Event::Sent(Err(fault)) => self.stop(Err(Failure::from_fault(fault))),
        };
        Some(reaction)
    }
}

/// Opens a subscription once the transport has answered the handshake.
///
/// An accepted handshake gives a session that waits for the bus and has sent
/// nothing; a refused one gives no session, only the refusal. Whatever becomes
/// of the session later is not part of this answer.
pub fn subscribe(params: SubscribeParameters, handshake: Result<(), String>) -> (opened: Result<
    Subscription,
    Failure,
>)
    ensures
        handshake is Ok ==> opened is Ok && opened->Ok_0@ == waiting(params@),
        handshake matches Err(reason) ==> opened is Err && opened->Err_0@
            == FailureView::Handshake(reason@),
{
    let mut subscription = Subscription::new(params);
    match subscription.step(Event::Handshake(handshake)) {
        Some(Reaction { action: Action::Stop { outcome: Err(failure) }, .. }) => Err(failure),
        _ => Ok(subscription),
    }
}

} // verus!
