//! What one receive on the block-completion bus yields.
use tokio::sync::broadcast::error::RecvError;
use vstd::prelude::*;

verus! {

/// The outcome of one receive on a subscriber's registration with the bus.
#[derive(Debug, PartialEq, Eq)]
pub enum ListenerEvent {
    /// A block has been fully indexed; the value is its hash.
    NewSignal(String),
    /// This subscriber was too slow: the bus dropped that many signals for it,
    /// and they will not be sent again.
    Lagged(u64),
    /// The producer is gone; no signal will follow.
    Closed,
}

/// Mathematical model of a [`ListenerEvent`].
pub enum ListenerEventView {
    NewSignal(Seq<char>),
    Lagged(nat),
    Closed,
}

impl View for ListenerEvent {
    type V = ListenerEventView;

    open spec fn view(&self) -> ListenerEventView {
        match self {
            ListenerEvent::NewSignal(hash) => ListenerEventView::NewSignal(hash@),
            ListenerEvent::Lagged(dropped) => ListenerEventView::Lagged(*dropped as nat),
            ListenerEvent::Closed => ListenerEventView::Closed,
        }
    }
}

/// The error of `tokio::sync::broadcast::Receiver::recv`.
#[verifier::external_type_specification]
#[verifier::external_body]
pub struct ExRecvError(RecvError);

/// Tells the two variants of `tokio::sync::broadcast::error::RecvError` apart:
/// `Lagged` with its count becomes [`ListenerEvent::Lagged`] with the same
/// count, `Closed` becomes [`ListenerEvent::Closed`]. The error is opaque to the
/// verifier, so the contract claims only that no signal comes out of it.
#[verifier::external_body]
fn receive_error_event(error: RecvError) -> (event: ListenerEvent)
    ensures
        !(event is NewSignal),
{
    match error {
        RecvError::Lagged(dropped) => ListenerEvent::Lagged(dropped),
        RecvError::Closed => ListenerEvent::Closed,
    }
}

/// Classifies what a receive on the bus returned: a hash is a new signal, an
/// error is lag or closure.
pub fn listener_event(received: Result<String, RecvError>) -> (event: ListenerEvent)
    ensures
        received matches Ok(hash) ==> event == ListenerEvent::NewSignal(hash),
        received is Err ==> event is Lagged || event is Closed,
{
    match received {
        Ok(hash) => ListenerEvent::NewSignal(hash),
        Err(error) => receive_error_event(error),
    }
}

} // verus!
