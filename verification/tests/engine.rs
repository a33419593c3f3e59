use shadow_subscribe::failure::{DeliveryFault, ErrorReport, Failure, INTERNAL_ERROR_CODE};
use shadow_subscribe::listener::ListenerEvent;
use shadow_subscribe::log::{ShadowLogRow, ValidatedQueryParams, WireLogEntry};
use shadow_subscribe::params::{AddressRepresentation, SubscribeParameters};
use shadow_subscribe::subscription::{
    subscribe, Action, Event, Reaction, Status, Subscription,
};

fn address_params() -> SubscribeParameters {
    SubscribeParameters {
        address: Some(AddressRepresentation::Single("0xAAA".to_string())),
        topics: None,
    }
}

fn row(block: &str, number: u64, index: u64) -> ShadowLogRow {
    ShadowLogRow {
        address: "0xAAA".to_string(),
        topics: vec![format!("topic-{block}-{index}")],
        data: vec![number as u8, index as u8],
        block_hash: block.to_string(),
        block_number: number,
        log_index: index,
    }
}

fn entry(block: &str, number: u64, index: u64) -> WireLogEntry {
    WireLogEntry {
        address: "0xAAA".to_string(),
        topics: vec![format!("topic-{block}-{index}")],
        data: vec![number as u8, index as u8],
        block_hash: block.to_string(),
        block_number: number,
        log_index: index,
    }
}

fn query(block: &str, number: u64) -> ValidatedQueryParams {
    ValidatedQueryParams {
        block_hash: block.to_string(),
        block_number: number,
        addresses: vec!["0xAAA".to_string()],
        topics: vec![None, Some("0x01".to_string())],
    }
}

fn report(code: i32, message: &str) -> ErrorReport {
    ErrorReport { code, message: message.to_string(), data: None }
}

fn accepted() -> Subscription {
    subscribe(address_params(), Ok(())).unwrap()
}

fn quiet(action: Action) -> Option<Reaction> {
    Some(Reaction { action, lagged: None })
}

/// Feeds one block that nothing fails on and returns the entries whose sending
/// was confirmed.
fn process_block(
    subscription: &mut Subscription,
    block: &str,
    number: u64,
    rows: Vec<ShadowLogRow>,
) -> Vec<WireLogEntry> {
    let mut delivered = Vec::new();
    let asked = subscription.step(Event::Listener(ListenerEvent::NewSignal(block.to_string())));
    assert_eq!(asked, quiet(Action::Mediate { block_hash: block.to_string() }));
    let asked = subscription.step(Event::Mediated(Ok(query(block, number))));
    assert_eq!(asked, quiet(Action::Fetch { query: query(block, number) }));
    let mut reaction = subscription.step(Event::Fetched(Ok(rows)));
    loop {
        match reaction {
            Some(Reaction { action: Action::Deliver { entry }, lagged: None }) => {
                assert_eq!(subscription.status(), Status::Processing);
                reaction = subscription.step(Event::Sent(Ok(())));
                delivered.push(entry);
            }
            other => {
                assert_eq!(other, quiet(Action::Receive));
                assert_eq!(subscription.status(), Status::Waiting);
                return delivered;
            }
        }
    }
}

#[test]
fn three_blocks_deliver_three_messages_and_stream_stays_open() {
    let mut subscription = Subscription::new(address_params());
    assert_eq!(subscription.step(Event::Handshake(Ok(()))), quiet(Action::Receive));
    let mut stream = Vec::new();
    stream.extend(process_block(&mut subscription, "B1", 1, vec![row("B1", 1, 0), row("B1", 1, 1)]));
    stream.extend(process_block(&mut subscription, "B2", 2, vec![]));
    stream.extend(process_block(&mut subscription, "B3", 3, vec![row("B3", 3, 0)]));
    assert_eq!(stream.len(), 3);
    assert_eq!(stream, vec![entry("B1", 1, 0), entry("B1", 1, 1), entry("B3", 3, 0)]);
    assert_eq!(subscription.status(), Status::Waiting);
    assert!(subscription.outcome().is_none());
    assert!(subscription.awaits(&Event::Listener(ListenerEvent::NewSignal("B4".to_string()))));
}

#[test]
fn stream_is_concatenation_in_signal_and_storage_order() {
    let mut subscription = accepted();
    let first = vec![row("B9", 9, 2), row("B9", 9, 0), row("B9", 9, 1)];
    let second = vec![row("B4", 4, 7), row("B4", 4, 3)];
    let mut stream = process_block(&mut subscription, "B9", 9, first);
    stream.extend(process_block(&mut subscription, "B4", 4, second));
    assert_eq!(
        stream,
        vec![
            entry("B9", 9, 2),
            entry("B9", 9, 0),
            entry("B9", 9, 1),
            entry("B4", 4, 7),
            entry("B4", 4, 3),
        ]
    );
}

#[test]
fn one_message_per_entry_is_asked_for_in_turn() {
    let mut subscription = accepted();
    subscription.step(Event::Listener(ListenerEvent::NewSignal("B1".to_string())));
    subscription.step(Event::Mediated(Ok(query("B1", 1))));
    let first = subscription.step(Event::Fetched(Ok(vec![row("B1", 1, 0), row("B1", 1, 1)])));
    assert_eq!(first, quiet(Action::Deliver { entry: entry("B1", 1, 0) }));
    let second = subscription.step(Event::Sent(Ok(())));
    assert_eq!(second, quiet(Action::Deliver { entry: entry("B1", 1, 1) }));
    let third = subscription.step(Event::Sent(Ok(())));
    assert_eq!(third, quiet(Action::Receive));
}

#[test]
fn nothing_is_delivered_before_acceptance() {
    let mut subscription = Subscription::new(address_params());
    assert_eq!(subscription.status(), Status::Pending);
    assert_eq!(subscription.step(Event::Listener(ListenerEvent::NewSignal("B1".to_string()))), None);
    assert_eq!(subscription.step(Event::Mediated(Ok(query("B1", 1)))), None);
    assert_eq!(subscription.step(Event::Fetched(Ok(vec![row("B1", 1, 0)]))), None);
    assert_eq!(subscription.step(Event::Sent(Ok(()))), None);
    assert_eq!(subscription.status(), Status::Pending);
    assert_eq!(subscription.step(Event::Handshake(Ok(()))), quiet(Action::Receive));
    assert_eq!(subscription.status(), Status::Waiting);
}

#[test]
fn refused_handshake_opens_no_session() {
    let refused = subscribe(address_params(), Err("peer went away".to_string()));
    match refused {
        Err(failure) => assert_eq!(failure, Failure::Handshake("peer went away".to_string())),
        Ok(_) => panic!("a refused handshake opened a session"),
    }
    let mut subscription = Subscription::new(address_params());
    let reaction = subscription.step(Event::Handshake(Err("peer went away".to_string())));
    assert_eq!(
        reaction,
        quiet(Action::Stop { outcome: Err(Failure::Handshake("peer went away".to_string())) })
    );
    assert_eq!(subscription.status(), Status::Terminated);
    assert_eq!(subscription.step(Event::Listener(ListenerEvent::NewSignal("B1".to_string()))), None);
}

#[test]
fn accepted_handshake_opens_a_waiting_session_with_the_parameters() {
    let params = SubscribeParameters {
        address: Some(AddressRepresentation::Multiple(vec!["0x1".to_string(), "0x2".to_string()])),
        topics: Some(vec!["0xfeed".to_string(), "".to_string()]),
    };
    let subscription = subscribe(params.clone(), Ok(())).unwrap();
    assert_eq!(subscription.status(), Status::Waiting);
    assert_eq!(subscription.params(), &params);
    assert!(subscription.outcome().is_none());
}

#[test]
fn same_block_twice_gives_the_same_requests_and_entries() {
    let mut subscription = accepted();
    let once = process_block(&mut subscription, "B1", 1, vec![row("B1", 1, 0), row("B1", 1, 1)]);
    let twice = process_block(&mut subscription, "B1", 1, vec![row("B1", 1, 0), row("B1", 1, 1)]);
    assert_eq!(once, twice);
    assert_eq!(subscription.params(), &address_params());
}

#[test]
fn lag_is_logged_and_the_next_block_is_processed() {
    let mut subscription = accepted();
    let reaction = subscription.step(Event::Listener(ListenerEvent::Lagged(7)));
    assert_eq!(reaction, Some(Reaction { action: Action::Receive, lagged: Some(7) }));
    assert_eq!(subscription.status(), Status::Waiting);
    assert!(subscription.outcome().is_none());
    let stream = process_block(&mut subscription, "B8", 8, vec![row("B8", 8, 0)]);
    assert_eq!(stream, vec![entry("B8", 8, 0)]);
}

#[test]
fn zero_lag_and_largest_lag_keep_the_session_waiting() {
    let mut subscription = accepted();
    assert_eq!(
        subscription.step(Event::Listener(ListenerEvent::Lagged(0))),
        Some(Reaction { action: Action::Receive, lagged: Some(0) })
    );
    assert_eq!(
        subscription.step(Event::Listener(ListenerEvent::Lagged(u64::MAX))),
        Some(Reaction { action: Action::Receive, lagged: Some(u64::MAX) })
    );
    assert_eq!(subscription.status(), Status::Waiting);
}

#[test]
fn closure_ends_the_session_cleanly_in_one_step() {
    let mut subscription = accepted();
    let reaction = subscription.step(Event::Listener(ListenerEvent::Closed));
    assert_eq!(reaction, quiet(Action::Stop { outcome: Ok(()) }));
    assert_eq!(subscription.status(), Status::Terminated);
    assert_eq!(subscription.outcome(), Some(&Ok(())));
}

#[test]
fn closure_after_blocks_ends_cleanly() {
    let mut subscription = accepted();
    process_block(&mut subscription, "B1", 1, vec![row("B1", 1, 0)]);
    let reaction = subscription.step(Event::Listener(ListenerEvent::Closed));
    assert_eq!(reaction, quiet(Action::Stop { outcome: Ok(()) }));
}

#[test]
fn failed_storage_query_ends_the_stream_after_earlier_blocks() {
    let mut subscription = accepted();
    let stream = process_block(&mut subscription, "B1", 1, vec![row("B1", 1, 0), row("B1", 1, 1)]);
    assert_eq!(stream, vec![entry("B1", 1, 0), entry("B1", 1, 1)]);
    subscription.step(Event::Listener(ListenerEvent::NewSignal("B2".to_string())));
    subscription.step(Event::Mediated(Ok(query("B2", 2))));
    let reaction = subscription.step(Event::Fetched(Err(report(-32000, "database is locked"))));
    let failure = Failure::Storage(report(-32000, "database is locked"));
    assert_eq!(reaction, quiet(Action::Stop { outcome: Err(failure.clone()) }));
    assert_eq!(subscription.outcome(), Some(&Err(failure)));
    assert_eq!(subscription.step(Event::Sent(Ok(()))), None);
    assert_eq!(subscription.step(Event::Listener(ListenerEvent::NewSignal("B3".to_string()))), None);
    assert_eq!(subscription.status(), Status::Terminated);
}

#[test]
fn failed_mediation_ends_the_session() {
    let mut subscription = accepted();
    subscription.step(Event::Listener(ListenerEvent::NewSignal("B1".to_string())));
    let rejected = ErrorReport {
        code: -32602,
        message: "unknown block".to_string(),
        data: Some("{\"hash\":\"B1\"}".to_string()),
    };
    let reaction = subscription.step(Event::Mediated(Err(rejected.clone())));
    assert_eq!(reaction, quiet(Action::Stop { outcome: Err(Failure::Validation(rejected)) }));
    assert_eq!(subscription.status(), Status::Terminated);
}

#[test]
fn failed_serialization_is_an_internal_error_with_the_text() {
    let mut subscription = accepted();
    subscription.step(Event::Listener(ListenerEvent::NewSignal("B1".to_string())));
    subscription.step(Event::Mediated(Ok(query("B1", 1))));
    subscription.step(Event::Fetched(Ok(vec![row("B1", 1, 0), row("B1", 1, 1)])));
    let fault = DeliveryFault::Serialization("key must be a string".to_string());
    let reaction = subscription.step(Event::Sent(Err(fault)));
    let expected = Failure::Serialization(ErrorReport {
        code: -32603,
        message: "key must be a string".to_string(),
        data: None,
    });
    assert_eq!(reaction, quiet(Action::Stop { outcome: Err(expected) }));
}

#[test]
fn failed_send_is_an_internal_error_with_the_text() {
    let mut subscription = accepted();
    subscription.step(Event::Listener(ListenerEvent::NewSignal("B1".to_string())));
    subscription.step(Event::Mediated(Ok(query("B1", 1))));
    subscription.step(Event::Fetched(Ok(vec![row("B1", 1, 0)])));
    let fault = DeliveryFault::Transport("closed".to_string());
    let reaction = subscription.step(Event::Sent(Err(fault)));
    let expected = Failure::Transport(ErrorReport {
        code: INTERNAL_ERROR_CODE,
        message: "closed".to_string(),
        data: None,
    });
    assert_eq!(reaction, quiet(Action::Stop { outcome: Err(expected.clone()) }));
    assert_eq!(subscription.outcome(), Some(&Err(expected)));
}

#[test]
fn failed_send_after_one_entry_sends_no_more() {
    let mut subscription = accepted();
    subscription.step(Event::Listener(ListenerEvent::NewSignal("B1".to_string())));
    subscription.step(Event::Mediated(Ok(query("B1", 1))));
    subscription.step(Event::Fetched(Ok(vec![row("B1", 1, 0), row("B1", 1, 1), row("B1", 1, 2)])));
    let second = subscription.step(Event::Sent(Ok(())));
    assert_eq!(second, quiet(Action::Deliver { entry: entry("B1", 1, 1) }));
    let stopped = subscription.step(Event::Sent(Err(DeliveryFault::Transport("gone".to_string()))));
    assert!(matches!(stopped, Some(Reaction { action: Action::Stop { outcome: Err(_) }, .. })));
    assert_eq!(subscription.step(Event::Sent(Ok(()))), None);
}

#[test]
fn events_out_of_turn_change_nothing() {
    let mut subscription = accepted();
    assert!(!subscription.awaits(&Event::Handshake(Ok(()))));
    assert!(!subscription.awaits(&Event::Sent(Ok(()))));
    assert!(subscription.awaits(&Event::Listener(ListenerEvent::Closed)));
    assert_eq!(subscription.step(Event::Handshake(Ok(()))), None);
    assert_eq!(subscription.step(Event::Fetched(Ok(vec![row("B1", 1, 0)]))), None);
    assert_eq!(subscription.status(), Status::Waiting);
    subscription.step(Event::Listener(ListenerEvent::NewSignal("B1".to_string())));
    assert_eq!(subscription.step(Event::Listener(ListenerEvent::Closed)), None);
    assert_eq!(subscription.step(Event::Listener(ListenerEvent::Lagged(2))), None);
    assert_eq!(subscription.status(), Status::Processing);
    assert!(subscription.awaits(&Event::Mediated(Ok(query("B1", 1)))));
    assert_eq!(
        subscription.step(Event::Mediated(Ok(query("B1", 1)))),
        quiet(Action::Fetch { query: query("B1", 1) })
    );
}
