use query_bridge::resolve;
use query_bridge::slot::ResultSlot;
use query_bridge::token::{BytesQuery, StringQuery};
use query_bridge::QueryError;

#[test]
fn resolve_passes_delivered_outcome_through() {
    assert_eq!(
        resolve(Some(Ok("payload".to_string()))),
        Ok("payload".to_string())
    );
    assert_eq!(
        resolve::<String>(Some(Err(QueryError::TimeoutReached))),
        Err(QueryError::TimeoutReached)
    );
    assert_eq!(
        resolve::<String>(Some(Err(QueryError::RequestFailed))),
        Err(QueryError::RequestFailed)
    );
}

#[test]
fn resolve_maps_no_delivery_to_dropped() {
    assert_eq!(resolve::<String>(None), Err(QueryError::RequestDropped));
    assert_eq!(resolve::<Vec<u8>>(None), Err(QueryError::RequestDropped));
}

#[test]
fn slot_first_delivery_wins() {
    let mut slot: ResultSlot<String> = ResultSlot::new();
    assert!(slot.deliver(Ok("first".to_string())));
    assert!(!slot.deliver(Ok("second".to_string())));
    assert!(!slot.deliver(Err(QueryError::RequestFailed)));
    assert_eq!(slot.resolve(), Ok("first".to_string()));
}

#[test]
fn slot_keeps_first_error_too() {
    let mut slot: ResultSlot<Vec<u8>> = ResultSlot::new();
    assert!(slot.deliver(Err(QueryError::TimeoutReached)));
    assert!(!slot.deliver(Ok(vec![1, 2, 3])));
    assert_eq!(slot.resolve(), Err(QueryError::TimeoutReached));
}

#[test]
fn slot_without_delivery_resolves_to_dropped() {
    let slot: ResultSlot<String> = ResultSlot::new();
    assert_eq!(slot.resolve(), Err(QueryError::RequestDropped));
}

#[test]
fn string_token_delivers_each_terminal_outcome() {
    let (tx, mut rx) = tokio::sync::oneshot::channel();
    StringQuery { tx }.on_receive("hello".to_string());
    assert_eq!(resolve(rx.try_recv().ok()), Ok("hello".to_string()));

    let (tx, mut rx) = tokio::sync::oneshot::channel();
    StringQuery { tx }.on_error();
    assert_eq!(resolve(rx.try_recv().ok()), Err(QueryError::RequestFailed));

    let (tx, mut rx) = tokio::sync::oneshot::channel();
    StringQuery { tx }.on_timeout();
    assert_eq!(resolve(rx.try_recv().ok()), Err(QueryError::TimeoutReached));

    let (tx, mut rx) = tokio::sync::oneshot::channel::<Result<String, QueryError>>();
    drop(StringQuery { tx });
    assert_eq!(resolve(rx.try_recv().ok()), Err(QueryError::RequestDropped));
}

#[test]
fn bytes_token_delivers_each_terminal_outcome() {
    let (tx, mut rx) = tokio::sync::oneshot::channel();
    BytesQuery { tx }.on_receive(vec![0xAA, 0xBB]);
    assert_eq!(resolve(rx.try_recv().ok()), Ok(vec![0xAA, 0xBB]));

    let (tx, mut rx) = tokio::sync::oneshot::channel();
    BytesQuery { tx }.on_error();
    assert_eq!(resolve(rx.try_recv().ok()), Err(QueryError::RequestFailed));

    let (tx, mut rx) = tokio::sync::oneshot::channel();
    BytesQuery { tx }.on_timeout();
    assert_eq!(resolve(rx.try_recv().ok()), Err(QueryError::TimeoutReached));

    let (tx, mut rx) = tokio::sync::oneshot::channel::<Result<Vec<u8>, QueryError>>();
    drop(BytesQuery { tx });
    assert_eq!(resolve(rx.try_recv().ok()), Err(QueryError::RequestDropped));
}

#[test]
fn describe_names_each_failure() {
    assert_eq!(
        QueryError::RequestDropped.describe(),
        "Request dropped unexpectedly"
    );
    assert_eq!(QueryError::TimeoutReached.describe(), "Timeout reached");
    assert_eq!(QueryError::RequestFailed.describe(), "Request failed");
}
