use sentry_core::flusher::{
    on_wake, remaining_wait_ms, SessionFlusher, SessionMode, WakeAction, FLUSH_INTERVAL_MS,
    MAX_SESSION_ITEMS,
};
use sentry_core::protocol::{
    Envelope, EnvelopeItem, SessionAttributes, SessionStatus, SessionUpdate,
};
use sentry_core::session::{ClientOptions, Scope, Session, StackLayer};

fn test_stack() -> StackLayer {
    StackLayer {
        client: Some(ClientOptions {
            release: Some("some-release".to_string()),
            environment: None,
        }),
        scope: Scope { user: None },
    }
}

fn make_update(
    distinct_id: Option<&str>,
    started: i64,
    init: bool,
    status: SessionStatus,
    errors: u32,
) -> SessionUpdate {
    SessionUpdate {
        session_id: uuid::Uuid::new_v4(),
        distinct_id: distinct_id.map(|s| s.to_string()),
        started,
        init,
        duration: None,
        status,
        errors,
        attributes: SessionAttributes {
            release: "some-release".to_string(),
            environment: None,
            ip_address: None,
            user_agent: None,
        },
    }
}

fn end_session_update(stack: &StackLayer) -> SessionUpdate {
    let mut session = Session::from_stack(stack).expect("expected session");
    session.close();
    match session.create_envelope_item() {
        Some(EnvelopeItem::SessionUpdate(u)) => u,
        _ => panic!("expected session"),
    }
}

#[test]
fn test_session_batching() {
    let stack = test_stack();
    let mut flusher = SessionFlusher::new();
    let mut envelopes: Vec<Envelope> = Vec::new();
    for _ in 0..(MAX_SESSION_ITEMS * 2) {
        let update = end_session_update(&stack);
        envelopes.append(&mut flusher.enqueue(update, SessionMode::Application));
    }
    envelopes.append(&mut flusher.flush());

    // we only want *two* envelopes for all the sessions
    assert_eq!(envelopes.len(), 2);

    let total: usize = envelopes.iter().map(|e| e.items.len()).sum();
    assert_eq!(total, MAX_SESSION_ITEMS * 2);
    for envelope in &envelopes {
        for item in &envelope.items {
            assert!(matches!(item, EnvelopeItem::SessionUpdate(_)));
        }
    }
}

#[test]
fn test_session_aggregation() {
    let mut flusher = SessionFlusher::new();
    let started: i64 = 1_500_000_000;

    // a session's very first delta is itemized even under aggregated mode
    let first = make_update(None, started, true, SessionStatus::Okay, 1);
    let first_id = first.session_id;
    assert!(flusher.enqueue(first, SessionMode::Request).is_empty());

    for k in 0..50 {
        let update = make_update(None, started + k, false, SessionStatus::Exited, 0);
        assert!(flusher.enqueue(update, SessionMode::Request).is_empty());
    }
    for _ in 0..49 {
        let update = make_update(Some("foo-bar"), started, false, SessionStatus::Exited, 0);
        assert!(flusher.enqueue(update, SessionMode::Request).is_empty());
    }
    let update = make_update(Some("foo-bar"), started, false, SessionStatus::Exited, 1);
    assert!(flusher.enqueue(update, SessionMode::Request).is_empty());

    let envelopes = flusher.flush();
    assert_eq!(envelopes.len(), 2);

    // the aggregate unit comes ahead of the itemized chunks
    let mut items = envelopes[0].items.iter();
    if let Some(EnvelopeItem::SessionAggregates(aggregate)) = items.next() {
        let aggregates = &aggregate.aggregates;
        assert_eq!(aggregates.len(), 2);
        assert_eq!(aggregates[0].distinct_id, None);
        assert_eq!(aggregates[0].exited, 50);

        assert_eq!(aggregates[1].distinct_id, Some("foo-bar".to_string()));
        assert_eq!(aggregates[1].exited, 49);
        assert_eq!(aggregates[1].errored, 1);

        assert_eq!(aggregate.attributes.release, "some-release");
    } else {
        panic!("expected session");
    }
    assert!(items.next().is_none());

    let mut items = envelopes[1].items.iter();
    if let Some(EnvelopeItem::SessionUpdate(session)) = items.next() {
        assert_eq!(session.session_id, first_id);
        assert_eq!(session.status, SessionStatus::Okay);
        assert_eq!(session.errors, 1);
        assert_eq!(session.init, true);
    } else {
        panic!("expected session");
    }
    assert!(items.next().is_none());
}

#[test]
fn test_batch_threshold_trigger() {
    let mut flusher = SessionFlusher::new();
    for k in 0..(MAX_SESSION_ITEMS - 1) {
        let update = make_update(None, 3600 + k as i64, true, SessionStatus::Okay, 0);
        assert!(flusher.enqueue(update, SessionMode::Application).is_empty());
    }
    // the hundredth item triggers exactly one synchronous flush of one unit
    let update = make_update(None, 3600, true, SessionStatus::Okay, 0);
    let envelopes = flusher.enqueue(update, SessionMode::Application);
    assert_eq!(envelopes.len(), 1);
    assert_eq!(envelopes[0].items.len(), MAX_SESSION_ITEMS);
    assert!(flusher.flush().is_empty());
}

#[test]
fn test_batch_two_hundred_one() {
    let mut flusher = SessionFlusher::new();
    let mut envelopes: Vec<Envelope> = Vec::new();
    for _ in 0..201 {
        let update = make_update(None, 3600, true, SessionStatus::Okay, 0);
        envelopes.append(&mut flusher.enqueue(update, SessionMode::Application));
    }
    envelopes.append(&mut flusher.flush());
    assert_eq!(envelopes.len(), 3);
    assert_eq!(envelopes[0].items.len(), 100);
    assert_eq!(envelopes[1].items.len(), 100);
    assert_eq!(envelopes[2].items.len(), 1);
}

#[test]
fn test_aggregation_hour_buckets() {
    let mut flusher = SessionFlusher::new();

    // 7200 and 7300 lie in the hour starting at 7200; 10805 in the next
    let u1 = make_update(Some("foo-bar"), 7200, false, SessionStatus::Exited, 0);
    let u2 = make_update(Some("foo-bar"), 7300, false, SessionStatus::Crashed, 1);
    let u3 = make_update(Some("foo-bar"), 10805, false, SessionStatus::Exited, 0);
    assert!(flusher.enqueue(u1, SessionMode::Request).is_empty());
    assert!(flusher.enqueue(u2, SessionMode::Request).is_empty());
    assert!(flusher.enqueue(u3, SessionMode::Request).is_empty());

    let envelopes = flusher.flush();
    assert_eq!(envelopes.len(), 1);
    if let Some(EnvelopeItem::SessionAggregates(aggregate)) = envelopes[0].items.first() {
        let aggregates = &aggregate.aggregates;
        assert_eq!(aggregates.len(), 2);
        assert_eq!(aggregates[0].started, 7200);
        assert_eq!(aggregates[0].exited, 1);
        assert_eq!(aggregates[0].crashed, 1);
        assert_eq!(aggregates[1].started, 10800);
        assert_eq!(aggregates[1].exited, 1);
    } else {
        panic!("expected session");
    }
}

#[test]
fn test_aggregation_drops_open_updates() {
    let mut flusher = SessionFlusher::new();
    // a non-init, still-open update carries nothing an aggregate can hold
    let update = make_update(None, 7200, false, SessionStatus::Okay, 2);
    assert!(flusher.enqueue(update, SessionMode::Request).is_empty());
    assert!(flusher.flush().is_empty());
}

#[test]
fn test_shutdown_flush() {
    let mut flusher = SessionFlusher::new();
    for k in 0..5 {
        let update = make_update(None, 7200 + k, true, SessionStatus::Okay, 0);
        assert!(flusher.enqueue(update, SessionMode::Application).is_empty());
    }
    // shutdown wakes the loop, which stops; the owner then flushes once
    assert_eq!(on_wake(true, 10), WakeAction::Stop);
    let envelopes = flusher.flush();
    assert_eq!(envelopes.len(), 1);
    assert_eq!(envelopes[0].items.len(), 5);
}

#[test]
fn test_wake_decisions() {
    assert_eq!(on_wake(false, 0), WakeAction::KeepWaiting);
    assert_eq!(on_wake(false, FLUSH_INTERVAL_MS - 1), WakeAction::KeepWaiting);
    assert_eq!(on_wake(false, FLUSH_INTERVAL_MS), WakeAction::Flush);
    assert_eq!(on_wake(true, FLUSH_INTERVAL_MS), WakeAction::Stop);
    assert_eq!(remaining_wait_ms(0), FLUSH_INTERVAL_MS);
    assert_eq!(remaining_wait_ms(FLUSH_INTERVAL_MS - 100), 100);
    assert_eq!(remaining_wait_ms(FLUSH_INTERVAL_MS + 100), 0);
}
