use sentry_core::protocol::{
    EnvelopeItem, Event, Exception, Level, Mechanism, SessionStatus, SessionUpdate,
};
use sentry_core::session::{ClientOptions, Scope, Session, StackLayer, User};

fn test_stack() -> StackLayer {
    StackLayer {
        client: Some(ClientOptions {
            release: Some("some-release".to_string()),
            environment: None,
        }),
        scope: Scope { user: None },
    }
}

fn error_event() -> Event {
    Event { level: Level::Error, exceptions: vec![] }
}

fn unhandled_exception_event() -> Event {
    Event {
        level: Level::Error,
        exceptions: vec![
            Exception { mechanism: Some(Mechanism { handled: Some(true) }) },
            Exception { mechanism: Some(Mechanism { handled: Some(false) }) },
        ],
    }
}

fn take_update(session: &mut Session) -> SessionUpdate {
    match session.create_envelope_item() {
        Some(EnvelopeItem::SessionUpdate(u)) => u,
        _ => panic!("expected session"),
    }
}

#[test]
fn test_session_startstop() {
    let mut session = Session::from_stack(&test_stack()).expect("expected session");
    session.close();
    let update = take_update(&mut session);
    assert_eq!(update.status, SessionStatus::Exited);
    assert!(update.duration.is_some());
    assert_eq!(update.errors, 0);
    assert_eq!(update.attributes.release, "some-release");
    assert_eq!(update.init, true);
    assert!(session.create_envelope_item().is_none());
}

#[test]
fn test_session_error() {
    let mut session = Session::from_stack(&test_stack()).expect("expected session");

    let first = session.update_from_event(&error_event()).expect("expected session");
    assert_eq!(first.status, SessionStatus::Okay);
    assert_eq!(first.errors, 1);
    assert_eq!(first.attributes.release, "some-release");
    assert_eq!(first.init, true);

    session.close();
    let second = take_update(&mut session);
    assert_eq!(second.status, SessionStatus::Exited);
    assert_eq!(second.errors, 1);
    assert_eq!(second.init, false);
}

#[test]
fn test_session_sampled_errors() {
    let mut session = Session::from_stack(&test_stack()).expect("expected session");

    // the client samples event envelopes at 0.5; the session still counts
    // every error, so only the envelope tally depends on the coin
    let mut sampled: usize = 0;
    let mut state: u64 = 0x853c49e6748fea9b;
    for _ in 0..100 {
        let delta = session.update_from_event(&error_event());
        assert!(delta.is_some());
        state = state.wrapping_mul(6364136223846793005).wrapping_add(1442695040888963407);
        if state >> 63 == 0 {
            sampled += 1;
        }
    }
    assert!(sampled > 25);
    assert!(sampled < 75);

    session.close();
    let last = take_update(&mut session);
    assert_eq!(last.status, SessionStatus::Exited);
    assert_eq!(last.errors, 100);
}

#[test]
fn test_session_crash_preempts_close() {
    let mut session = Session::from_stack(&test_stack()).expect("expected session");

    let delta = session.update_from_event(&unhandled_exception_event()).expect("expected session");
    assert_eq!(delta.status, SessionStatus::Crashed);
    assert_eq!(delta.errors, 1);
    assert_eq!(delta.init, true);

    // the session is terminal: close neither re-opens it nor sets a duration
    session.close();
    assert!(session.create_envelope_item().is_none());
}

#[test]
fn test_terminal_session_ignores_events() {
    let mut session = Session::from_stack(&test_stack()).expect("expected session");
    let crash = session.update_from_event(&unhandled_exception_event()).expect("expected session");
    assert_eq!(crash.status, SessionStatus::Crashed);
    assert_eq!(crash.errors, 1);

    for _ in 0..5 {
        assert!(session.update_from_event(&error_event()).is_none());
    }
    session.close();
    assert!(session.create_envelope_item().is_none());
}

#[test]
fn test_first_delta_init_only() {
    let mut session = Session::from_stack(&test_stack()).expect("expected session");

    // a fresh session is dirty, so even a harmless event emits the init delta
    let quiet = Event { level: Level::Warning, exceptions: vec![] };
    let first = session.update_from_event(&quiet).expect("expected session");
    assert_eq!(first.init, true);
    assert_eq!(first.errors, 0);
    assert_eq!(first.status, SessionStatus::Okay);

    // nothing changed since: no delta
    assert!(session.update_from_event(&quiet).is_none());

    let second = session.update_from_event(&error_event()).expect("expected session");
    assert_eq!(second.init, false);
    assert_eq!(second.errors, 1);

    session.close();
    let third = take_update(&mut session);
    assert_eq!(third.init, false);
    assert_eq!(third.status, SessionStatus::Exited);
}

#[test]
fn test_record_errors() {
    let mut session = Session::from_stack(&test_stack()).expect("expected session");
    session.record_errors(3);
    let delta = take_update(&mut session);
    assert_eq!(delta.errors, 3);

    session.record_errors(2);
    let delta = take_update(&mut session);
    assert_eq!(delta.errors, 5);
    assert_eq!(delta.init, false);

    session.close();
    let last = take_update(&mut session);
    assert_eq!(last.errors, 5);

    // terminal: the counter no longer moves
    session.record_errors(7);
    assert!(session.create_envelope_item().is_none());
}

#[test]
fn test_record_errors_saturates() {
    let mut session = Session::from_stack(&test_stack()).expect("expected session");
    session.record_errors(u32::MAX);
    session.record_errors(5);
    let delta = take_update(&mut session);
    assert_eq!(delta.errors, u32::MAX);
}

#[test]
fn test_distinct_id_preference() {
    let mut stack = test_stack();
    stack.scope.user = Some(User {
        id: None,
        email: Some("user@example.com".to_string()),
        username: Some("user".to_string()),
    });
    let session = Session::from_stack(&stack).expect("expected session");
    assert_eq!(
        session.session_update.distinct_id,
        Some("user@example.com".to_string())
    );

    stack.scope.user = Some(User {
        id: Some("an-id".to_string()),
        email: Some("user@example.com".to_string()),
        username: None,
    });
    let session = Session::from_stack(&stack).expect("expected session");
    assert_eq!(session.session_update.distinct_id, Some("an-id".to_string()));
}

#[test]
fn test_no_session_without_release() {
    let stack = StackLayer {
        client: Some(ClientOptions { release: None, environment: None }),
        scope: Scope { user: None },
    };
    assert!(Session::from_stack(&stack).is_none());

    let stack = StackLayer { client: None, scope: Scope { user: None } };
    assert!(Session::from_stack(&stack).is_none());
}
