use sentry_core::protocol::{ParseSessionStatusError, SessionStatus};

#[test]
fn test_status_wire_strings() {
    assert_eq!(SessionStatus::Okay.as_str(), "ok");
    assert_eq!(SessionStatus::Exited.as_str(), "exited");
    assert_eq!(SessionStatus::Crashed.as_str(), "crashed");
    assert_eq!(SessionStatus::Abnormal.as_str(), "abnormal");
}

#[test]
fn test_status_parse_roundtrip() {
    assert_eq!(SessionStatus::parse("ok"), Ok(SessionStatus::Okay));
    assert_eq!(SessionStatus::parse("exited"), Ok(SessionStatus::Exited));
    assert_eq!(SessionStatus::parse("crashed"), Ok(SessionStatus::Crashed));
    assert_eq!(SessionStatus::parse("abnormal"), Ok(SessionStatus::Abnormal));
}

#[test]
fn test_status_parse_rejects_unknown() {
    assert_eq!(SessionStatus::parse("exit"), Err(ParseSessionStatusError));
    assert_eq!(SessionStatus::parse(""), Err(ParseSessionStatusError));
    assert_eq!(SessionStatus::parse("OK"), Err(ParseSessionStatusError));
}
