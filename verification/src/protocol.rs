//! The value types of the session subsystem: events as the session sees
//! them, the session status, the serializable session update, hourly
//! aggregates, and the outbound envelope.

use crate::external::MAX_TIMESTAMP;
use vstd::prelude::*;

verus! {

/// Severity of a captured event, from least to most severe.
#[derive(Clone, Copy, Debug, PartialEq, Eq, Structural)]
pub enum Level {
    Debug,
    Info,
    Warning,
    Error,
    Fatal,
}

/// True of the levels at or above `Error`.
pub open spec fn level_is_error(l: Level) -> bool {
    l is Error || l is Fatal
}

impl Level {
    /// Whether this level counts against a session, i.e. is `Error` or worse.
    pub fn is_at_least_error(&self) -> (r: bool)
        ensures
            r == level_is_error(*self),
    {
        matches!(*self, Level::Error | Level::Fatal)
    }
}

/// How an exception was handled, as the capturing integration reported it.
#[derive(Clone, Debug)]
pub struct Mechanism {
    /// Tri-state: unknown (`None`), handled, or unhandled.
    pub handled: Option<bool>,
}

/// One exception value attached to an event.
#[derive(Clone, Debug)]
pub struct Exception {
    pub mechanism: Option<Mechanism>,
}

/// A captured event, seen through the fields the session logic reads.
#[derive(Clone, Debug)]
pub struct Event {
    pub level: Level,
    pub exceptions: Vec<Exception>,
}

/// An exception whose mechanism explicitly reports it as unhandled.
pub open spec fn exception_is_unhandled(e: Exception) -> bool {
    e.mechanism matches Some(m) && m.handled == Some(false)
}

/// An event counts as an error when its level is `Error` or worse, or when
/// it carries at least one exception.
pub open spec fn event_is_error(e: Event) -> bool {
    level_is_error(e.level) || e.exceptions@.len() > 0
}

/// An event crashes the session when some exception is reported unhandled.
pub open spec fn event_is_crash(e: Event) -> bool {
    exists|i: int| 0 <= i < e.exceptions@.len() && exception_is_unhandled(e.exceptions@[i])
}

/// The lifecycle status of a session. `Ok` is the only non-terminal value;
/// `Abnormal` is a valid terminal state that is only injected from outside
/// the event path.
#[derive(Clone, Copy, Debug, PartialEq, Eq, Structural)]
pub enum SessionStatus {
    Okay,
    Exited,
    Crashed,
    Abnormal,
}

/// A malformed status string, surfaced to whoever attempted the parse.
#[derive(Clone, Copy, Debug, PartialEq, Eq, Structural)]
pub struct ParseSessionStatusError;

/// The wire string of each status value.
pub open spec fn status_str(s: SessionStatus) -> Seq<char> {
    match s {
        SessionStatus::Okay => "ok"@,
        SessionStatus::Exited => "exited"@,
        SessionStatus::Crashed => "crashed"@,
        SessionStatus::Abnormal => "abnormal"@,
    }
}

/// The status a string names, or a parse error when it names none.
pub open spec fn spec_parse_status(s: Seq<char>) -> Result<
    SessionStatus,
    ParseSessionStatusError,
> {
    if s == "ok"@ {
        Ok(SessionStatus::Okay)
    } else if s == "exited"@ {
        Ok(SessionStatus::Exited)
    } else if s == "crashed"@ {
        Ok(SessionStatus::Crashed)
    } else if s == "abnormal"@ {
        Ok(SessionStatus::Abnormal)
    } else {
        Err(ParseSessionStatusError)
    }
}

impl SessionStatus {
    /// The wire form of this status.
    pub fn as_str(&self) -> (r: &'static str)
        ensures
            r@ == status_str(*self),
    {
        match self {
            SessionStatus::Okay => "ok",
            SessionStatus::Exited => "exited",
            SessionStatus::Crashed => "crashed",
            SessionStatus::Abnormal => "abnormal",
        }
    }

    /// Parses the wire form; an unknown string gives a typed error, never a
    /// panic.
    pub fn parse(s: &str) -> (r: Result<SessionStatus, ParseSessionStatusError>)
        ensures
            r == spec_parse_status(s@),
    {
        let v = s.to_owned();
        if v == "ok".to_owned() {
            Ok(SessionStatus::Okay)
        } else if v == "exited".to_owned() {
            Ok(SessionStatus::Exited)
        } else if v == "crashed".to_owned() {
            Ok(SessionStatus::Crashed)
        } else if v == "abnormal".to_owned() {
            Ok(SessionStatus::Abnormal)
        } else {
            Err(ParseSessionStatusError)
        }
    }
}

/// Parsing the wire form of a status gives that status back.
pub proof fn lemma_status_roundtrip(s: SessionStatus)
    ensures
        spec_parse_status(status_str(s)) == Ok::<SessionStatus, ParseSessionStatusError>(s),
{
    reveal_strlit("ok");
    reveal_strlit("exited");
    reveal_strlit("crashed");
    reveal_strlit("abnormal");
    assert("ok"@.len() == 2);
    assert("exited"@.len() == 6);
    assert("crashed"@.len() == 7);
    assert("abnormal"@.len() == 8);
}

/// A counter bumped by one, saturating at the ceiling: the library's
/// counters never wrap and never panic.
pub open spec fn inc_u32(c: u32) -> u32 {
    if c == u32::MAX {
        c
    } else {
        (c + 1) as u32
    }
}

/// A counter raised by `n`, saturating at the ceiling.
pub open spec fn sat_add_u32(c: u32, n: u32) -> u32 {
    if c + n > u32::MAX {
        u32::MAX
    } else {
        (c + n) as u32
    }
}

/// A copy of an optional string, equal to the original.
pub fn clone_opt_string(s: &Option<String>) -> (r: Option<String>)
    ensures
        r == *s,
{
    match s {
        Some(v) => Some(v.clone()),
        None => None,
    }
}

/// Immutable attributes captured once at session creation.
#[derive(Clone, Debug)]
pub struct SessionAttributes {
    pub release: String,
    pub environment: Option<String>,
    pub ip_address: Option<String>,
    pub user_agent: Option<String>,
}

impl SessionAttributes {
    /// A field-for-field copy, equal to `self`.
    pub fn duplicate(&self) -> (r: SessionAttributes)
        ensures
            r == *self,
    {
        SessionAttributes {
            release: self.release.clone(),
            environment: clone_opt_string(&self.environment),
            ip_address: clone_opt_string(&self.ip_address),
            user_agent: clone_opt_string(&self.user_agent),
        }
    }
}

/// A serializable snapshot of a session's state at a point in time. Copies
/// share no mutable state with the session that produced them.
#[derive(Clone, Debug)]
pub struct SessionUpdate {
    pub session_id: uuid::Uuid,
    /// End-user identifier used for aggregate grouping.
    pub distinct_id: Option<String>,
    /// Wall-clock start of the session, unix seconds.
    pub started: i64,
    /// True only on the very first update emitted for a session.
    pub init: bool,
    /// Elapsed monotonic milliseconds, set once when the session closes.
    pub duration: Option<u128>,
    pub status: SessionStatus,
    pub errors: u32,
    pub attributes: SessionAttributes,
}

impl SessionUpdate {
    /// The timestamp range on which hourly bucketing is defined.
    pub open spec fn wf(&self) -> bool {
        0 <= self.started <= MAX_TIMESTAMP
    }

    /// A field-for-field copy, equal to `self`.
    pub fn duplicate(&self) -> (r: SessionUpdate)
        ensures
            r == *self,
    {
        SessionUpdate {
            session_id: self.session_id,
            distinct_id: clone_opt_string(&self.distinct_id),
            started: self.started,
            init: self.init,
            duration: self.duration,
            status: self.status,
            errors: self.errors,
            attributes: self.attributes.duplicate(),
        }
    }
}

/// One hourly outcome bucket, keyed by the hour-truncated start timestamp
/// and the distinct id.
#[derive(Clone, Debug)]
pub struct AggregateItem {
    /// Start of the bucket's hour, unix seconds.
    pub started: i64,
    pub distinct_id: Option<String>,
    /// Sessions that exited with no errors.
    pub exited: u32,
    /// Sessions that exited after recording at least one error.
    pub errored: u32,
    pub abnormal: u32,
    pub crashed: u32,
}

/// The open aggregate bucket set, with the shared attributes block.
#[derive(Clone, Debug)]
pub struct SessionAggregates {
    pub aggregates: Vec<AggregateItem>,
    pub attributes: SessionAttributes,
}

/// One item of an outbound envelope.
#[derive(Clone, Debug)]
pub enum EnvelopeItem {
    SessionUpdate(SessionUpdate),
    SessionAggregates(SessionAggregates),
}

/// One transport-level message batch.
#[derive(Debug)]
pub struct Envelope {
    pub items: Vec<EnvelopeItem>,
}

impl View for Envelope {
    type V = Seq<EnvelopeItem>;

    open spec fn view(&self) -> Seq<EnvelopeItem> {
        self.items@
    }
}

impl Envelope {
    pub fn new() -> (r: Envelope)
        ensures
            r@ == Seq::<EnvelopeItem>::empty(),
    {
        Envelope { items: Vec::new() }
    }

    pub fn add_item(&mut self, item: EnvelopeItem)
        ensures
            final(self)@ == old(self)@.push(item),
    {
        self.items.push(item);
    }
}

} // verus!
