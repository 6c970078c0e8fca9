//! The per-session state machine: it consumes captured events, decides when
//! the recorded state changed, and emits snapshot deltas for delivery.

use crate::external::{
    duration_millis, instant_elapsed, instant_now, new_session_id, now_timestamp, MAX_TIMESTAMP,
};
use crate::protocol::{
    clone_opt_string, event_is_crash, event_is_error, exception_is_unhandled, inc_u32, sat_add_u32,
    EnvelopeItem, Event, Exception, SessionAttributes, SessionStatus, SessionUpdate,
};
use vstd::prelude::*;

verus! {

/// The identity a user supplied; the first present of id, email and
/// username serves as the session's distinct id.
#[derive(Clone, Debug, Default)]
pub struct User {
    pub id: Option<String>,
    pub email: Option<String>,
    pub username: Option<String>,
}

/// The configuration a session reads from the attached client.
#[derive(Clone, Debug)]
pub struct ClientOptions {
    pub release: Option<String>,
    pub environment: Option<String>,
}

/// The scope data a session reads: the user attached to the scope.
#[derive(Clone, Debug, Default)]
pub struct Scope {
    pub user: Option<User>,
}

/// One layer of the context stack: an optionally attached client and the
/// layer's scope.
#[derive(Clone, Debug)]
pub struct StackLayer {
    pub client: Option<ClientOptions>,
    pub scope: Scope,
}

/// The distinct id a user yields: id, else email, else username.
pub open spec fn spec_distinct_id(user: Option<User>) -> Option<String> {
    match user {
        Some(u) => if u.id is Some {
            u.id
        } else if u.email is Some {
            u.email
        } else {
            u.username
        },
        None => None,
    }
}

fn pick_distinct_id(user: &Option<User>) -> (r: Option<String>)
    ensures
        r == spec_distinct_id(*user),
{
    match user {
        Some(u) => {
            if u.id.is_some() {
                clone_opt_string(&u.id)
            } else if u.email.is_some() {
                clone_opt_string(&u.email)
            } else {
                clone_opt_string(&u.username)
            }
        },
        None => None,
    }
}

/// One tracked session: the pending snapshot, the monotonic start reading,
/// and the dirty flag that marks a not-yet-reported change.
#[derive(Clone, Debug)]
pub struct Session {
    pub session_update: SessionUpdate,
    pub started: std::time::Instant,
    pub dirty: bool,
}

/// The session state after one event is applied, before any delta is
/// emitted: a terminal session ignores the event; otherwise the error
/// counter rises when the event classifies as an error, an unhandled
/// exception moves the status to `Crashed`, and an error marks the session
/// dirty.
pub open spec fn spec_apply_event(s: Session, e: Event) -> Session {
    if !(s.session_update.status is Okay) {
        s
    } else {
        Session {
            session_update: SessionUpdate {
                status: if event_is_crash(e) {
                    SessionStatus::Crashed
                } else {
                    SessionStatus::Okay
                },
                errors: if event_is_error(e) {
                    inc_u32(s.session_update.errors)
                } else {
                    s.session_update.errors
                },
                ..s.session_update
            },
            dirty: s.dirty || event_is_error(e),
            ..s
        }
    }
}

/// The session after an emission attempt: a dirty session clears `dirty`
/// and `init`; a clean one is unchanged.
pub open spec fn spec_emit_state(s: Session) -> Session {
    if s.dirty {
        Session {
            session_update: SessionUpdate { init: false, ..s.session_update },
            dirty: false,
            ..s
        }
    } else {
        s
    }
}

/// The delta an emission attempt hands out: the pending snapshot when the
/// session is dirty, nothing otherwise.
pub open spec fn spec_emit_delta(s: Session) -> Option<SessionUpdate> {
    if s.dirty {
        Some(s.session_update)
    } else {
        None
    }
}

/// The session after consuming one event: a terminal session is left as it
/// is and nothing is emitted; otherwise the event is applied and a delta is
/// emitted if the session is dirty.
pub open spec fn spec_update_state(s: Session, e: Event) -> Session {
    if s.session_update.status is Okay {
        spec_emit_state(spec_apply_event(s, e))
    } else {
        s
    }
}

/// The delta `update_from_event` returns for a given prior state and event.
pub open spec fn spec_update_delta(s: Session, e: Event) -> Option<SessionUpdate> {
    if s.session_update.status is Okay {
        spec_emit_delta(spec_apply_event(s, e))
    } else {
        None
    }
}

/// The session after `close`: a terminal session is left untouched; an
/// `Okay` session records duration `d`, exits, and is marked dirty.
pub open spec fn spec_close(s: Session, d: u128) -> Session {
    if s.session_update.status is Okay {
        Session {
            session_update: SessionUpdate {
                status: SessionStatus::Exited,
                duration: Some(d),
                ..s.session_update
            },
            dirty: true,
            ..s
        }
    } else {
        s
    }
}

/// The session after `record_errors(n)`: a terminal session accepts no
/// further mutation; otherwise `n` is added to the counter, saturating, and
/// a positive `n` marks the session dirty.
pub open spec fn spec_record_errors(s: Session, n: u32) -> Session {
    if !(s.session_update.status is Okay) || n == 0 {
        s
    } else {
        Session {
            session_update: SessionUpdate {
                errors: sat_add_u32(s.session_update.errors, n),
                ..s.session_update
            },
            dirty: true,
            ..s
        }
    }
}

/// A session folded over a sequence of events, front to back, each step as
/// `update_from_event` performs it.
pub open spec fn run_events(s: Session, evs: Seq<Event>) -> Session
    decreases evs.len(),
{
    if evs.len() == 0 {
        s
    } else {
        run_events(spec_update_state(s, evs[0]), evs.skip(1))
    }
}

/// The number of events in `evs` that classify as errors, up to and
/// including the first crashing event; later events no longer reach the
/// session.
pub open spec fn error_count_until_crash(evs: Seq<Event>) -> nat
    decreases evs.len(),
{
    if evs.len() == 0 {
        0
    } else if event_is_crash(evs[0]) {
        1
    } else {
        (if event_is_error(evs[0]) {
            1nat
        } else {
            0
        }) + error_count_until_crash(evs.skip(1))
    }
}

/// Law: a terminal session accepts no further mutation from the event path;
/// any sequence of events leaves it exactly as it is.
pub proof fn lemma_terminal_run(s: Session, evs: Seq<Event>)
    requires
        !(s.session_update.status is Okay),
    ensures
        run_events(s, evs) == s,
    decreases evs.len(),
{
    if evs.len() > 0 {
        lemma_terminal_run(s, evs.skip(1));
    }
}

/// Law: the error counter never decreases, under any event.
pub proof fn lemma_errors_monotone(s: Session, e: Event)
    ensures
        spec_update_state(s, e).session_update.errors >= s.session_update.errors,
{
}

/// Law: the error counter never decreases over any sequence of events.
pub proof fn lemma_run_errors_monotone(s: Session, evs: Seq<Event>)
    ensures
        run_events(s, evs).session_update.errors >= s.session_update.errors,
    decreases evs.len(),
{
    if evs.len() > 0 {
        lemma_run_errors_monotone(spec_update_state(s, evs[0]), evs.skip(1));
    }
}

/// No sequence of events counts more errors than it has events.
pub proof fn lemma_error_count_le_len(evs: Seq<Event>)
    ensures
        error_count_until_crash(evs) <= evs.len(),
    decreases evs.len(),
{
    if evs.len() > 0 && !event_is_crash(evs[0]) {
        lemma_error_count_le_len(evs.skip(1));
    }
}

proof fn lemma_error_count_general(s: Session, evs: Seq<Event>)
    requires
        s.session_update.status is Okay,
        s.session_update.errors + error_count_until_crash(evs) <= u32::MAX,
    ensures
        run_events(s, evs).session_update.errors == s.session_update.errors
            + error_count_until_crash(evs),
    decreases evs.len(),
{
    if evs.len() > 0 {
        let stepped = spec_update_state(s, evs[0]);
        if event_is_crash(evs[0]) {
            assert(event_is_error(evs[0]));
            lemma_terminal_run(stepped, evs.skip(1));
        } else {
            lemma_error_count_general(stepped, evs.skip(1));
        }
    }
}

/// Law: a fresh session fed any sequence of events ends with `errors` equal
/// to the number of events classified as errors, up to and including the
/// event that made the session terminal.
pub proof fn lemma_fresh_session_error_count(s: Session, evs: Seq<Event>)
    requires
        s.session_update.status is Okay,
        s.session_update.errors == 0,
        evs.len() <= u32::MAX,
    ensures
        run_events(s, evs).session_update.errors == error_count_until_crash(evs),
{
    lemma_error_count_le_len(evs);
    lemma_error_count_general(s, evs);
}

/// One step of a session's life as its owner drives it: an event arrives,
/// the session is closed (with whatever duration the clock hands back), or
/// an emission is attempted.
pub enum SessionOp {
    Event(Event),
    Close(u128),
    Emit,
}

/// The session state after one operation.
pub open spec fn apply_op_state(s: Session, op: SessionOp) -> Session {
    match op {
        SessionOp::Event(e) => spec_update_state(s, e),
        SessionOp::Close(d) => spec_close(s, d),
        SessionOp::Emit => spec_emit_state(s),
    }
}

/// The delta one operation emits, if any.
pub open spec fn apply_op_delta(s: Session, op: SessionOp) -> Option<SessionUpdate> {
    match op {
        SessionOp::Event(e) => spec_update_delta(s, e),
        SessionOp::Close(_) => None,
        SessionOp::Emit => spec_emit_delta(s),
    }
}

/// All deltas a sequence of operations emits, in order.
pub open spec fn emitted_deltas(s: Session, ops: Seq<SessionOp>) -> Seq<SessionUpdate>
    decreases ops.len(),
{
    if ops.len() == 0 {
        Seq::empty()
    } else {
        let rest = emitted_deltas(apply_op_state(s, ops[0]), ops.skip(1));
        match apply_op_delta(s, ops[0]) {
            Some(u) => seq![u] + rest,
            None => rest,
        }
    }
}

/// Law: however a session is driven, the first delta it ever emits carries
/// `init == true` and every later delta carries `init == false`; a session
/// past its first emission emits only `init == false` deltas.
pub proof fn lemma_init_exactly_once(s: Session, ops: Seq<SessionOp>)
    ensures
        s.session_update.init ==> forall|i: int|
            0 <= i < emitted_deltas(s, ops).len() ==> (emitted_deltas(s, ops)[i].init <==> i == 0),
        !s.session_update.init ==> forall|i: int|
            0 <= i < emitted_deltas(s, ops).len() ==> !emitted_deltas(s, ops)[i].init,
    decreases ops.len(),
{
    if ops.len() > 0 {
        let next = apply_op_state(s, ops[0]);
        let rest = emitted_deltas(next, ops.skip(1));
        lemma_init_exactly_once(next, ops.skip(1));
        match apply_op_delta(s, ops[0]) {
            Some(u) => {
                assert(u.init == s.session_update.init);
                assert(!next.session_update.init);
                assert(emitted_deltas(s, ops) == seq![u] + rest);
                assert(forall|i: int|
                    0 <= i < rest.len() ==> (seq![u] + rest)[i + 1] == rest[i]);
            },
            None => {
                assert(next.session_update.init == s.session_update.init);
                assert(emitted_deltas(s, ops) == rest);
            },
        }
    }
}

/// Law: closing a session that is already terminal — crashed, exited or
/// abnormal — alters neither its status nor its duration; closing an `Okay`
/// session records `Exited` and the measured duration, and leaves the error
/// counter as it was.
pub proof fn lemma_close_terminal(s: Session, d: u128)
    ensures
        !(s.session_update.status is Okay) ==> spec_close(s, d) == s,
        s.session_update.status is Okay ==> {
            &&& spec_close(s, d).session_update.status is Exited
            &&& spec_close(s, d).session_update.duration == Some(d)
            &&& spec_close(s, d).session_update.errors == s.session_update.errors
            &&& spec_close(s, d).session_update.init == s.session_update.init
        },
{
}

/// Law: closing twice changes nothing the second time.
pub proof fn lemma_close_idempotent(s: Session, d1: u128, d2: u128)
    ensures
        spec_close(spec_close(s, d1), d2) == spec_close(s, d1),
{
}

fn exception_unhandled(x: &Exception) -> (r: bool)
    ensures
        r == exception_is_unhandled(*x),
{
    match &x.mechanism {
        Some(m) => match m.handled {
            Some(h) => !h,
            None => false,
        },
        None => false,
    }
}

impl Session {
    /// Begins a session for the given context layer. There is a session
    /// only when a client is attached and it carries a release; the session
    /// starts `Okay`, with no errors, dirty, and with its first delta still
    /// owed (`init`).
    pub fn from_stack(stack: &StackLayer) -> (r: Option<Session>)
        ensures
            r is Some <==> (stack.client matches Some(c) && c.release is Some),
            r matches Some(s) ==> {
                &&& s.session_update.wf()
                &&& s.session_update.status is Okay
                &&& s.session_update.errors == 0
                &&& s.session_update.init == true
                &&& s.dirty == true
                &&& s.session_update.duration is None
                &&& s.session_update.distinct_id == spec_distinct_id(stack.scope.user)
                &&& stack.client matches Some(c) && {
                    &&& c.release matches Some(rel) && s.session_update.attributes.release == rel
                    &&& s.session_update.attributes.environment == c.environment
                    &&& s.session_update.attributes.ip_address is None
                    &&& s.session_update.attributes.user_agent is None
                }
            },
    {
        let client = match &stack.client {
            Some(c) => c,
            None => {
                return None;
            },
        };
        let release = match &client.release {
            Some(r) => r.clone(),
            None => {
                return None;
            },
        };
        let distinct_id = pick_distinct_id(&stack.scope.user);
        let mut started = now_timestamp();
        if started < 0 {
            started = 0;
        }
        if started > MAX_TIMESTAMP {
            started = MAX_TIMESTAMP;
        }
        Some(
            Session {
                session_update: SessionUpdate {
                    session_id: new_session_id(),
                    distinct_id,
                    started,
                    init: true,
                    duration: None,
                    status: SessionStatus::Okay,
                    errors: 0,
                    attributes: SessionAttributes {
                        release,
                        environment: clone_opt_string(&client.environment),
                        ip_address: None,
                        user_agent: None,
                    },
                },
                started: instant_now(),
                dirty: true,
            },
        )
    }

    /// Takes the pending snapshot when the session changed since the last
    /// emitted delta, clearing the dirty flag and, from then on, `init`.
    fn take_delta(&mut self) -> (r: Option<SessionUpdate>)
        ensures
            *final(self) == spec_emit_state(*old(self)),
            r == spec_emit_delta(*old(self)),
    {
        if self.dirty {
            let item = self.session_update.duplicate();
            self.session_update.init = false;
            self.dirty = false;
            Some(item)
        } else {
            None
        }
    }

    /// Feeds one captured event to the session and hands back the snapshot
    /// delta when the recorded state changed, `None` otherwise. A terminal
    /// session receives no further updates.
    pub fn update_from_event(&mut self, event: &Event) -> (r: Option<SessionUpdate>)
        ensures
            *final(self) == spec_update_state(*old(self), *event),
            r == spec_update_delta(*old(self), *event),
    {
        if !matches!(self.session_update.status, SessionStatus::Okay) {
            return None;
        }
        let mut has_error = event.level.is_at_least_error();
        let mut is_crash = false;
        let n = event.exceptions.len();
        let mut i: usize = 0;
        while i < n
            invariant
                i <= n,
                n == event.exceptions@.len(),
                is_crash == exists|j: int|
                    0 <= j < i && exception_is_unhandled(event.exceptions@[j]),
                has_error == (crate::protocol::level_is_error(event.level) || i > 0),
            decreases n - i,
        {
            has_error = true;
            if exception_unhandled(&event.exceptions[i]) {
                is_crash = true;
            }
            i += 1;
        }
        assert(is_crash == event_is_crash(*event));
        assert(has_error == event_is_error(*event));
        if is_crash {
            self.session_update.status = SessionStatus::Crashed;
        }
        if has_error {
            if self.session_update.errors < u32::MAX {
                self.session_update.errors = self.session_update.errors + 1;
            }
            self.dirty = true;
        }
        self.take_delta()
    }

    /// Ends an `Okay` session: records the elapsed monotonic duration in
    /// milliseconds and exits, marking the session dirty. A session that is
    /// already terminal is left untouched, so a second call has no effect.
    pub fn close(&mut self)
        ensures
            !(old(self).session_update.status is Okay) ==> *final(self) == *old(self),
            old(self).session_update.status is Okay ==> exists|d: u128|
                *final(self) == spec_close(*old(self), d),
    {
        if matches!(self.session_update.status, SessionStatus::Okay) {
            let elapsed = instant_elapsed(&self.started);
            let ms = duration_millis(&elapsed);
            self.session_update.duration = Some(ms);
            self.session_update.status = SessionStatus::Exited;
            self.dirty = true;
            assert(*self == spec_close(*old(self), ms));
        }
    }

    /// Takes the pending snapshot as an envelope item when the session
    /// changed since the last emitted delta, clearing the dirty flag and,
    /// from then on, `init`.
    pub fn create_envelope_item(&mut self) -> (r: Option<EnvelopeItem>)
        ensures
            *final(self) == spec_emit_state(*old(self)),
            r == match spec_emit_delta(*old(self)) {
                Some(u) => Some(EnvelopeItem::SessionUpdate(u)),
                None => None::<EnvelopeItem>,
            },
    {
        match self.take_delta() {
            Some(u) => Some(EnvelopeItem::SessionUpdate(u)),
            None => None,
        }
    }

    /// Adds `n` to the error counter without taking any wider lock than the
    /// session itself, saturating at the ceiling; a terminal session
    /// accepts no further mutation.
    pub fn record_errors(&mut self, n: u32)
        ensures
            *final(self) == spec_record_errors(*old(self), n),
            final(self).session_update.errors >= old(self).session_update.errors,
    {
        if n == 0 {
            return;
        }
        if !matches!(self.session_update.status, SessionStatus::Okay) {
            return;
        }
        let e = self.session_update.errors;
        if e > u32::MAX - n {
            self.session_update.errors = u32::MAX;
        } else {
            self.session_update.errors = e + n;
        }
        self.dirty = true;
    }
}

} // verus!
