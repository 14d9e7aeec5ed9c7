use vstd::prelude::*;

use crate::error::{has_label, Error, ErrorKind};
use crate::session::ClientSession;

verus! {

/// Which kind of automatic retry an operation allows.
#[derive(Debug, Clone, Copy, PartialEq, Eq, Structural)]
pub enum Retryability {
    Write,
    Read,
    NoRetry,
}

/// Server error codes after which a read may be retried.
pub open spec fn retryable_read_code(code: i32) -> bool {
    code == 11600 || code == 11602 || code == 10107 || code == 13435 || code == 13436 || code
        == 189 || code == 91 || code == 7 || code == 6 || code == 89 || code == 9001 || code == 262
}

pub fn is_retryable_read_code(code: i32) -> (r: bool)
    ensures
        r == retryable_read_code(code),
{
    code == 11600 || code == 11602 || code == 10107 || code == 13435 || code == 13436 || code
        == 189 || code == 91 || code == 7 || code == 6 || code == 89 || code == 9001 || code == 262
}

/// Whether the error's labels hold `RetryableWriteError`.
pub open spec fn has_retryable_write_label(e: Error) -> bool {
    exists|j: int| 0 <= j < e.labels@.len() && (#[trigger] e.labels@[j])@ == "RetryableWriteError"@
}

/// Whether an error of an attempt may be retried under a retryability class: network
/// errors always, writes on the server's `RetryableWriteError` label, reads on the
/// retryable read codes.
pub open spec fn retryable_error(r: Retryability, e: Error) -> bool {
    match r {
        Retryability::NoRetry => false,
        Retryability::Write => e.kind is Network || has_retryable_write_label(e),
        Retryability::Read => e.kind is Network || (e.kind matches ErrorKind::Command { code, .. }
            && retryable_read_code(code)),
    }
}

/// Whether an error is retryable under a retryability class.
pub fn is_retryable_error(r: Retryability, e: &Error) -> (b: bool)
    ensures
        b == retryable_error(r, *e),
{
    match r {
        Retryability::NoRetry => false,
        Retryability::Write => {
            if e.is_network_error() {
                return true;
            }
            let label = "RetryableWriteError".to_owned();
            proof {
                reveal_strlit("RetryableWriteError");
            }
            has_label(&e.labels, &label)
        },
        Retryability::Read => {
            if e.is_network_error() {
                return true;
            }
            match &e.kind {
                ErrorKind::Command { code, .. } => is_retryable_read_code(*code),
                _ => false,
            }
        },
    }
}

/// The smaller of a bound and an optional one.
pub open spec fn min_with(bound: u64, other: Option<u64>) -> u64 {
    match other {
        Some(o) => if o < bound { o } else { bound },
        None => bound,
    }
}

/// The deadline of an attempt: the earliest of the call's deadline, the end of server
/// selection and the socket deadline, whichever are set (as instants in milliseconds).
pub fn effective_deadline(selection_deadline: u64, call_deadline: Option<u64>, socket_deadline: Option<u64>) -> (r: u64)
    ensures
        r == min_with(min_with(selection_deadline, call_deadline), socket_deadline),
        r <= selection_deadline,
        call_deadline matches Some(c) ==> r <= c,
        socket_deadline matches Some(s) ==> r <= s,
{
    let mut r = selection_deadline;
    if let Some(c) = call_deadline {
        if c < r {
            r = c;
        }
    }
    if let Some(s) = socket_deadline {
        if s < r {
            r = s;
        }
    }
    r
}

/// Where an execution stands.
#[derive(Debug, Clone, Copy, PartialEq, Eq, Structural)]
pub enum Phase {
    /// Waiting for a server.
    Selecting,
    /// Waiting for the operation to build its command.
    Building,
    /// The command is being sent on a checked-out connection.
    Sending,
    /// The reply was read and the connection handed back; waiting for the decode.
    Decoding,
    Done,
}

/// What happened since the last step.
#[derive(Debug)]
pub enum Event {
    ServerSelected,
    SelectionFailed(Error),
    Built,
    BuildFailed(Error),
    /// A reply with `ok: 1` was read.
    Replied,
    /// A reply with `ok: 0` was read; this is its command error.
    ReplyError(Error),
    /// The transport failed while sending or reading.
    NetworkError(Error),
    /// The call's deadline passed.
    Cancelled,
    Decoded,
    DecodeFailed(Error),
}

/// What to do with the checked-out connection.
#[derive(Debug, Clone, Copy, PartialEq, Eq, Structural)]
pub enum ConnectionAction {
    Keep,
    Release,
    Discard,
}

/// What to do next.
#[derive(Debug)]
pub enum NextAction {
    SelectServer,
    Build,
    /// Check out a connection and send the command.
    Send,
    Decode,
    /// The operation succeeded: return its decoded result.
    Return,
    Surface(Error),
}

/// The executor's answer to an event.
#[derive(Debug)]
pub struct Step {
    pub connection: ConnectionAction,
    pub mark_dirty: bool,
    /// Call the operation's retry hook before selecting a server again.
    pub update_for_retry: bool,
    pub next: NextAction,
}

/// The retry state machine of one call: select, build, send, decode, and on failure
/// either retry once (a commit: until its deadline) or surface the error.
#[derive(Debug)]
pub struct Executor {
    pub retryability: Retryability,
    pub is_commit: bool,
    pub ends_transaction: bool,
    pub in_transaction: bool,
    pub has_session: bool,
    pub attempts: u32,
    pub phase: Phase,
    pub first_error: Option<Error>,
}

/// Whether an event may arrive in a phase.
pub open spec fn event_allowed(p: Phase, e: Event) -> bool {
    match e {
        Event::ServerSelected | Event::SelectionFailed(_) => p is Selecting,
        Event::Built | Event::BuildFailed(_) => p is Building,
        Event::Replied | Event::ReplyError(_) | Event::NetworkError(_) => p is Sending,
        Event::Decoded | Event::DecodeFailed(_) => p is Decoding,
        Event::Cancelled => !(p is Done),
    }
}

/// The error surfaced after a failed attempt: the error itself, with the first
/// attempt's error attached when this one was a retry.
pub open spec fn surfaced(first: Option<Error>, e: Error) -> Error {
    match first {
        Some(f) => Error { first_attempt: Some(Box::new(f)), ..e },
        None => e,
    }
}

/// One step of the executor: how the state after an event, and the answer, follow
/// from the state before.
pub open spec fn step_spec(old_e: Executor, new_e: Executor, event: Event, deadline_passed: bool, r: Step) -> bool {
    &&& new_e.retryability == old_e.retryability
    &&& new_e.is_commit == old_e.is_commit
    &&& new_e.in_transaction == old_e.in_transaction
    &&& new_e.ends_transaction == old_e.ends_transaction
    &&& new_e.has_session == old_e.has_session
    // only a retry starts a new attempt, and it counts
    &&& new_e.attempts == if r.next is SelectServer { old_e.attempts + 1 } else { old_e.attempts as int }
    &&& r.update_for_retry <==> r.next is SelectServer
    &&& (event is ServerSelected || event is Built || event is Replied) ==> new_e.first_error
        == old_e.first_error
    // the connection is handed back exactly once, when the sending phase ends
    &&& old_e.phase is Sending ==> (r.connection is Release || r.connection is Discard)
    &&& !(old_e.phase is Sending) ==> r.connection is Keep
    &&& new_e.phase is Sending ==> (event is Built && r.next is Send)
    // a transport failure, or a cancellation once the command was sent, leaves the
    // session dirty; nothing else does
    &&& r.mark_dirty <==> old_e.has_session && (event is NetworkError
        || (event is Cancelled && (old_e.phase is Sending || old_e.phase is Decoding)))
    &&& event is NetworkError ==> r.connection is Discard
    &&& (event is Replied || event is ReplyError) ==> r.connection is Release
    &&& event is Cancelled ==> new_e.phase is Done && (r.next matches NextAction::Surface(err)
        && err.kind is Cancelled && err.labels@.len() == 0)
    &&& match event {
        Event::ServerSelected => new_e.phase is Building && r.next is Build,
        Event::Built => new_e.phase is Sending,
        Event::Replied => new_e.phase is Decoding && r.next is Decode,
        Event::Decoded => new_e.phase is Done && r.next is Return,
        Event::SelectionFailed(e) | Event::BuildFailed(e) | Event::DecodeFailed(e) => new_e.phase is Done
            && r.next == NextAction::Surface(surfaced(old_e.first_error, e)),
        Event::ReplyError(e) | Event::NetworkError(e) => (old_e.may_retry(e, deadline_passed)
            ==> new_e.phase is Selecting && r.next is SelectServer && new_e.first_error == (if old_e.first_error is Some {
                old_e.first_error
            } else {
                Some(e)
            })) && (!old_e.may_retry(e, deadline_passed)
            ==> new_e.phase is Done && r.next == NextAction::Surface(surfaced(old_e.first_error, e))),
        Event::Cancelled => true,
    }
}

impl Executor {
    /// The executor's invariant: no more than one attempt without retryability, no
    /// more than two with it unless the call commits a transaction, and a first error
    /// kept only once a retry has begun.
    pub open spec fn wf(&self) -> bool {
        &&& self.attempts >= 1
        &&& self.retryability is NoRetry ==> self.attempts == 1
        &&& !self.is_commit ==> self.attempts <= 2
        &&& self.first_error is Some ==> self.attempts > 1
        &&& !(self.phase is Done) && self.attempts > 1 ==> self.first_error is Some
    }

    /// Whether the error of the current attempt leads to another attempt.
    pub open spec fn may_retry(&self, e: Error, deadline_passed: bool) -> bool {
        &&& retryable_error(self.retryability, e)
        &&& !self.in_transaction || self.ends_transaction
        &&& !deadline_passed
        &&& self.attempts < 2 || self.is_commit
        &&& self.attempts < u32::MAX
    }

    /// A fresh execution, about to select a server for its first attempt.
    pub fn new(
        retryability: Retryability,
        is_commit: bool,
        ends_transaction: bool,
        in_transaction: bool,
        has_session: bool,
    ) -> (r: Executor)
        ensures
            r.wf(),
            r.phase is Selecting,
            r.attempts == 1,
            r.retryability == retryability,
            r.is_commit == is_commit,
            r.ends_transaction == ends_transaction,
            r.in_transaction == in_transaction,
            r.has_session == has_session,
    {
        Executor {
            retryability,
            is_commit,
            ends_transaction,
            in_transaction,
            has_session,
            attempts: 1,
            phase: Phase::Selecting,
            first_error: None,
        }
    }

    /// Whether `event` may arrive now.
    pub fn expects(&self, event: &Event) -> (r: bool)
        ensures
            r == event_allowed(self.phase, *event),
    {
        match event {
            Event::ServerSelected | Event::SelectionFailed(_) => matches!(self.phase, Phase::Selecting),
            Event::Built | Event::BuildFailed(_) => matches!(self.phase, Phase::Building),
            Event::Replied | Event::ReplyError(_) | Event::NetworkError(_) => matches!(self.phase, Phase::Sending),
            Event::Decoded | Event::DecodeFailed(_) => matches!(self.phase, Phase::Decoding),
            Event::Cancelled => !matches!(self.phase, Phase::Done),
        }
    }

    fn surface(&mut self, e: Error) -> (r: Error)
        ensures
            r == surfaced(old(self).first_error, e),
            final(self).first_error is None,
            final(self).attempts == old(self).attempts,
            final(self).retryability == old(self).retryability,
            final(self).is_commit == old(self).is_commit,
            final(self).phase == old(self).phase,
            final(self).in_transaction == old(self).in_transaction,
            final(self).ends_transaction == old(self).ends_transaction,
            final(self).has_session == old(self).has_session,
    {
        match self.first_error.take() {
            Some(f) => Error { first_attempt: Some(Box::new(f)), ..e },
            None => e,
        }
    }

    /// After a failed attempt: another attempt, or the error surfaced.
    fn after_failure(&mut self, e: Error, deadline_passed: bool, connection: ConnectionAction, mark_dirty: bool) -> (r: Step)
        requires
            old(self).wf(),
        ensures
            r.connection == connection,
            r.mark_dirty == mark_dirty,
            final(self).retryability == old(self).retryability,
            final(self).is_commit == old(self).is_commit,
            final(self).in_transaction == old(self).in_transaction,
            final(self).ends_transaction == old(self).ends_transaction,
            final(self).has_session == old(self).has_session,
            old(self).may_retry(e, deadline_passed) ==> {
                &&& final(self).phase is Selecting
                &&& final(self).attempts == old(self).attempts + 1
                &&& r.update_for_retry
                &&& r.next is SelectServer
                &&& final(self).first_error == if old(self).first_error is Some {
                    old(self).first_error
                } else {
                    Some(e)
                }
            },
            !old(self).may_retry(e, deadline_passed) ==> {
                &&& final(self).phase is Done
                &&& final(self).attempts == old(self).attempts
                &&& final(self).first_error is None
                &&& !r.update_for_retry
                &&& r.next == NextAction::Surface(surfaced(old(self).first_error, e))
            },
    {
        let retry = is_retryable_error(self.retryability, &e)
            && (!self.in_transaction || self.ends_transaction)
            && !deadline_passed
            && (self.attempts < 2 || self.is_commit)
            && self.attempts < u32::MAX;
        if retry {
            self.attempts = self.attempts + 1;
            if self.first_error.is_none() {
                self.first_error = Some(e);
            }
            self.phase = Phase::Selecting;
            Step { connection, mark_dirty, update_for_retry: true, next: NextAction::SelectServer }
        } else {
            let err = self.surface(e);
            self.phase = Phase::Done;
            Step { connection, mark_dirty, update_for_retry: false, next: NextAction::Surface(err) }
        }
    }

    /// Moves the execution on by one event. `deadline_passed` tells whether the call's
    /// deadline (for a commit, its commit timeout) has passed, which forbids a retry.
    pub fn handle(&mut self, event: Event, deadline_passed: bool) -> (r: Step)
        requires
            old(self).wf(),
            event_allowed(old(self).phase, event),
        ensures
            final(self).wf(),
            step_spec(*old(self), *final(self), event, deadline_passed, r),
    {
        match event {
            Event::ServerSelected => {
                self.phase = Phase::Building;
                Step { connection: ConnectionAction::Keep, mark_dirty: false, update_for_retry: false, next: NextAction::Build }
            },
            Event::Built => {
                self.phase = Phase::Sending;
                Step { connection: ConnectionAction::Keep, mark_dirty: false, update_for_retry: false, next: NextAction::Send }
            },
            Event::Replied => {
                self.phase = Phase::Decoding;
                Step { connection: ConnectionAction::Release, mark_dirty: false, update_for_retry: false, next: NextAction::Decode }
            },
            Event::Decoded => {
                self.phase = Phase::Done;
                Step { connection: ConnectionAction::Keep, mark_dirty: false, update_for_retry: false, next: NextAction::Return }
            },
            Event::SelectionFailed(e) | Event::BuildFailed(e) | Event::DecodeFailed(e) => {
                let err = self.surface(e);
                self.phase = Phase::Done;
                Step { connection: ConnectionAction::Keep, mark_dirty: false, update_for_retry: false, next: NextAction::Surface(err) }
            },
            Event::ReplyError(e) => self.after_failure(e, deadline_passed, ConnectionAction::Release, false),
            Event::NetworkError(e) => {
                let dirty = self.has_session;
                self.after_failure(e, deadline_passed, ConnectionAction::Discard, dirty)
            },
            Event::Cancelled => {
                let sending = matches!(self.phase, Phase::Sending);
                let sent = sending || matches!(self.phase, Phase::Decoding);
                let err = self.surface(Error::new(ErrorKind::Cancelled, Vec::new()));
                self.phase = Phase::Done;
                let connection = if sending { ConnectionAction::Discard } else { ConnectionAction::Keep };
                Step { connection, mark_dirty: sent && self.has_session, update_for_retry: false, next: NextAction::Surface(err) }
            },
        }
    }

    /// Moves the execution on by one event, applying the step to the call's session:
    /// it is left dirty exactly when the step says so, and after any network error.
    pub fn handle_in_session(&mut self, event: Event, deadline_passed: bool, session: &mut ClientSession) -> (r: Step)
        requires
            old(self).wf(),
            event_allowed(old(self).phase, event),
            old(self).has_session,
        ensures
            final(self).wf(),
            step_spec(*old(self), *final(self), event, deadline_passed, r),
            final(session).dirty == (old(session).dirty || r.mark_dirty),
            event is NetworkError ==> final(session).dirty,
            final(session).id == old(session).id,
            final(session).transaction == old(session).transaction,
            final(session).txn_number == old(session).txn_number,
    {
        let step = self.handle(event, deadline_passed);
        if step.mark_dirty {
            session.mark_dirty();
        }
        step
    }
}

/// Every state an execution reaches keeps to the attempt bounds: one attempt without
/// retryability, at most two with it, any number only for a commit.
pub proof fn lemma_attempt_bounds(e: Executor)
    requires
        e.wf(),
    ensures
        e.retryability is NoRetry ==> e.attempts <= 1,
        (e.retryability is Read || e.retryability is Write) && !e.is_commit ==> e.attempts <= 2,
{
}

/// A connection is checked out only by the step that enters the sending phase, and the
/// step that leaves it hands it back exactly once, released or discarded.
pub proof fn lemma_connection_returned_once(
    old_e: Executor,
    new_e: Executor,
    event: Event,
    deadline_passed: bool,
    r: Step,
)
    requires
        old_e.wf(),
        event_allowed(old_e.phase, event),
        step_spec(old_e, new_e, event, deadline_passed, r),
    ensures
        old_e.phase is Sending ==> !(new_e.phase is Sending) && (r.connection is Release
            ^ r.connection is Discard),
        !(old_e.phase is Sending) ==> r.connection is Keep,
        new_e.phase is Sending ==> r.next is Send && old_e.phase is Building,
{
}

/// A call that is not a commit ends after its second attempt: a failure then is
/// surfaced, chained to the first attempt's error, and no server is selected again.
pub proof fn lemma_no_third_attempt(
    old_e: Executor,
    new_e: Executor,
    event: Event,
    deadline_passed: bool,
    r: Step,
)
    requires
        old_e.wf(),
        event_allowed(old_e.phase, event),
        step_spec(old_e, new_e, event, deadline_passed, r),
        !old_e.is_commit,
        old_e.attempts == 2,
    ensures
        !(r.next is SelectServer),
        new_e.attempts == 2,
        !r.update_for_retry,
        (event is ReplyError || event is NetworkError) ==> new_e.phase is Done,
{
}

} // verus!
