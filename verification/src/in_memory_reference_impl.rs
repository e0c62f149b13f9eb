use vstd::prelude::*;

use crate::clock::now_micros;
use crate::commands::{cmd_eq, command_eq, spec_command_id, spec_command_type, spec_session_id, AnyCommand};
use crate::errors::{DomainError, DomainResult, ErrorCode, ErrorDetails};
use crate::eventid::fresh_event_id;
use crate::interfaces::{
    CommandOutcome, EventFactory, IdempotencyState, InvariantEngine, ReviewAction,
    ValidationTrigger,
};
use crate::types::{DispatchResult, EventData, EventEnvelope, EventKind, SessionStatus};
use crate::umap::UidMap;

verus! {

/// Progress of one idempotency entry.
#[derive(Clone, Copy, Debug, PartialEq, Eq, Structural)]
pub enum EntryStatus {
    InProgress,
    Committed,
    Failed,
}

/// The record kept per command identifier: the full command, kept verbatim
/// as the request fingerprint, the progress of its dispatch, and the stored
/// result or error.
#[derive(Debug)]
pub struct IdempotencyEntry {
    pub request_fingerprint: AnyCommand,
    pub status: EntryStatus,
    pub result: Option<DispatchResult>,
    pub error: Option<DomainError>,
}

/// Deduplicates commands by identifier: detects identifier reuse with a
/// different payload, and allows safe replay of a committed result.
pub struct InMemoryIdempotencyStore {
    entries: UidMap<IdempotencyEntry>,
}

impl InMemoryIdempotencyStore {
    /// The entries this store holds, keyed by command identifier.
    pub closed spec fn entries_map(self) -> Map<u128, IdempotencyEntry> {
        self.entries.view_map()
    }

    /// Well-formedness: a committed entry always holds a result.
    pub closed spec fn wf(self) -> bool {
        &&& self.entries.wf()
        &&& forall|k: u128|
            #[trigger] self.entries_map().dom().contains(k) ==> (self.entries_map()[k].status
                is Committed ==> self.entries_map()[k].result is Some)
    }

    /// An empty store.
    pub fn new() -> (r: Self)
        ensures
            r.wf(),
            r.entries_map() =~= Map::<u128, IdempotencyEntry>::empty(),
    {
        InMemoryIdempotencyStore { entries: UidMap::new() }
    }

    /// Opens dispatch bookkeeping for a command. With no entry under the
    /// command's identifier, a fresh `InProgress` entry is created and `New`
    /// returned. An entry with a different request fingerprint, or one that
    /// is not yet `Committed`, yields `Conflict`. A committed entry with the
    /// same fingerprint yields `Replay` with the stored result.
    pub fn begin(&mut self, command: &AnyCommand) -> (r: IdempotencyState)
        requires
            old(self).wf(),
        ensures
            final(self).wf(),
            ({
                let id = spec_command_id(*command);
                let m = old(self).entries_map();
                if !m.dom().contains(id) {
                    &&& r is New
                    &&& final(self).entries_map().dom() =~= m.dom().insert(id)
                    &&& forall|k: u128|
                        k != id && #[trigger] m.dom().contains(k) ==> final(self).entries_map()[k]
                            == m[k]
                    &&& cmd_eq(final(self).entries_map()[id].request_fingerprint, *command)
                    &&& spec_command_id(final(self).entries_map()[id].request_fingerprint) == id
                    &&& final(self).entries_map()[id].status is InProgress
                    &&& final(self).entries_map()[id].result is None
                    &&& final(self).entries_map()[id].error is None
                } else if !cmd_eq(m[id].request_fingerprint, *command) {
                    r is Conflict && *final(self) == *old(self)
                } else if m[id].status is Committed {
                    (r matches IdempotencyState::Replay(res) && res@ == m[id].result->Some_0@)
                        && *final(self) == *old(self)
                } else {
                    r is Conflict && *final(self) == *old(self)
                }
            }),
    {
        let id = command.command_id();
        match self.entries.get(id) {
            Option::None => {},
            Option::Some(e) => {
                if !command_eq(&e.request_fingerprint, command) {
                    return IdempotencyState::Conflict;
                }
                if e.status == EntryStatus::Committed {
                    match &e.result {
                        Option::Some(v) => {
                            return IdempotencyState::Replay(v.clone());
                        },
                        Option::None => {
                            // Unreachable: a committed entry always holds a
                            // result (well-formedness).
                            proof {
                                assert(false);
                            }
                            return IdempotencyState::Conflict;
                        },
                    }
                }
                return IdempotencyState::Conflict;
            },
        }
        self.entries.insert(
            id,
            IdempotencyEntry {
                request_fingerprint: command.clone(),
                status: EntryStatus::InProgress,
                result: Option::None,
                error: Option::None,
            },
        );
        IdempotencyState::New
    }

    /// Marks the entry under the identifier `Committed` and stores the
    /// result; fails with `NotFound` if no entry exists, since commit must
    /// only follow a successful `begin`.
    pub fn commit(&mut self, command_id: u128, result: &DispatchResult) -> (r: DomainResult<()>)
        requires
            old(self).wf(),
        ensures
            final(self).wf(),
            ({
                let m = old(self).entries_map();
                if m.dom().contains(command_id) {
                    &&& r is Ok
                    &&& final(self).entries_map().dom() =~= m.dom()
                    &&& forall|k: u128|
                        k != command_id && #[trigger] m.dom().contains(k)
                            ==> final(self).entries_map()[k] == m[k]
                    &&& final(self).entries_map()[command_id].request_fingerprint
                        == m[command_id].request_fingerprint
                    &&& final(self).entries_map()[command_id].status is Committed
                    &&& (final(self).entries_map()[command_id].result matches Option::Some(v) && v@
                        == result@)
                    &&& final(self).entries_map()[command_id].error == m[command_id].error
                } else {
                    (r matches Err(e) && e.code is NotFound) && *final(self) == *old(self)
                }
            }),
    {
        match self.entries.remove(command_id) {
            Option::Some(mut entry) => {
                entry.status = EntryStatus::Committed;
                entry.result = Option::Some(result.clone());
                self.entries.insert(command_id, entry);
                Result::Ok(())
            },
            Option::None => Result::Err(
                DomainError {
                    code: ErrorCode::NotFound,
                    message: "Idempotency entry not found on commit".to_string(),
                    details: Option::Some(ErrorDetails::CommandId(command_id)),
                },
            ),
        }
    }

    /// Marks the entry under the identifier `Failed` and stores the error,
    /// for observability; fails with `NotFound` if no entry exists.
    pub fn mark_failed(&mut self, command_id: u128, error: &DomainError) -> (r: DomainResult<()>)
        requires
            old(self).wf(),
        ensures
            final(self).wf(),
            ({
                let m = old(self).entries_map();
                if m.dom().contains(command_id) {
                    &&& r is Ok
                    &&& final(self).entries_map().dom() =~= m.dom()
                    &&& forall|k: u128|
                        k != command_id && #[trigger] m.dom().contains(k)
                            ==> final(self).entries_map()[k] == m[k]
                    &&& final(self).entries_map()[command_id].request_fingerprint
                        == m[command_id].request_fingerprint
                    &&& final(self).entries_map()[command_id].status is Failed
                    &&& final(self).entries_map()[command_id].error == Option::Some(*error)
                    &&& final(self).entries_map()[command_id].result == m[command_id].result
                } else {
                    (r matches Err(e) && e.code is NotFound) && *final(self) == *old(self)
                }
            }),
    {
        match self.entries.remove(command_id) {
            Option::Some(mut entry) => {
                entry.status = EntryStatus::Failed;
                entry.error = Option::Some(error.clone());
                self.entries.insert(command_id, entry);
                Result::Ok(())
            },
            Option::None => Result::Err(
                DomainError {
                    code: ErrorCode::NotFound,
                    message: "Idempotency entry not found on mark_failed".to_string(),
                    details: Option::Some(ErrorDetails::CommandId(command_id)),
                },
            ),
        }
    }
}

/// Append-only in-memory event log.
pub struct InMemoryEventStore {
    events: Vec<EventEnvelope>,
}

impl InMemoryEventStore {
    /// The events appended so far, oldest first.
    pub closed spec fn log(self) -> Seq<EventEnvelope> {
        self.events@
    }

    /// An empty log.
    pub fn new() -> (r: Self)
        ensures
            r.log() == Seq::<EventEnvelope>::empty(),
    {
        InMemoryEventStore { events: Vec::new() }
    }

    /// Appends events at the end of the log; nothing already appended is
    /// touched.
    pub fn append(&mut self, events: Vec<EventEnvelope>)
        ensures
            final(self).log() == old(self).log() + events@,
    {
        let mut events = events;
        let ghost pre = self.events@;
        let n = events.len();
        let mut i: usize = 0;
        while i < n
            invariant
                n == events@.len(),
                0 <= i <= n,
                self.events@ =~= pre + events@.take(i as int),
            decreases n - i,
        {
            let ghost before = self.events@;
            let e = events[i].clone();
            self.events.push(e);
            proof {
                assert(self.events@ =~= pre + events@.take(i as int + 1));
            }
            i += 1;
        }
        proof {
            assert(events@.take(n as int) =~= events@);
        }
    }

    /// Every event appended so far.
    pub fn all_events(&self) -> (r: &Vec<EventEnvelope>)
        ensures
            r@ == self.log(),
    {
        &self.events
    }
}

/// In-memory record of session lifecycle statuses.
pub struct InMemorySessionReader {
    statuses: UidMap<SessionStatus>,
}

impl InMemorySessionReader {
    /// The status currently recorded for each session.
    pub closed spec fn status_map(self) -> Map<u128, SessionStatus> {
        self.statuses.view_map()
    }

    /// Well-formedness of the backing map.
    pub closed spec fn wf(self) -> bool {
        self.statuses.wf()
    }

    /// An empty record.
    pub fn new() -> (r: Self)
        ensures
            r.wf(),
            r.status_map() =~= Map::<u128, SessionStatus>::empty(),
    {
        InMemorySessionReader { statuses: UidMap::new() }
    }

    /// Records a session's status, replacing any previous one.
    pub fn set_status(&mut self, session_id: u128, status: SessionStatus)
        requires
            old(self).wf(),
        ensures
            final(self).wf(),
            final(self).status_map() =~= old(self).status_map().insert(session_id, status),
    {
        self.statuses.insert(session_id, status);
    }

    /// The backing map of recorded statuses.
    pub fn statuses(&self) -> (r: &UidMap<SessionStatus>)
        ensures
            r.view_map() == self.status_map(),
    {
        &self.statuses
    }

    /// Records a session's new status as part of applying an accepted
    /// outcome; the same write as `set_status`, under the name the
    /// dispatcher's projection step uses.
    pub fn update_session_status(&mut self, session_id: u128, next: SessionStatus)
        requires
            old(self).wf(),
        ensures
            final(self).wf(),
            final(self).status_map() =~= old(self).status_map().insert(session_id, next),
    {
        self.statuses.insert(session_id, next);
    }

    /// The status of a session; fails with `NotFound` if the session is
    /// unknown.
    pub fn get_status(&self, session_id: u128) -> (r: DomainResult<SessionStatus>)
        requires
            self.wf(),
        ensures
            self.status_map().dom().contains(session_id) ==> r == Result::<
                SessionStatus,
                DomainError,
            >::Ok(self.status_map()[session_id]),
            !self.status_map().dom().contains(session_id) ==> (r matches Err(e) && e.code
                is NotFound && e.details == Option::Some(ErrorDetails::SessionId(session_id))),
    {
        match self.statuses.get(session_id) {
            Option::Some(s) => Result::Ok(*s),
            Option::None => Result::Err(
                DomainError {
                    code: ErrorCode::NotFound,
                    message: "Session status not found".to_string(),
                    details: Option::Some(ErrorDetails::SessionId(session_id)),
                },
            ),
        }
    }
}

/// In-memory read-side state: applied deltas, review actions and validation
/// triggers, in application order.
pub struct InMemoryProjectionWriter {
    deltas: Vec<String>,
    review_actions: Vec<ReviewAction>,
    validation_triggers: Vec<ValidationTrigger>,
}

impl InMemoryProjectionWriter {
    /// The state-delta payloads applied so far.
    pub closed spec fn deltas(self) -> Seq<String> {
        self.deltas@
    }

    /// The review actions applied so far.
    pub closed spec fn reviews(self) -> Seq<ReviewAction> {
        self.review_actions@
    }

    /// The validation triggers applied so far.
    pub closed spec fn triggers(self) -> Seq<ValidationTrigger> {
        self.validation_triggers@
    }

    /// An empty read side.
    pub fn new() -> (r: Self)
        ensures
            r.deltas() == Seq::<String>::empty(),
            r.reviews() == Seq::<ReviewAction>::empty(),
            r.triggers() == Seq::<ValidationTrigger>::empty(),
    {
        InMemoryProjectionWriter {
            deltas: Vec::new(),
            review_actions: Vec::new(),
            validation_triggers: Vec::new(),
        }
    }

    /// Applies an outcome's state delta.
    pub fn apply_state_delta(&mut self, outcome: &CommandOutcome)
        ensures
            final(self).deltas() == old(self).deltas().push(outcome.state_delta.data),
            final(self).reviews() == old(self).reviews(),
            final(self).triggers() == old(self).triggers(),
    {
        self.deltas.push(outcome.state_delta.data.clone());
    }

    /// Applies an outcome's review actions, in order.
    pub fn apply_review_actions(&mut self, actions: &Vec<ReviewAction>)
        ensures
            final(self).reviews() == old(self).reviews() + actions@,
            final(self).deltas() == old(self).deltas(),
            final(self).triggers() == old(self).triggers(),
    {
        let ghost pre = self.review_actions@;
        let n = actions.len();
        let mut i: usize = 0;
        while i < n
            invariant
                n == actions@.len(),
                0 <= i <= n,
                self.review_actions@ =~= pre + actions@.take(i as int),
                self.deltas@ == old(self).deltas@,
                self.validation_triggers@ == old(self).validation_triggers@,
            decreases n - i,
        {
            self.review_actions.push(actions[i].clone());
            proof {
                assert(self.review_actions@ =~= pre + actions@.take(i as int + 1));
            }
            i += 1;
        }
        proof {
            assert(actions@.take(n as int) =~= actions@);
        }
    }

    /// Records an outcome's validation trigger.
    pub fn apply_validation_trigger(&mut self, trigger: &ValidationTrigger)
        ensures
            final(self).triggers() == old(self).triggers().push(*trigger),
            final(self).deltas() == old(self).deltas(),
            final(self).reviews() == old(self).reviews(),
    {
        self.validation_triggers.push(*trigger);
    }
}

/// An invariant engine that accepts every aggregate.
#[derive(Clone, Copy, Debug)]
pub struct NoopInvariantEngine;

impl InvariantEngine for NoopInvariantEngine {
    fn assert_all(&self, _session_id: Option<u128>) -> DomainResult<()> {
        Result::Ok(())
    }
}

/// A unit of work for the in-memory stores: they need no transaction
/// demarcation, so the boundary is the call itself, and the dispatcher
/// guarantees all-or-nothing behaviour by applying effects only after every
/// check inside the boundary has passed.
#[derive(Clone, Copy, Debug)]
pub struct InMemoryUnitOfWork;

impl InMemoryUnitOfWork {
    /// Runs the transaction body directly.
    pub fn within_tx<T, F: FnOnce() -> DomainResult<T>>(&self, body: F) -> (r: DomainResult<T>)
        requires
            call_requires(body, ()),
        ensures
            call_ensures(body, (), r),
    {
        body()
    }
}

/// Derives exactly one event from an accepted command's outcome: the event
/// type is the command's type tag, annotated with the target status when a
/// transition occurred; the payload carries the session id and the
/// outcome's state-delta payload; `caused_by` is the originating command.
#[derive(Clone, Copy, Debug)]
pub struct SimpleEventFactory;

impl SimpleEventFactory {
    /// Builds the one event envelope for an accepted command. The event id
    /// and timestamp come from the platform and nothing is promised of them.
    pub fn derive_events(command: &AnyCommand, outcome: &CommandOutcome) -> (r: Vec<
        EventEnvelope,
    >)
        ensures
            r@.len() == 1,
            r@[0].caused_by == spec_command_id(*command),
            r@[0].event_type == (match outcome.transition {
                Option::Some(t) => EventKind::Transitioned(spec_command_type(*command), t.to),
                Option::None => EventKind::Processed(spec_command_type(*command)),
            }),
            r@[0].data.session_id == spec_session_id(*command),
            r@[0].data.delta@ == outcome.state_delta.data@,
    {
        let event_type = match &outcome.transition {
            Option::Some(t) => EventKind::Transitioned(command.command_type(), t.to),
            Option::None => EventKind::Processed(command.command_type()),
        };
        let envelope = EventEnvelope {
            event_id: fresh_event_id(),
            caused_by: command.command_id(),
            event_type,
            timestamp: now_micros(),
            data: EventData {
                session_id: command.session_id(),
                delta: outcome.state_delta.data.clone(),
            },
        };
        let mut events: Vec<EventEnvelope> = Vec::new();
        events.push(envelope);
        events
    }
}

impl EventFactory for SimpleEventFactory {
    fn build_events(&self, command: &AnyCommand, outcome: &CommandOutcome) -> DomainResult<
        Vec<EventEnvelope>,
    > {
        Result::Ok(Self::derive_events(command, outcome))
    }
}

/// The full set of in-memory collaborators, wired together: handy as the
/// starting state of a dispatcher.
pub struct InMemoryReferenceBundle {
    pub idempotency: InMemoryIdempotencyStore,
    pub events: InMemoryEventStore,
    pub sessions: InMemorySessionReader,
    pub projections: InMemoryProjectionWriter,
    pub invariants: NoopInvariantEngine,
    pub event_factory: SimpleEventFactory,
    pub uow: InMemoryUnitOfWork,
}

impl InMemoryReferenceBundle {
    /// A bundle of fresh, empty stores.
    pub fn new() -> (r: Self)
        ensures
            r.idempotency.wf(),
            r.sessions.wf(),
            r.idempotency.entries_map() =~= Map::<u128, IdempotencyEntry>::empty(),
            r.events.log() == Seq::<EventEnvelope>::empty(),
            r.sessions.status_map() =~= Map::<u128, SessionStatus>::empty(),
            r.projections.deltas() == Seq::<String>::empty(),
            r.projections.reviews() == Seq::<ReviewAction>::empty(),
            r.projections.triggers() == Seq::<ValidationTrigger>::empty(),
    {
        InMemoryReferenceBundle {
            idempotency: InMemoryIdempotencyStore::new(),
            events: InMemoryEventStore::new(),
            sessions: InMemorySessionReader::new(),
            projections: InMemoryProjectionWriter::new(),
            invariants: NoopInvariantEngine,
            event_factory: SimpleEventFactory,
            uow: InMemoryUnitOfWork,
        }
    }
}

} // verus!
