use vstd::prelude::*;

use crate::clock::now_micros;
use crate::commands::{cmd_eq, spec_command_id, spec_command_type, spec_session_id, AnyCommand};
use crate::errors::{DomainError, DomainResult, ErrorCode, ErrorDetails};
use crate::in_memory_reference_impl::{
    InMemoryEventStore, InMemoryIdempotencyStore, InMemoryProjectionWriter, InMemorySessionReader,
    InMemoryUnitOfWork, NoopInvariantEngine, SimpleEventFactory,
};
use crate::interfaces::{
    CommandContext, EventFactory, GenericCommandHandler, IdempotencyState, InvariantEngine,
};
use crate::transition_policy::{spec_allowed_verdict, spec_is_legal_edge, MatrixTransitionPolicy};
use crate::types::{CommandType, DispatchResult, EventEnvelope, SessionStatus};

verus! {

/// The orchestrator of one request/response cycle: idempotency bookkeeping,
/// lifecycle pre-check, handler resolution and execution, transition
/// post-check, projection and event materialization, invariant check, and
/// result bookkeeping. Every check precedes every effect inside the unit of
/// work, so a failed dispatch leaves no visible change beyond its
/// idempotency entry.
pub struct DefaultCommandDispatcher<H: GenericCommandHandler, F: EventFactory, E: InvariantEngine> {
    pub handlers: Vec<H>,
    pub transitions: MatrixTransitionPolicy,
    pub idempotency: InMemoryIdempotencyStore,
    pub events: InMemoryEventStore,
    pub sessions: InMemorySessionReader,
    pub projections: InMemoryProjectionWriter,
    pub invariants: E,
    pub event_factory: F,
    pub uow: InMemoryUnitOfWork,
}

impl<H: GenericCommandHandler, F: EventFactory, E: InvariantEngine> DefaultCommandDispatcher<
    H,
    F,
    E,
> {
    /// Well-formedness of the backing stores.
    pub open spec fn wf(self) -> bool {
        &&& self.idempotency.wf()
        &&& self.sessions.wf()
    }

    /// The read-side and event-log state is exactly as in `pre`: no
    /// projection write, no status change, no event appended.
    pub open spec fn effects_unchanged(self, pre: Self) -> bool {
        &&& self.events.log() == pre.events.log()
        &&& self.sessions.status_map() == pre.sessions.status_map()
        &&& self.projections.deltas() == pre.projections.deltas()
        &&& self.projections.reviews() == pre.projections.reviews()
        &&& self.projections.triggers() == pre.projections.triggers()
    }

    /// No registered handler is capable of the type tag.
    pub open spec fn no_handler_for(self, command_type: CommandType) -> bool {
        forall|i: int|
            0 <= i < self.handlers@.len() ==> !(#[trigger] self.handlers@[i]).handles(command_type)
    }

    /// What `post` and a successful result `res` look like after the unit
    /// of work for `command` ran against the state of `pre`: the result is
    /// no replay and identifies the command; at least one event was built,
    /// and exactly those events were appended, in order, with their
    /// identifiers listed in the result; for a session-scoped command the
    /// pre-check passed and the session's new status is the result's, equal
    /// to the old one or one legal edge away; a session-less command
    /// changes no status; and the read side gained exactly one delta, one
    /// trigger, and the outcome's review actions.
    pub open spec fn accepted_effects(
        pre: Self,
        post: Self,
        command: AnyCommand,
        res: DispatchResult,
    ) -> bool {
        let id = spec_command_id(command);
        let ct = spec_command_type(command);
        let statuses = pre.sessions.status_map();
        let pre_log = pre.events.log();
        let post_log = post.events.log();
        &&& res.command_id == id
        &&& res.idempotent_replay == false
        &&& res.event_ids@.len() >= 1
        &&& post_log.len() == pre_log.len() + res.event_ids@.len()
        &&& (forall|j: int| 0 <= j < pre_log.len() ==> post_log[j] == pre_log[j])
        &&& (forall|j: int|
            0 <= j < res.event_ids@.len() ==> post_log[pre_log.len() + j].event_id
                == res.event_ids@[j])
        &&& (match spec_session_id(command) {
            Option::Some(sid) => {
                &&& statuses.dom().contains(sid)
                &&& spec_allowed_verdict(ct, statuses[sid]) is None
                &&& (res.session_status matches Option::Some(ns) && post.sessions.status_map()
                    =~= statuses.insert(sid, ns) && (ns == statuses[sid] || spec_is_legal_edge(
                    statuses[sid],
                    ns,
                )))
            },
            Option::None => post.sessions.status_map() == statuses,
        })
        &&& post.projections.deltas().len() == pre.projections.deltas().len() + 1
        &&& pre.projections.deltas().is_prefix_of(post.projections.deltas())
        &&& pre.projections.reviews().is_prefix_of(post.projections.reviews())
        &&& post.projections.triggers().len() == pre.projections.triggers().len() + 1
        &&& pre.projections.triggers().is_prefix_of(post.projections.triggers())
    }

    /// The failures the unit of work owes for `command` against the state
    /// of `pre`: an unknown session is `NotFound`; a session whose status
    /// refuses the command type fails with the pre-check's verdict; and
    /// when the checks up to that point pass but no handler is capable of
    /// the type tag, `NotFound`.
    pub open spec fn owed_failures(
        pre: Self,
        command: AnyCommand,
        r: DomainResult<DispatchResult>,
    ) -> bool {
        let ct = spec_command_type(command);
        let statuses = pre.sessions.status_map();
        match spec_session_id(command) {
            Option::Some(sid) => {
                &&& (!statuses.dom().contains(sid) ==> (r matches Err(e) && e.code is NotFound
                    && e.details == Option::Some(ErrorDetails::SessionId(sid))))
                &&& ((statuses.dom().contains(sid) && spec_allowed_verdict(ct, statuses[sid])
                    is Some) ==> (r matches Err(e) && Option::Some(e.code) == spec_allowed_verdict(
                    ct,
                    statuses[sid],
                )))
                &&& ((statuses.dom().contains(sid) && spec_allowed_verdict(ct, statuses[sid])
                    == Option::Some(ErrorCode::SessionLocked)) ==> (r matches Err(e) && e.details
                    == Option::Some(ErrorDetails::CommandType(ct))))
                &&& ((statuses.dom().contains(sid) && spec_allowed_verdict(ct, statuses[sid])
                    == Option::Some(ErrorCode::CommandNotAllowedInState)) ==> (r matches Err(e)
                    && e.details == Option::Some(ErrorDetails::CommandInStatus(
                    ct,
                    statuses[sid],
                ))))
                &&& ((statuses.dom().contains(sid) && spec_allowed_verdict(ct, statuses[sid])
                    is None && pre.no_handler_for(ct)) ==> (r matches Err(e) && e.code
                    is NotFound && e.details == Option::Some(ErrorDetails::CommandType(ct))))
            },
            Option::None => {
                pre.no_handler_for(ct) ==> (r matches Err(e) && e.code is NotFound && e.details
                    == Option::Some(ErrorDetails::CommandType(ct)))
            },
        }
    }

    /// A dispatcher over the given collaborators, starting from the given
    /// store states.
    pub fn new(
        handlers: Vec<H>,
        transitions: MatrixTransitionPolicy,
        idempotency: InMemoryIdempotencyStore,
        events: InMemoryEventStore,
        sessions: InMemorySessionReader,
        projections: InMemoryProjectionWriter,
        invariants: E,
        event_factory: F,
        uow: InMemoryUnitOfWork,
    ) -> (r: Self)
        requires
            idempotency.wf(),
            sessions.wf(),
        ensures
            r.wf(),
            r.handlers == handlers,
            r.idempotency == idempotency,
            r.events == events,
            r.sessions == sessions,
            r.projections == projections,
    {
        DefaultCommandDispatcher {
            handlers,
            transitions,
            idempotency,
            events,
            sessions,
            projections,
            invariants,
            event_factory,
            uow,
        }
    }

    /// The index of the first registered handler capable of the type tag.
    fn find_handler(&self, command_type: CommandType) -> (r: Option<usize>)
        ensures
            match r {
                Option::Some(i) => i < self.handlers@.len() && self.handlers@[i as int].handles(
                    command_type,
                ),
                Option::None => self.no_handler_for(command_type),
            },
    {
        let n = self.handlers.len();
        let mut i: usize = 0;
        while i < n
            invariant
                n == self.handlers@.len(),
                0 <= i <= n,
                forall|j: int|
                    0 <= j < i ==> !(#[trigger] self.handlers@[j]).handles(command_type),
            decreases n - i,
        {
            if self.handlers[i].can_handle(command_type) {
                return Option::Some(i);
            }
            i += 1;
        }
        Option::None
    }

    /// The unit-of-work body for a command that passed idempotency `begin`:
    /// status read and pre-check, handler resolution and execution,
    /// transition post-check, event derivation, invariant check, and only
    /// then the projection writes, status update and event append. Does not
    /// touch the idempotency store; on failure nothing is changed at all.
    fn execute_new(&mut self, command: &AnyCommand) -> (r: DomainResult<DispatchResult>)
        requires
            old(self).wf(),
        ensures
            final(self).wf(),
            final(self).idempotency == old(self).idempotency,
            final(self).handlers == old(self).handlers,
            r is Err ==> final(self).effects_unchanged(*old(self)),
            Self::owed_failures(*old(self), *command, r),
            (r matches Ok(res) ==> Self::accepted_effects(*old(self), *final(self), *command, res)),
    {
        let id = command.command_id();
        let ct = command.command_type();
        let session_id = command.session_id();

        let mut current_status: Option<SessionStatus> = Option::None;
        match session_id {
            Option::Some(sid) => {
                let status = match self.sessions.get_status(sid) {
                    Result::Ok(s) => s,
                    Result::Err(e) => {
                        return Result::Err(e);
                    },
                };
                match self.transitions.assert_allowed(ct, status) {
                    Result::Ok(_) => {},
                    Result::Err(e) => {
                        return Result::Err(e);
                    },
                }
                current_status = Option::Some(status);
            },
            Option::None => {},
        }

        let handler_idx = match self.find_handler(ct) {
            Option::Some(i) => i,
            Option::None => {
                return Result::Err(
                    DomainError {
                        code: ErrorCode::NotFound,
                        message: "No handler registered for command type".to_string(),
                        details: Option::Some(ErrorDetails::CommandType(ct)),
                    },
                );
            },
        };

        let mut ctx = CommandContext { now: now_micros(), actor: command.actor().to_string() };
        let outcome = match self.handlers[handler_idx].handle(&mut ctx, command) {
            Result::Ok(o) => o,
            Result::Err(e) => {
                return Result::Err(e);
            },
        };

        match (&current_status, &outcome.transition) {
            (Option::Some(from), Option::Some(transition)) => {
                match self.transitions.assert_transition(*from, transition.to) {
                    Result::Ok(_) => {},
                    Result::Err(e) => {
                        return Result::Err(e);
                    },
                }
            },
            _ => {},
        }

        let events = match self.event_factory.build_events(command, &outcome) {
            Result::Ok(v) => v,
            Result::Err(e) => {
                return Result::Err(e);
            },
        };
        if events.len() == 0 {
            return Result::Err(
                DomainError {
                    code: ErrorCode::InvariantViolation,
                    message: "Accepted command must emit at least one event".to_string(),
                    details: Option::Some(ErrorDetails::CommandType(ct)),
                },
            );
        }

        match self.invariants.assert_all(session_id) {
            Result::Ok(_) => {},
            Result::Err(e) => {
                return Result::Err(e);
            },
        }

        // Every check has passed: materialize the effects.
        let n = events.len();
        let mut event_ids: Vec<u128> = Vec::new();
        let mut i: usize = 0;
        while i < n
            invariant
                n == events@.len(),
                0 <= i <= n,
                event_ids@.len() == i,
                forall|j: int| 0 <= j < i ==> event_ids@[j] == events@[j].event_id,
            decreases n - i,
        {
            event_ids.push(events[i].event_id);
            i += 1;
        }

        self.projections.apply_state_delta(&outcome);
        self.projections.apply_review_actions(&outcome.review_actions);
        self.projections.apply_validation_trigger(&outcome.validation_trigger);

        let next: Option<SessionStatus> = match &outcome.transition {
            Option::Some(t) => Option::Some(t.to),
            Option::None => Option::None,
        };
        match (session_id, next) {
            (Option::Some(sid), Option::Some(ns)) => {
                self.sessions.update_session_status(sid, ns);
            },
            _ => {},
        }

        self.events.append(events);

        let session_status: Option<SessionStatus> = match next {
            Option::Some(s) => Option::Some(s),
            Option::None => current_status,
        };
        Result::Ok(
            DispatchResult { command_id: id, event_ids, session_status, idempotent_replay: false },
        )
    }

    /// One request/response cycle for one command. The contract states the
    /// idempotency protocol exactly: a committed entry under the same
    /// identifier and fingerprint replays the stored result, flagged as a
    /// replay, and changes nothing; any other existing entry is a conflict
    /// and changes nothing; a fresh identifier runs the unit of work, whose
    /// entry ends `Committed` holding the result exactly on success, and
    /// `Failed` holding the error exactly otherwise — and a failed dispatch
    /// leaves no other visible change.
    pub fn dispatch(&mut self, command: AnyCommand) -> (r: DomainResult<DispatchResult>)
        requires
            old(self).wf(),
        ensures
            final(self).wf(),
            final(self).handlers == old(self).handlers,
            ({
                let id = spec_command_id(command);
                let m = old(self).idempotency.entries_map();
                &&& (m.dom().contains(id) ==> ({
                    let entry = m[id];
                    &&& final(self).effects_unchanged(*old(self))
                    &&& final(self).idempotency == old(self).idempotency
                    &&& ((cmd_eq(entry.request_fingerprint, command) && entry.status is Committed)
                        ==> (r matches Ok(res) && res@ == entry.result->Some_0@.as_replay()))
                    &&& (!(cmd_eq(entry.request_fingerprint, command) && entry.status is Committed)
                        ==> (r matches Err(e) && e.code is IdempotencyConflict && e.details
                        == Option::Some(ErrorDetails::CommandId(id))))
                }))
                &&& (!m.dom().contains(id) ==> ({
                    &&& final(self).idempotency.entries_map().dom() =~= m.dom().insert(id)
                    &&& (forall|k: u128|
                        k != id && #[trigger] m.dom().contains(k)
                            ==> final(self).idempotency.entries_map()[k] == m[k])
                    &&& cmd_eq(
                        final(self).idempotency.entries_map()[id].request_fingerprint,
                        command,
                    )
                    &&& (r matches Ok(res) ==> ({
                        let entry = final(self).idempotency.entries_map()[id];
                        &&& entry.status is Committed
                        &&& (entry.result matches Option::Some(v) && v@ == res@)
                    }))
                    &&& (r matches Err(e) ==> ({
                        let entry = final(self).idempotency.entries_map()[id];
                        &&& entry.status is Failed
                        &&& entry.error == Option::Some(e)
                        &&& entry.result is None
                        &&& final(self).effects_unchanged(*old(self))
                    }))
                    &&& Self::owed_failures(*old(self), command, r)
                    &&& (r matches Ok(res) ==> Self::accepted_effects(
                        *old(self),
                        *final(self),
                        command,
                        res,
                    ))
                }))
            }),
    {
        let id = command.command_id();
        let ghost m0 = self.idempotency.entries_map();

        match self.idempotency.begin(&command) {
            IdempotencyState::Replay(existing) => {
                let mut replay = existing;
                replay.idempotent_replay = true;
                return Result::Ok(replay);
            },
            IdempotencyState::Conflict => {
                return Result::Err(
                    DomainError {
                        code: ErrorCode::IdempotencyConflict,
                        message: "Command ID already used with different payload".to_string(),
                        details: Option::Some(ErrorDetails::CommandId(id)),
                    },
                );
            },
            IdempotencyState::New => {},
        }

        let ghost m1 = self.idempotency.entries_map();
        let result = self.execute_new(&command);
        match result {
            Result::Ok(res) => {
                match self.idempotency.commit(id, &res) {
                    Result::Ok(_) => {},
                    Result::Err(commit_err) => {
                        // Unreachable: `begin` created the entry this
                        // dispatch commits.
                        proof {
                            assert(false);
                        }
                        return Result::Err(commit_err);
                    },
                }
                proof {
                    assert forall|k: u128|
                        k != id && m0.dom().contains(k) implies self.idempotency.entries_map()[k]
                        == m0[k] by {
                        assert(m1.dom().contains(k));
                        assert(m1[k] == m0[k]);
                        assert(self.idempotency.entries_map()[k] == m1[k]);
                    }
                }
                Result::Ok(res)
            },
            Result::Err(e) => {
                // Best-effort bookkeeping; the dispatch error is returned
                // regardless.
                let _ = self.idempotency.mark_failed(id, &e);
                proof {
                    assert forall|k: u128|
                        k != id && m0.dom().contains(k) implies self.idempotency.entries_map()[k]
                        == m0[k] by {
                        assert(m1.dom().contains(k));
                        assert(m1[k] == m0[k]);
                        assert(self.idempotency.entries_map()[k] == m1[k]);
                    }
                }
                Result::Err(e)
            },
        }
    }
}

impl<H: GenericCommandHandler> DefaultCommandDispatcher<
    H,
    SimpleEventFactory,
    NoopInvariantEngine,
> {
    /// A dispatcher over fresh in-memory stores, the matrix transition
    /// policy, the single-event factory and the accepting invariant engine.
    pub fn in_memory(handlers: Vec<H>) -> (r: Self)
        ensures
            r.wf(),
            r.handlers == handlers,
            r.idempotency.entries_map() =~= Map::<
                u128,
                crate::in_memory_reference_impl::IdempotencyEntry,
            >::empty(),
            r.events.log() == Seq::<EventEnvelope>::empty(),
            r.sessions.status_map() =~= Map::<u128, SessionStatus>::empty(),
            r.projections.deltas() == Seq::<String>::empty(),
            r.projections.reviews() == Seq::<crate::interfaces::ReviewAction>::empty(),
            r.projections.triggers() == Seq::<crate::interfaces::ValidationTrigger>::empty(),
    {
        DefaultCommandDispatcher {
            handlers,
            transitions: MatrixTransitionPolicy::new(),
            idempotency: InMemoryIdempotencyStore::new(),
            events: InMemoryEventStore::new(),
            sessions: InMemorySessionReader::new(),
            projections: InMemoryProjectionWriter::new(),
            invariants: NoopInvariantEngine,
            event_factory: SimpleEventFactory,
            uow: InMemoryUnitOfWork,
        }
    }
}

} // verus!
