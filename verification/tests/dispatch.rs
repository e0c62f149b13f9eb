use tabulara_command_layer::command_router::CommandRouter;
use tabulara_command_layer::commands::{
    AnyCommand, AssignFieldValue, AssignFieldValuePayload, CreateSession, CreateSessionPayload,
    ExportSession, ExportSessionPayload, ImportDocument, ImportDocumentPayload, RunExtraction,
    RunExtractionPayload, RunValidation, RunValidationPayload,
};
use tabulara_command_layer::dispatcher_impl::DefaultCommandDispatcher;
use tabulara_command_layer::errors::{DomainError, DomainResult, ErrorCode};
use tabulara_command_layer::in_memory_reference_impl::{
    InMemoryEventStore, InMemoryIdempotencyStore, InMemoryProjectionWriter, InMemorySessionReader,
    InMemoryUnitOfWork, NoopInvariantEngine,
};
use tabulara_command_layer::interfaces::{
    CommandContext, CommandOutcome, EventFactory, GenericCommandHandler, StateDelta,
    ValidationTrigger,
};
use tabulara_command_layer::transition_policy::MatrixTransitionPolicy;
use tabulara_command_layer::types::{
    CommandType, EventEnvelope, EventKind, ExportFormat, SessionStatus, SessionStatusTransition,
    SourceType,
};

/// A handler configured per test: which type tag it accepts (or all), which
/// transition it proposes, and whether it fails outright.
#[derive(Debug)]
struct ScriptedHandler {
    only: Option<CommandType>,
    transition: Option<SessionStatusTransition>,
    fail_with: Option<ErrorCode>,
}

impl ScriptedHandler {
    fn accepting_all() -> Self {
        ScriptedHandler { only: None, transition: None, fail_with: None }
    }
}

impl GenericCommandHandler for ScriptedHandler {
    fn handles(&self, command_type: CommandType) -> bool {
        match self.only {
            None => true,
            Some(t) => t == command_type,
        }
    }

    fn can_handle(&self, command_type: CommandType) -> bool {
        match self.only {
            None => true,
            Some(t) => t == command_type,
        }
    }

    fn handle(
        &self,
        _ctx: &mut CommandContext,
        _cmd: &AnyCommand,
    ) -> DomainResult<CommandOutcome> {
        if let Some(code) = self.fail_with {
            return Err(DomainError {
                code,
                message: "scripted failure".to_string(),
                details: None,
            });
        }
        Ok(CommandOutcome {
            state_delta: StateDelta {
                summary: "scripted".to_string(),
                data: "delta-data".to_string(),
            },
            transition: self.transition,
            review_actions: vec![],
            validation_trigger: ValidationTrigger::NotRequired,
        })
    }
}

fn create_session_cmd(command_id: u128, actor: &str, source: &str) -> AnyCommand {
    AnyCommand::CreateSession(CreateSession {
        command_id,
        actor: actor.to_string(),
        timestamp: 1_700_000_000_000_000,
        payload: CreateSessionPayload { project_id: 10, schema_id: 20, source: source.to_string() },
    })
}

fn import_document_cmd(command_id: u128, session_id: u128) -> AnyCommand {
    AnyCommand::ImportDocument(ImportDocument {
        command_id,
        actor: "tester".to_string(),
        timestamp: 1_700_000_000_000_001,
        payload: ImportDocumentPayload { session_id, blob_ids: vec![1, 2], metadata: None },
    })
}

fn run_extraction_cmd(command_id: u128, session_id: u128) -> AnyCommand {
    AnyCommand::RunExtraction(RunExtraction {
        command_id,
        actor: "tester".to_string(),
        timestamp: 1_700_000_000_000_002,
        payload: RunExtractionPayload {
            session_id,
            engine: "default".to_string(),
            params: "{}".to_string(),
        },
    })
}

fn export_session_cmd(command_id: u128, session_id: u128) -> AnyCommand {
    AnyCommand::ExportSession(ExportSession {
        command_id,
        actor: "tester".to_string(),
        timestamp: 1_700_000_000_000_003,
        payload: ExportSessionPayload {
            session_id,
            format: ExportFormat::Json,
            include_in_vault: false,
            export_path: None,
        },
    })
}

fn assign_field_value_cmd(command_id: u128, session_id: u128) -> AnyCommand {
    AnyCommand::AssignFieldValue(AssignFieldValue {
        command_id,
        actor: "tester".to_string(),
        timestamp: 1_700_000_000_000_004,
        payload: AssignFieldValuePayload {
            session_id,
            document_id: 77,
            schema_field_id: 88,
            raw_value: "42".to_string(),
            normalized_value: Some("42".to_string()),
            source: SourceType::Manual,
            source_ref: "{}".to_string(),
        },
    })
}

fn run_validation_cmd(command_id: u128, session_id: u128) -> AnyCommand {
    AnyCommand::RunValidation(RunValidation {
        command_id,
        actor: "tester".to_string(),
        timestamp: 1_700_000_000_000_005,
        payload: RunValidationPayload {
            session_id,
            rule_scope: tabulara_command_layer::types::ValidationRuleScope::All,
        },
    })
}

#[test]
fn dispatch_twice_identical_replays_stored_result_and_adds_no_events() {
    let mut d = DefaultCommandDispatcher::in_memory(vec![ScriptedHandler::accepting_all()]);
    let first = d.dispatch(create_session_cmd(1, "alice", "upload")).unwrap();
    assert!(!first.idempotent_replay);
    assert_eq!(first.command_id, 1);
    assert_eq!(first.event_ids.len(), 1);
    assert_eq!(d.events.all_events().len(), 1);

    let second = d.dispatch(create_session_cmd(1, "alice", "upload")).unwrap();
    assert!(second.idempotent_replay);
    assert_eq!(second.command_id, first.command_id);
    assert_eq!(second.event_ids, first.event_ids);
    assert_eq!(second.session_status, first.session_status);
    assert_eq!(d.events.all_events().len(), 1);
}

#[test]
fn dispatch_same_id_different_payload_fails_with_idempotency_conflict() {
    let mut d = DefaultCommandDispatcher::in_memory(vec![ScriptedHandler::accepting_all()]);
    d.dispatch(create_session_cmd(1, "alice", "upload")).unwrap();
    let e = d.dispatch(create_session_cmd(1, "alice", "scanner")).unwrap_err();
    assert!(matches!(e.code, ErrorCode::IdempotencyConflict));
    assert_eq!(d.events.all_events().len(), 1);
}

#[test]
fn dispatch_after_failed_attempt_with_same_payload_is_a_conflict() {
    let mut d = DefaultCommandDispatcher::in_memory(vec![ScriptedHandler {
        only: None,
        transition: None,
        fail_with: Some(ErrorCode::PreconditionFailed),
    }]);
    let e = d.dispatch(create_session_cmd(5, "alice", "upload")).unwrap_err();
    assert!(matches!(e.code, ErrorCode::PreconditionFailed));
    assert_eq!(d.events.all_events().len(), 0);

    let e = d.dispatch(create_session_cmd(5, "alice", "upload")).unwrap_err();
    assert!(matches!(e.code, ErrorCode::IdempotencyConflict));
}

#[test]
fn handler_error_propagates_verbatim_and_leaves_no_effects() {
    let mut d = DefaultCommandDispatcher::in_memory(vec![ScriptedHandler {
        only: None,
        transition: None,
        fail_with: Some(ErrorCode::Internal),
    }]);
    d.sessions.set_status(9, SessionStatus::Created);
    let e = d.dispatch(import_document_cmd(2, 9)).unwrap_err();
    assert!(matches!(e.code, ErrorCode::Internal));
    assert_eq!(e.message, "scripted failure");
    assert_eq!(d.events.all_events().len(), 0);
    assert_eq!(d.sessions.get_status(9).unwrap(), SessionStatus::Created);
}

#[test]
fn unknown_session_fails_with_not_found() {
    let mut d = DefaultCommandDispatcher::in_memory(vec![ScriptedHandler::accepting_all()]);
    let e = d.dispatch(import_document_cmd(3, 12345)).unwrap_err();
    assert!(matches!(e.code, ErrorCode::NotFound));
    assert_eq!(d.events.all_events().len(), 0);
}

#[test]
fn missing_handler_fails_with_not_found() {
    let mut d = DefaultCommandDispatcher::in_memory(vec![ScriptedHandler {
        only: Some(CommandType::PinSession),
        transition: None,
        fail_with: None,
    }]);
    let e = d.dispatch(create_session_cmd(4, "alice", "upload")).unwrap_err();
    assert!(matches!(e.code, ErrorCode::NotFound));
}

#[test]
fn illegal_proposed_transition_fails_and_keeps_the_old_status() {
    let mut d = DefaultCommandDispatcher::in_memory(vec![ScriptedHandler {
        only: None,
        transition: Some(SessionStatusTransition {
            from: SessionStatus::Review,
            to: SessionStatus::Exported,
        }),
        fail_with: None,
    }]);
    d.sessions.set_status(7, SessionStatus::Review);
    let e = d.dispatch(run_validation_cmd(6, 7)).unwrap_err();
    assert!(matches!(e.code, ErrorCode::InvalidStateTransition));
    assert_eq!(d.sessions.get_status(7).unwrap(), SessionStatus::Review);
    assert_eq!(d.events.all_events().len(), 0);
}

/// An event factory that derives nothing, to exercise the dispatcher's
/// at-least-one-event guard.
struct EmptyEventFactory;

impl EventFactory for EmptyEventFactory {
    fn build_events(
        &self,
        _command: &AnyCommand,
        _outcome: &CommandOutcome,
    ) -> DomainResult<Vec<EventEnvelope>> {
        Ok(vec![])
    }
}

#[test]
fn outcome_with_no_derivable_event_fails_with_invariant_violation_and_no_effects() {
    let mut d = DefaultCommandDispatcher::new(
        vec![ScriptedHandler::accepting_all()],
        MatrixTransitionPolicy::new(),
        InMemoryIdempotencyStore::new(),
        InMemoryEventStore::new(),
        InMemorySessionReader::new(),
        InMemoryProjectionWriter::new(),
        NoopInvariantEngine,
        EmptyEventFactory,
        InMemoryUnitOfWork,
    );
    d.sessions.set_status(11, SessionStatus::Created);
    let e = d.dispatch(import_document_cmd(8, 11)).unwrap_err();
    assert!(matches!(e.code, ErrorCode::InvariantViolation));
    assert_eq!(d.events.all_events().len(), 0);
    assert_eq!(d.sessions.get_status(11).unwrap(), SessionStatus::Created);
}

/// An invariant engine that refuses every aggregate, to exercise the
/// all-or-nothing boundary.
struct RefusingInvariantEngine;

impl tabulara_command_layer::interfaces::InvariantEngine for RefusingInvariantEngine {
    fn assert_all(&self, _session_id: Option<u128>) -> DomainResult<()> {
        Err(DomainError {
            code: ErrorCode::InvariantViolation,
            message: "aggregate inconsistent".to_string(),
            details: None,
        })
    }
}

#[test]
fn invariant_engine_violation_aborts_the_dispatch_without_effects() {
    let mut d = DefaultCommandDispatcher::new(
        vec![ScriptedHandler::accepting_all()],
        MatrixTransitionPolicy::new(),
        InMemoryIdempotencyStore::new(),
        InMemoryEventStore::new(),
        InMemorySessionReader::new(),
        InMemoryProjectionWriter::new(),
        RefusingInvariantEngine,
        tabulara_command_layer::in_memory_reference_impl::SimpleEventFactory,
        InMemoryUnitOfWork,
    );
    d.sessions.set_status(21, SessionStatus::Created);
    let e = d.dispatch(import_document_cmd(9, 21)).unwrap_err();
    assert!(matches!(e.code, ErrorCode::InvariantViolation));
    assert_eq!(d.events.all_events().len(), 0);
    assert_eq!(d.sessions.get_status(21).unwrap(), SessionStatus::Created);
}

#[test]
fn create_then_import_succeeds_but_extraction_is_not_allowed_in_created() {
    let mut d = DefaultCommandDispatcher::in_memory(vec![ScriptedHandler::accepting_all()]);
    let sid: u128 = 42;

    let created = d.dispatch(create_session_cmd(100, "alice", "upload")).unwrap();
    assert!(!created.idempotent_replay);
    assert_eq!(created.session_status, None);
    // The create handler's state delta materializes the session record;
    // the kernel itself only sees its status afterwards.
    d.sessions.set_status(sid, SessionStatus::Created);

    let imported = d.dispatch(import_document_cmd(101, sid)).unwrap();
    assert_eq!(imported.session_status, Some(SessionStatus::Created));
    assert_eq!(d.sessions.get_status(sid).unwrap(), SessionStatus::Created);

    let e = d.dispatch(run_extraction_cmd(102, sid)).unwrap_err();
    assert!(matches!(e.code, ErrorCode::CommandNotAllowedInState));
    assert_eq!(d.events.all_events().len(), 2);
}

#[test]
fn export_from_validated_transitions_to_exported() {
    let mut d = DefaultCommandDispatcher::in_memory(vec![ScriptedHandler {
        only: Some(CommandType::ExportSession),
        transition: Some(SessionStatusTransition {
            from: SessionStatus::Validated,
            to: SessionStatus::Exported,
        }),
        fail_with: None,
    }]);
    let sid: u128 = 50;
    d.sessions.set_status(sid, SessionStatus::Validated);

    let res = d.dispatch(export_session_cmd(200, sid)).unwrap();
    assert_eq!(res.session_status, Some(SessionStatus::Exported));
    assert_eq!(d.sessions.get_status(sid).unwrap(), SessionStatus::Exported);

    let events = d.events.all_events();
    assert_eq!(events.len(), 1);
    assert_eq!(events[0].caused_by, 200);
    assert_eq!(
        events[0].event_type,
        EventKind::Transitioned(CommandType::ExportSession, SessionStatus::Exported)
    );
    assert_eq!(events[0].data.session_id, Some(sid));
    assert_eq!(events[0].data.delta, "delta-data");
    assert_eq!(res.event_ids, vec![events[0].event_id]);
}

#[test]
fn assign_field_value_on_exported_session_is_refused_by_the_allow_set() {
    let mut d = DefaultCommandDispatcher::in_memory(vec![ScriptedHandler::accepting_all()]);
    let sid: u128 = 60;
    d.sessions.set_status(sid, SessionStatus::Exported);

    let e = d.dispatch(assign_field_value_cmd(300, sid)).unwrap_err();
    assert!(
        matches!(e.code, ErrorCode::CommandNotAllowedInState),
        "the allow-set governs this case, not the locked-session guard"
    );
}

#[test]
fn assign_field_value_on_locked_session_is_refused_by_the_locked_guard() {
    let mut d = DefaultCommandDispatcher::in_memory(vec![ScriptedHandler::accepting_all()]);
    let sid: u128 = 61;
    d.sessions.set_status(sid, SessionStatus::Locked);

    let e = d.dispatch(assign_field_value_cmd(301, sid)).unwrap_err();
    assert!(matches!(e.code, ErrorCode::SessionLocked));
}

#[test]
fn event_for_plain_command_is_tagged_processed() {
    let mut d = DefaultCommandDispatcher::in_memory(vec![ScriptedHandler::accepting_all()]);
    let sid: u128 = 70;
    d.sessions.set_status(sid, SessionStatus::Created);
    let res = d.dispatch(import_document_cmd(400, sid)).unwrap();
    let events = d.events.all_events();
    assert_eq!(events.len(), 1);
    assert_eq!(
        events[0].event_type,
        EventKind::Processed(CommandType::ImportDocument)
    );
    assert_eq!(events[0].caused_by, 400);
    assert!(!res.idempotent_replay);
}

#[test]
fn router_resolves_the_first_capable_handler() {
    let mut router = CommandRouter::new();
    router.register(ScriptedHandler {
        only: Some(CommandType::PinSession),
        transition: None,
        fail_with: None,
    });
    router.register(ScriptedHandler::accepting_all());
    assert_eq!(router.handlers().len(), 2);

    let pin = AnyCommand::PinSession(tabulara_command_layer::commands::PinSession {
        command_id: 900,
        actor: "tester".to_string(),
        timestamp: 1,
        payload: tabulara_command_layer::commands::PinSessionPayload {
            session_id: 1,
            pinned: true,
        },
    });
    let h = router.resolve(&pin).unwrap();
    assert_eq!(h.only, Some(CommandType::PinSession));

    let h = router.resolve(&create_session_cmd(901, "alice", "upload")).unwrap();
    assert_eq!(h.only, None);
}

#[test]
fn router_with_no_capable_handler_fails_with_not_found() {
    let router = CommandRouter::with_handlers(vec![ScriptedHandler {
        only: Some(CommandType::PinSession),
        transition: None,
        fail_with: None,
    }]);
    let e = router.resolve(&create_session_cmd(902, "alice", "upload")).unwrap_err();
    assert!(matches!(e.code, ErrorCode::NotFound));
}

#[test]
fn fingerprint_distinguishes_list_and_optional_payload_fields() {
    let mut d = DefaultCommandDispatcher::in_memory(vec![ScriptedHandler::accepting_all()]);
    d.sessions.set_status(80, SessionStatus::Created);

    let base = |blob_ids: Vec<u128>, metadata: Option<String>| {
        AnyCommand::ImportDocument(ImportDocument {
            command_id: 500,
            actor: "tester".to_string(),
            timestamp: 1,
            payload: ImportDocumentPayload { session_id: 80, blob_ids, metadata },
        })
    };

    d.dispatch(base(vec![1, 2], None)).unwrap();
    // Same identifier with the list reordered: a different payload.
    let e = d.dispatch(base(vec![2, 1], None)).unwrap_err();
    assert!(matches!(e.code, ErrorCode::IdempotencyConflict));
    // Same identifier with metadata added: a different payload.
    let e = d.dispatch(base(vec![1, 2], Some("{}".to_string()))).unwrap_err();
    assert!(matches!(e.code, ErrorCode::IdempotencyConflict));
    // The unchanged payload still replays.
    let replay = d.dispatch(base(vec![1, 2], None)).unwrap();
    assert!(replay.idempotent_replay);
}
