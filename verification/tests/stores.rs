use tabulara_command_layer::commands::{
    command_eq, AnyCommand, PinSession, PinSessionPayload,
};
use tabulara_command_layer::errors::ErrorCode;
use tabulara_command_layer::in_memory_reference_impl::{
    InMemoryEventStore, InMemoryIdempotencyStore, InMemorySessionReader,
};
use tabulara_command_layer::interfaces::IdempotencyState;
use tabulara_command_layer::types::{
    CommandType, DispatchResult, EventData, EventEnvelope, EventKind, SessionStatus,
};
use tabulara_command_layer::umap::UidMap;

fn pin_cmd(command_id: u128, session_id: u128, pinned: bool) -> AnyCommand {
    AnyCommand::PinSession(PinSession {
        command_id,
        actor: "tester".to_string(),
        timestamp: 1,
        payload: PinSessionPayload { session_id, pinned },
    })
}

#[test]
fn uid_map_insert_get_and_remove() {
    let mut m: UidMap<u64> = UidMap::new();
    assert!(!m.contains_key(1));
    m.insert(1, 10);
    m.insert(2, 20);
    assert!(m.contains_key(1));
    assert_eq!(m.get(1), Some(&10));
    assert_eq!(m.get(2), Some(&20));
    assert_eq!(m.get(3), None);
    m.insert(1, 11);
    assert_eq!(m.get(1), Some(&11));
    assert_eq!(m.remove(1), Some(11));
    assert_eq!(m.get(1), None);
    assert_eq!(m.remove(1), None);
    assert_eq!(m.get(2), Some(&20));
}

#[test]
fn command_eq_compares_payload_content() {
    let a = pin_cmd(1, 2, true);
    let b = pin_cmd(1, 2, true);
    let c = pin_cmd(1, 2, false);
    let d = pin_cmd(1, 3, true);
    assert!(command_eq(&a, &b));
    assert!(!command_eq(&a, &c));
    assert!(!command_eq(&a, &d));
}

#[test]
fn session_reader_reports_unknown_sessions_as_not_found() {
    let mut r = InMemorySessionReader::new();
    let e = r.get_status(5).unwrap_err();
    assert!(matches!(e.code, ErrorCode::NotFound));
    r.set_status(5, SessionStatus::Review);
    assert_eq!(r.get_status(5).unwrap(), SessionStatus::Review);
    r.set_status(5, SessionStatus::Validated);
    assert_eq!(r.get_status(5).unwrap(), SessionStatus::Validated);
}

#[test]
fn event_store_appends_in_order() {
    let mut store = InMemoryEventStore::new();
    assert!(store.all_events().is_empty());
    let ev = |n: u128| EventEnvelope {
        event_id: n,
        caused_by: 1,
        event_type: EventKind::Processed(CommandType::PinSession),
        timestamp: n as i64,
        data: EventData { session_id: Some(2), delta: "{}".to_string() },
    };
    store.append(vec![ev(10), ev(11)]);
    store.append(vec![ev(12)]);
    let ids: Vec<u128> = store.all_events().iter().map(|e| e.event_id).collect();
    assert_eq!(ids, vec![10, 11, 12]);
}

#[test]
fn idempotency_store_replays_only_committed_matching_entries() {
    let mut s = InMemoryIdempotencyStore::new();
    let cmd = pin_cmd(9, 1, true);

    // Fresh identifier: a new entry.
    assert!(matches!(s.begin(&cmd), IdempotencyState::New));
    // Same identifier, same payload, but still in progress: a conflict.
    assert!(matches!(s.begin(&cmd), IdempotencyState::Conflict));
    // Different payload under the same identifier: a conflict.
    assert!(matches!(s.begin(&pin_cmd(9, 1, false)), IdempotencyState::Conflict));

    // Commit requires an existing entry.
    let result = DispatchResult {
        command_id: 9,
        event_ids: vec![77],
        session_status: Some(SessionStatus::Created),
        idempotent_replay: false,
    };
    let e = s.commit(12345, &result).unwrap_err();
    assert!(matches!(e.code, ErrorCode::NotFound));
    s.commit(9, &result).unwrap();

    // Committed entry with the matching payload replays the stored result.
    match s.begin(&cmd) {
        IdempotencyState::Replay(stored) => {
            assert_eq!(stored.command_id, 9);
            assert_eq!(stored.event_ids, vec![77]);
            assert_eq!(stored.session_status, Some(SessionStatus::Created));
        }
        other => panic!("expected a replay, got {:?}", other),
    }
    // Committed entry with a different payload is still a conflict.
    assert!(matches!(s.begin(&pin_cmd(9, 1, false)), IdempotencyState::Conflict));
}
