use tabulara_command_layer::errors::ErrorCode;
use tabulara_command_layer::transition_policy::{
    is_mutating_session_command, MatrixTransitionPolicy,
};
use tabulara_command_layer::types::{CommandType, SessionStatus};

#[test]
fn allow_matrix_accepts_listed_pairs() {
    let policy = MatrixTransitionPolicy::new();
    assert!(policy.assert_allowed(CommandType::ImportDocument, SessionStatus::Created).is_ok());
    assert!(policy.assert_allowed(CommandType::PinSession, SessionStatus::Created).is_ok());
    assert!(policy.assert_allowed(CommandType::RunExtraction, SessionStatus::Processing).is_ok());
    assert!(policy.assert_allowed(CommandType::RunExtraction, SessionStatus::Review).is_ok());
    assert!(policy.assert_allowed(CommandType::ExportSession, SessionStatus::Validated).is_ok());
    assert!(policy
        .assert_allowed(CommandType::CreateCorrectionSession, SessionStatus::Exported)
        .is_ok());
    assert!(policy.assert_allowed(CommandType::LockSession, SessionStatus::Exported).is_ok());
}

#[test]
fn allow_matrix_rejects_missing_pairs_with_command_not_allowed() {
    let policy = MatrixTransitionPolicy::new();
    let e = policy
        .assert_allowed(CommandType::RunExtraction, SessionStatus::Created)
        .unwrap_err();
    assert!(matches!(e.code, ErrorCode::CommandNotAllowedInState));
    let e = policy
        .assert_allowed(CommandType::ExportSession, SessionStatus::Review)
        .unwrap_err();
    assert!(matches!(e.code, ErrorCode::CommandNotAllowedInState));
    let e = policy
        .assert_allowed(CommandType::SkipReviewTask, SessionStatus::Processing)
        .unwrap_err();
    assert!(matches!(e.code, ErrorCode::CommandNotAllowedInState));
}

#[test]
fn locked_session_rejects_every_mutating_command_with_session_locked() {
    let policy = MatrixTransitionPolicy::new();
    let mutating = [
        CommandType::CreateSession,
        CommandType::LockSession,
        CommandType::ImportDocument,
        CommandType::ConfirmDuplicate,
        CommandType::ApplyPreprocessing,
        CommandType::ReprocessDocument,
        CommandType::RunExtraction,
        CommandType::ReRunExtraction,
        CommandType::AssignFieldValue,
        CommandType::LockField,
        CommandType::AddItemRow,
        CommandType::DeleteItemRow,
        CommandType::AssignItemValue,
        CommandType::LockItemRow,
        CommandType::AddExtraRow,
        CommandType::AssignExtraValue,
        CommandType::ResolveReviewTask,
        CommandType::SkipReviewTask,
        CommandType::BatchResolveField,
        CommandType::RunValidation,
        CommandType::OverrideValidation,
        CommandType::ExportSession,
    ];
    for ct in mutating {
        assert!(is_mutating_session_command(ct));
        let e = policy.assert_allowed(ct, SessionStatus::Locked).unwrap_err();
        assert!(matches!(e.code, ErrorCode::SessionLocked), "{:?}", ct);
    }
}

#[test]
fn locked_session_still_accepts_exempt_commands() {
    let policy = MatrixTransitionPolicy::new();
    let exempt = [
        CommandType::PinSession,
        CommandType::CreateCorrectionSession,
        CommandType::AddAnchorRule,
        CommandType::DisableAnchorRule,
        CommandType::AddDictionaryRule,
        CommandType::DisableDictionaryRule,
    ];
    for ct in exempt {
        assert!(!is_mutating_session_command(ct));
        assert!(policy.assert_allowed(ct, SessionStatus::Locked).is_ok(), "{:?}", ct);
    }
}

#[test]
fn legal_edges_succeed_and_identity_is_always_legal() {
    let policy = MatrixTransitionPolicy::new();
    let edges = [
        (SessionStatus::Created, SessionStatus::Processing),
        (SessionStatus::Processing, SessionStatus::Review),
        (SessionStatus::Review, SessionStatus::Processing),
        (SessionStatus::Review, SessionStatus::Validated),
        (SessionStatus::Validated, SessionStatus::Review),
        (SessionStatus::Validated, SessionStatus::Exported),
        (SessionStatus::Exported, SessionStatus::Locked),
    ];
    for (from, to) in edges {
        assert!(policy.assert_transition(from, to).is_ok());
    }
    let all = [
        SessionStatus::Created,
        SessionStatus::Processing,
        SessionStatus::Review,
        SessionStatus::Validated,
        SessionStatus::Exported,
        SessionStatus::Locked,
    ];
    for s in all {
        assert!(policy.assert_transition(s, s).is_ok());
    }
}

#[test]
fn pairs_outside_the_edge_set_fail_with_invalid_state_transition() {
    let policy = MatrixTransitionPolicy::new();
    let all = [
        SessionStatus::Created,
        SessionStatus::Processing,
        SessionStatus::Review,
        SessionStatus::Validated,
        SessionStatus::Exported,
        SessionStatus::Locked,
    ];
    let edges = [
        (SessionStatus::Created, SessionStatus::Processing),
        (SessionStatus::Processing, SessionStatus::Review),
        (SessionStatus::Review, SessionStatus::Processing),
        (SessionStatus::Review, SessionStatus::Validated),
        (SessionStatus::Validated, SessionStatus::Review),
        (SessionStatus::Validated, SessionStatus::Exported),
        (SessionStatus::Exported, SessionStatus::Locked),
    ];
    for from in all {
        for to in all {
            if from == to || edges.contains(&(from, to)) {
                continue;
            }
            let e = policy.assert_transition(from, to).unwrap_err();
            assert!(
                matches!(e.code, ErrorCode::InvalidStateTransition),
                "{:?} -> {:?}",
                from,
                to
            );
        }
    }
}

#[test]
fn no_edge_leads_out_of_locked() {
    let policy = MatrixTransitionPolicy::new();
    let others = [
        SessionStatus::Created,
        SessionStatus::Processing,
        SessionStatus::Review,
        SessionStatus::Validated,
        SessionStatus::Exported,
    ];
    for to in others {
        assert!(policy.assert_transition(SessionStatus::Locked, to).is_err());
    }
}
