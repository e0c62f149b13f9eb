use vstd::prelude::*;

use crate::errors::{DomainError, DomainResult, ErrorCode, ErrorDetails};
use crate::types::{CommandType, SessionStatus};

verus! {

/// The per-status allow-sets. They are product policy, reproduced verbatim:
/// a command type may run in a status exactly when this matrix says so.
pub open spec fn spec_allowed_in(command_type: CommandType, status: SessionStatus) -> bool {
    match status {
        SessionStatus::Created => match command_type {
            CommandType::ImportDocument
            | CommandType::PinSession
            | CommandType::AddAnchorRule
            | CommandType::DisableAnchorRule
            | CommandType::AddDictionaryRule
            | CommandType::DisableDictionaryRule => true,
            _ => false,
        },
        SessionStatus::Processing => match command_type {
            CommandType::PinSession
            | CommandType::ImportDocument
            | CommandType::ConfirmDuplicate
            | CommandType::ApplyPreprocessing
            | CommandType::ReprocessDocument
            | CommandType::RunExtraction
            | CommandType::ReRunExtraction
            | CommandType::AssignFieldValue
            | CommandType::LockField
            | CommandType::AddItemRow
            | CommandType::DeleteItemRow
            | CommandType::AssignItemValue
            | CommandType::LockItemRow
            | CommandType::AddExtraRow
            | CommandType::AssignExtraValue
            | CommandType::ResolveReviewTask
            | CommandType::RunValidation
            | CommandType::AddAnchorRule
            | CommandType::DisableAnchorRule
            | CommandType::AddDictionaryRule
            | CommandType::DisableDictionaryRule => true,
            _ => false,
        },
        SessionStatus::Review => match command_type {
            CommandType::PinSession
            | CommandType::ImportDocument
            | CommandType::ConfirmDuplicate
            | CommandType::ApplyPreprocessing
            | CommandType::ReprocessDocument
            | CommandType::RunExtraction
            | CommandType::ReRunExtraction
            | CommandType::AssignFieldValue
            | CommandType::LockField
            | CommandType::AddItemRow
            | CommandType::DeleteItemRow
            | CommandType::AssignItemValue
            | CommandType::LockItemRow
            | CommandType::AddExtraRow
            | CommandType::AssignExtraValue
            | CommandType::ResolveReviewTask
            | CommandType::SkipReviewTask
            | CommandType::BatchResolveField
            | CommandType::RunValidation
            | CommandType::OverrideValidation
            | CommandType::AddAnchorRule
            | CommandType::DisableAnchorRule
            | CommandType::AddDictionaryRule
            | CommandType::DisableDictionaryRule => true,
            _ => false,
        },
        SessionStatus::Validated => match command_type {
            CommandType::PinSession
            | CommandType::ConfirmDuplicate
            | CommandType::AssignFieldValue
            | CommandType::AddItemRow
            | CommandType::DeleteItemRow
            | CommandType::AssignItemValue
            | CommandType::AddExtraRow
            | CommandType::AssignExtraValue
            | CommandType::ResolveReviewTask
            | CommandType::RunValidation
            | CommandType::OverrideValidation
            | CommandType::ExportSession
            | CommandType::AddAnchorRule
            | CommandType::DisableAnchorRule
            | CommandType::AddDictionaryRule
            | CommandType::DisableDictionaryRule => true,
            _ => false,
        },
        SessionStatus::Exported => match command_type {
            CommandType::PinSession
            | CommandType::CreateCorrectionSession
            | CommandType::LockSession
            | CommandType::AddAnchorRule
            | CommandType::DisableAnchorRule
            | CommandType::AddDictionaryRule
            | CommandType::DisableDictionaryRule => true,
            _ => false,
        },
        SessionStatus::Locked => match command_type {
            CommandType::PinSession
            | CommandType::CreateCorrectionSession
            | CommandType::AddAnchorRule
            | CommandType::DisableAnchorRule
            | CommandType::AddDictionaryRule
            | CommandType::DisableDictionaryRule => true,
            _ => false,
        },
    }
}

/// A command type is mutating unless it is in the fixed exemption list that
/// may still run against a locked session.
pub open spec fn spec_is_mutating(command_type: CommandType) -> bool {
    match command_type {
        CommandType::PinSession
        | CommandType::CreateCorrectionSession
        | CommandType::AddAnchorRule
        | CommandType::DisableAnchorRule
        | CommandType::AddDictionaryRule
        | CommandType::DisableDictionaryRule => false,
        _ => true,
    }
}

/// The fixed set of legal lifecycle moves, identity moves aside.
pub open spec fn spec_is_legal_edge(from: SessionStatus, to: SessionStatus) -> bool {
    ||| (from is Created && to is Processing)
    ||| (from is Processing && to is Review)
    ||| (from is Review && to is Processing)
    ||| (from is Review && to is Validated)
    ||| (from is Validated && to is Review)
    ||| (from is Validated && to is Exported)
    ||| (from is Exported && to is Locked)
}

/// What the pre-check decides: `None` when the command may run, otherwise
/// the error code it is refused with. The locked-session guard takes
/// precedence over the allow-matrix.
pub open spec fn spec_allowed_verdict(
    command_type: CommandType,
    status: SessionStatus,
) -> Option<ErrorCode> {
    if status is Locked && spec_is_mutating(command_type) {
        Option::Some(ErrorCode::SessionLocked)
    } else if spec_allowed_in(command_type, status) {
        Option::None
    } else {
        Option::Some(ErrorCode::CommandNotAllowedInState)
    }
}

/// What the post-check decides: `None` when the proposed move is legal.
/// Identity transitions are always legal; there is no edge out of `Locked`.
pub open spec fn spec_transition_verdict(
    from: SessionStatus,
    to: SessionStatus,
) -> Option<ErrorCode> {
    if from == to {
        Option::None
    } else if spec_is_legal_edge(from, to) {
        Option::None
    } else {
        Option::Some(ErrorCode::InvalidStateTransition)
    }
}

/// Decides whether a command type is mutating, i.e. outside the fixed
/// exemption list that may still run against a locked session.
pub fn is_mutating_session_command(command_type: CommandType) -> (r: bool)
    ensures
        r == spec_is_mutating(command_type),
{
    match command_type {
        CommandType::PinSession
        | CommandType::CreateCorrectionSession
        | CommandType::AddAnchorRule
        | CommandType::DisableAnchorRule
        | CommandType::AddDictionaryRule
        | CommandType::DisableDictionaryRule => false,
        _ => true,
    }
}

/// The state machine over session lifecycle statuses: a fixed allow-matrix
/// of command types per status and a fixed set of legal status moves.
pub struct MatrixTransitionPolicy {
    _private: (),
}

impl MatrixTransitionPolicy {
    /// Builds the policy; the matrix itself is fixed data, stated by
    /// `spec_allowed_in` and `spec_is_legal_edge`.
    pub fn new() -> (r: Self) {
        MatrixTransitionPolicy { _private: () }
    }

    /// Decides the allow-matrix.
    pub fn allowed_in(&self, command_type: CommandType, status: SessionStatus) -> (r: bool)
        ensures
            r == spec_allowed_in(command_type, status),
    {
        match status {
            SessionStatus::Created => matches!(
                command_type,
                CommandType::ImportDocument
                | CommandType::PinSession
                | CommandType::AddAnchorRule
                | CommandType::DisableAnchorRule
                | CommandType::AddDictionaryRule
                | CommandType::DisableDictionaryRule
            ),
            SessionStatus::Processing => matches!(
                command_type,
                CommandType::PinSession
                | CommandType::ImportDocument
                | CommandType::ConfirmDuplicate
                | CommandType::ApplyPreprocessing
                | CommandType::ReprocessDocument
                | CommandType::RunExtraction
                | CommandType::ReRunExtraction
                | CommandType::AssignFieldValue
                | CommandType::LockField
                | CommandType::AddItemRow
                | CommandType::DeleteItemRow
                | CommandType::AssignItemValue
                | CommandType::LockItemRow
                | CommandType::AddExtraRow
                | CommandType::AssignExtraValue
                | CommandType::ResolveReviewTask
                | CommandType::RunValidation
                | CommandType::AddAnchorRule
                | CommandType::DisableAnchorRule
                | CommandType::AddDictionaryRule
                | CommandType::DisableDictionaryRule
            ),
            SessionStatus::Review => matches!(
                command_type,
                CommandType::PinSession
                | CommandType::ImportDocument
                | CommandType::ConfirmDuplicate
                | CommandType::ApplyPreprocessing
                | CommandType::ReprocessDocument
                | CommandType::RunExtraction
                | CommandType::ReRunExtraction
                | CommandType::AssignFieldValue
                | CommandType::LockField
                | CommandType::AddItemRow
                | CommandType::DeleteItemRow
                | CommandType::AssignItemValue
                | CommandType::LockItemRow
                | CommandType::AddExtraRow
                | CommandType::AssignExtraValue
                | CommandType::ResolveReviewTask
                | CommandType::SkipReviewTask
                | CommandType::BatchResolveField
                | CommandType::RunValidation
                | CommandType::OverrideValidation
                | CommandType::AddAnchorRule
                | CommandType::DisableAnchorRule
                | CommandType::AddDictionaryRule
                | CommandType::DisableDictionaryRule
            ),
            SessionStatus::Validated => matches!(
                command_type,
                CommandType::PinSession
                | CommandType::ConfirmDuplicate
                | CommandType::AssignFieldValue
                | CommandType::AddItemRow
                | CommandType::DeleteItemRow
                | CommandType::AssignItemValue
                | CommandType::AddExtraRow
                | CommandType::AssignExtraValue
                | CommandType::ResolveReviewTask
                | CommandType::RunValidation
                | CommandType::OverrideValidation
                | CommandType::ExportSession
                | CommandType::AddAnchorRule
                | CommandType::DisableAnchorRule
                | CommandType::AddDictionaryRule
                | CommandType::DisableDictionaryRule
            ),
            SessionStatus::Exported => matches!(
                command_type,
                CommandType::PinSession
                | CommandType::CreateCorrectionSession
                | CommandType::LockSession
                | CommandType::AddAnchorRule
                | CommandType::DisableAnchorRule
                | CommandType::AddDictionaryRule
                | CommandType::DisableDictionaryRule
            ),
            SessionStatus::Locked => matches!(
                command_type,
                CommandType::PinSession
                | CommandType::CreateCorrectionSession
                | CommandType::AddAnchorRule
                | CommandType::DisableAnchorRule
                | CommandType::AddDictionaryRule
                | CommandType::DisableDictionaryRule
            ),
        }
    }

    /// Pre-check: whether a command of the given type may run while the
    /// session is in the given status. Succeeds exactly when the verdict is
    /// `None`; otherwise reports the verdict's code with the offending
    /// command type (and status) as detail.
    pub fn assert_allowed(&self, command_type: CommandType, status: SessionStatus) -> (r:
        DomainResult<()>)
        ensures
            r is Ok <==> spec_allowed_verdict(command_type, status) is None,
            r matches Err(e) ==> Option::Some(e.code) == spec_allowed_verdict(
                command_type,
                status,
            ),
            r matches Err(e) ==> (e.code is SessionLocked ==> e.details == Option::Some(
                ErrorDetails::CommandType(command_type),
            )),
            r matches Err(e) ==> (e.code is CommandNotAllowedInState ==> e.details
                == Option::Some(ErrorDetails::CommandInStatus(command_type, status))),
    {
        if status_is_locked(status) && is_mutating_session_command(command_type) {
            return Result::Err(
                DomainError {
                    code: ErrorCode::SessionLocked,
                    message: "Mutating command denied for locked session".to_string(),
                    details: Option::Some(ErrorDetails::CommandType(command_type)),
                },
            );
        }
        if self.allowed_in(command_type, status) {
            Result::Ok(())
        } else {
            Result::Err(
                DomainError {
                    code: ErrorCode::CommandNotAllowedInState,
                    message: "Command not allowed in current session state".to_string(),
                    details: Option::Some(ErrorDetails::CommandInStatus(command_type, status)),
                },
            )
        }
    }

    /// Post-check: whether a proposed status move is legal. Identity moves
    /// always succeed; otherwise the pair must be one of the fixed legal
    /// edges.
    pub fn assert_transition(&self, from: SessionStatus, to: SessionStatus) -> (r: DomainResult<
        (),
    >)
        ensures
            r is Ok <==> spec_transition_verdict(from, to) is None,
            r matches Err(e) ==> e.code is InvalidStateTransition && e.details == Option::Some(
                ErrorDetails::Transition(from, to),
            ),
    {
        if from == to {
            return Result::Ok(());
        }
        let legal = match (from, to) {
            (SessionStatus::Created, SessionStatus::Processing) => true,
            (SessionStatus::Processing, SessionStatus::Review) => true,
            (SessionStatus::Review, SessionStatus::Processing) => true,
            (SessionStatus::Review, SessionStatus::Validated) => true,
            (SessionStatus::Validated, SessionStatus::Review) => true,
            (SessionStatus::Validated, SessionStatus::Exported) => true,
            (SessionStatus::Exported, SessionStatus::Locked) => true,
            _ => false,
        };
        if legal {
            Result::Ok(())
        } else {
            Result::Err(
                DomainError {
                    code: ErrorCode::InvalidStateTransition,
                    message: "Illegal session status transition".to_string(),
                    details: Option::Some(ErrorDetails::Transition(from, to)),
                },
            )
        }
    }
}

impl Default for MatrixTransitionPolicy {
    fn default() -> Self {
        Self::new()
    }
}

/// Decides whether a status is `Locked`.
pub fn status_is_locked(status: SessionStatus) -> (r: bool)
    ensures
        r == (status is Locked),
{
    match status {
        SessionStatus::Locked => true,
        _ => false,
    }
}

/// Law: outside the locked-session guard, the allow-matrix alone decides
/// the pre-check: a pair in the matrix succeeds, a pair outside it is
/// refused with `CommandNotAllowedInState`.
pub proof fn lemma_allow_matrix_governs(command_type: CommandType, status: SessionStatus)
    ensures
        !(status is Locked && spec_is_mutating(command_type)) ==> spec_allowed_verdict(
            command_type,
            status,
        ) == (if spec_allowed_in(command_type, status) {
            Option::<ErrorCode>::None
        } else {
            Option::Some(ErrorCode::CommandNotAllowedInState)
        }),
{
}

/// Law: against a locked session, every mutating command type is refused
/// with `SessionLocked`, whatever the allow-matrix says of it.
pub proof fn lemma_locked_rejects_mutating(command_type: CommandType)
    ensures
        spec_is_mutating(command_type) ==> spec_allowed_verdict(command_type, SessionStatus::Locked)
            == Option::Some(ErrorCode::SessionLocked),
{
}

/// Law: an identity transition is always legal.
pub proof fn lemma_identity_transition_legal(status: SessionStatus)
    ensures
        spec_transition_verdict(status, status) is None,
{
}

/// Law: there is no legal edge out of `Locked`.
pub proof fn lemma_no_edge_out_of_locked(to: SessionStatus)
    ensures
        !(to is Locked) ==> spec_transition_verdict(SessionStatus::Locked, to) == Option::Some(
            ErrorCode::InvalidStateTransition,
        ),
{
}

} // verus!
