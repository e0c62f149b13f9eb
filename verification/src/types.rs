use vstd::prelude::*;

verus! {

/// Lifecycle status of a session aggregate. Exactly one current value per session.
#[derive(Clone, Copy, Debug, PartialEq, Eq, Structural)]
pub enum SessionStatus {
    Created,
    Processing,
    Review,
    Validated,
    Exported,
    Locked,
}

/// Origin of an assigned field value.
#[derive(Clone, Copy, Debug, PartialEq, Eq, Structural)]
pub enum SourceType {
    Manual,
    Anchor,
    Zone,
}

/// How a dictionary rule matches its input.
#[derive(Clone, Copy, Debug, PartialEq, Eq, Structural)]
pub enum MatchType {
    Exact,
    Regex,
}

/// Scope at which a dictionary rule applies.
#[derive(Clone, Copy, Debug, PartialEq, Eq, Structural)]
pub enum DictionaryScope {
    Global,
    FieldKey,
    Vendor,
    Name,
}

/// Output format of a session export.
#[derive(Clone, Copy, Debug, PartialEq, Eq, Structural)]
pub enum ExportFormat {
    CsvBundle,
    Xlsx,
    Json,
}

/// Which validation rules a validation run evaluates.
#[derive(Clone, Copy, Debug, PartialEq, Eq, Structural)]
pub enum ValidationRuleScope {
    All,
    ChangedOnly,
}

/// Closed set of command kinds; the type tag by which handlers and the
/// transition policy classify a command.
#[derive(Clone, Copy, Debug, PartialEq, Eq, Structural)]
pub enum CommandType {
    CreateSession,
    CreateCorrectionSession,
    LockSession,
    PinSession,
    ImportDocument,
    ConfirmDuplicate,
    ApplyPreprocessing,
    ReprocessDocument,
    RunExtraction,
    ReRunExtraction,
    AssignFieldValue,
    LockField,
    AddItemRow,
    DeleteItemRow,
    AssignItemValue,
    LockItemRow,
    AddExtraRow,
    AssignExtraValue,
    AddAnchorRule,
    DisableAnchorRule,
    AddDictionaryRule,
    DisableDictionaryRule,
    ResolveReviewTask,
    SkipReviewTask,
    BatchResolveField,
    RunValidation,
    OverrideValidation,
    ExportSession,
}

/// A proposed move of a session's lifecycle status.
#[derive(Clone, Copy, Debug, PartialEq, Eq, Structural)]
pub struct SessionStatusTransition {
    pub from: SessionStatus,
    pub to: SessionStatus,
}

/// The type tag of a domain event: either a plain acknowledgement that a
/// command of the given kind was processed, or one annotated with the status
/// the session transitioned to.
#[derive(Clone, Copy, Debug, PartialEq, Eq, Structural)]
pub enum EventKind {
    Processed(CommandType),
    Transitioned(CommandType, SessionStatus),
}

/// Structured payload of a domain event: the session it concerns, if any,
/// and the state-delta payload of the outcome that caused it.
#[derive(Debug)]
pub struct EventData {
    pub session_id: Option<u128>,
    pub delta: String,
}

impl Clone for EventData {
    fn clone(&self) -> (res: Self)
        ensures
            res == *self,
    {
        EventData { session_id: self.session_id, delta: self.delta.clone() }
    }
}

/// An immutable, append-only record of an effect, causally linked to the
/// command that produced it.
#[derive(Debug)]
pub struct EventEnvelope {
    pub event_id: u128,
    pub caused_by: u128,
    pub event_type: EventKind,
    pub timestamp: i64,
    pub data: EventData,
}

impl Clone for EventEnvelope {
    fn clone(&self) -> (res: Self)
        ensures
            res == *self,
    {
        EventEnvelope {
            event_id: self.event_id,
            caused_by: self.caused_by,
            event_type: self.event_type,
            timestamp: self.timestamp,
            data: self.data.clone(),
        }
    }
}

/// Mathematical value of a `DispatchResult`.
pub struct DispatchResultView {
    pub command_id: u128,
    pub event_ids: Seq<u128>,
    pub session_status: Option<SessionStatus>,
    pub idempotent_replay: bool,
}

impl DispatchResultView {
    /// The same result, seen as a replay of a stored one.
    pub open spec fn as_replay(self) -> DispatchResultView {
        DispatchResultView { idempotent_replay: true, ..self }
    }
}

/// The caller-visible outcome of a successful dispatch.
#[derive(Debug)]
pub struct DispatchResult {
    pub command_id: u128,
    pub event_ids: Vec<u128>,
    pub session_status: Option<SessionStatus>,
    pub idempotent_replay: bool,
}

impl View for DispatchResult {
    type V = DispatchResultView;

    open spec fn view(&self) -> DispatchResultView {
        DispatchResultView {
            command_id: self.command_id,
            event_ids: self.event_ids@,
            session_status: self.session_status,
            idempotent_replay: self.idempotent_replay,
        }
    }
}

impl Clone for DispatchResult {
    fn clone(&self) -> (res: Self)
        ensures
            res@ == self@,
    {
        DispatchResult {
            command_id: self.command_id,
            event_ids: self.event_ids.clone(),
            session_status: self.session_status,
            idempotent_replay: self.idempotent_replay,
        }
    }
}

} // verus!
