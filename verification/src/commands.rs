use vstd::prelude::*;

use crate::types::{
    CommandType, DictionaryScope, ExportFormat, MatchType, SourceType, ValidationRuleScope,
};

verus! {

/// Uniform descriptor every command exposes: identifier, type tag, actor,
/// timestamp, and the owning session, if any.
pub trait CommandDto {
    fn command_id(&self) -> u128;
    fn command_type(&self) -> CommandType;
    fn actor(&self) -> &str;
    fn timestamp(&self) -> i64;
    fn session_id(&self) -> Option<u128>;
}

/// Generic wire envelope of a command: identity and audit fields around a
/// kind-specific payload.
#[derive(Debug)]
pub struct CommandEnvelope<TPayload> {
    pub command_id: u128,
    pub command_type: CommandType,
    pub actor: String,
    pub timestamp: i64,
    pub payload: TPayload,
}

/// Equality of two optional strings by their character content.
pub open spec fn opt_str_eq(a: Option<String>, b: Option<String>) -> bool {
    match a {
        Option::None => b is None,
        Option::Some(x) => match b {
            Option::None => false,
            Option::Some(y) => x@ == y@,
        },
    }
}

/// Decides `opt_str_eq` on two optional strings.
pub fn opt_str_equal(a: &Option<String>, b: &Option<String>) -> (r: bool)
    ensures
        r == opt_str_eq(*a, *b),
{
    match a {
        Option::None => b.is_none(),
        Option::Some(x) => match b {
            Option::None => false,
            Option::Some(y) => *x == *y,
        },
    }
}

/// Clones an optional string, preserving its value exactly.
pub fn clone_opt_string(a: &Option<String>) -> (r: Option<String>)
    ensures
        r == *a,
{
    match a {
        Option::None => Option::None,
        Option::Some(x) => Option::Some(x.clone()),
    }
}

/// Decides equality of two identifier lists.
pub fn ids_equal(a: &Vec<u128>, b: &Vec<u128>) -> (r: bool)
    ensures
        r == (a@ == b@),
{
    if a.len() != b.len() {
        assert(a@ != b@) by {
            assert(a@.len() != b@.len());
        }
        return false;
    }
    let n = a.len();
    let mut i: usize = 0;
    while i < n
        invariant
            n == a@.len() && n == b@.len(),
            0 <= i <= n,
            forall|j: int| 0 <= j < i ==> a@[j] == b@[j],
        decreases n - i,
    {
        if a[i] != b[i] {
            return false;
        }
        i += 1;
    }
    proof {
        assert(a@ =~= b@);
    }
    true
}

/// Clones an identifier list, preserving its contents exactly.
pub fn clone_ids(a: &Vec<u128>) -> (r: Vec<u128>)
    ensures
        r@ == a@,
{
    let r = a.clone();
    proof {
        assert(r@ =~= a@);
    }
    r
}

#[derive(Debug)]
pub struct CreateSession {
    pub command_id: u128,
    pub actor: String,
    pub timestamp: i64,
    pub payload: CreateSessionPayload,
}

#[derive(Debug)]
pub struct CreateSessionPayload {
    pub project_id: u128,
    pub schema_id: u128,
    pub source: String,
}

impl Clone for CreateSessionPayload {
    fn clone(&self) -> (res: Self)
        ensures
            res == *self,
    {
        CreateSessionPayload {
            project_id: self.project_id,
            schema_id: self.schema_id,
            source: self.source.clone(),
        }
    }
}

impl Clone for CreateSession {
    fn clone(&self) -> (res: Self)
        ensures
            res == *self,
    {
        CreateSession {
            command_id: self.command_id,
            actor: self.actor.clone(),
            timestamp: self.timestamp,
            payload: self.payload.clone(),
        }
    }
}

impl CommandDto for CreateSession {
    fn command_id(&self) -> u128 {
        self.command_id
    }

    fn command_type(&self) -> CommandType {
        CommandType::CreateSession
    }

    fn actor(&self) -> &str {
        self.actor.as_str()
    }

    fn timestamp(&self) -> i64 {
        self.timestamp
    }

    fn session_id(&self) -> Option<u128> {
        Option::None
    }
}

#[derive(Debug)]
pub struct CreateCorrectionSession {
    pub command_id: u128,
    pub actor: String,
    pub timestamp: i64,
    pub payload: CreateCorrectionSessionPayload,
}

#[derive(Debug)]
pub struct CreateCorrectionSessionPayload {
    pub project_id: u128,
    pub schema_id: u128,
    pub base_session_id: u128,
}

impl Clone for CreateCorrectionSessionPayload {
    fn clone(&self) -> (res: Self)
        ensures
            res == *self,
    {
        CreateCorrectionSessionPayload {
            project_id: self.project_id,
            schema_id: self.schema_id,
            base_session_id: self.base_session_id,
        }
    }
}

impl Clone for CreateCorrectionSession {
    fn clone(&self) -> (res: Self)
        ensures
            res == *self,
    {
        CreateCorrectionSession {
            command_id: self.command_id,
            actor: self.actor.clone(),
            timestamp: self.timestamp,
            payload: self.payload.clone(),
        }
    }
}

impl CommandDto for CreateCorrectionSession {
    fn command_id(&self) -> u128 {
        self.command_id
    }

    fn command_type(&self) -> CommandType {
        CommandType::CreateCorrectionSession
    }

    fn actor(&self) -> &str {
        self.actor.as_str()
    }

    fn timestamp(&self) -> i64 {
        self.timestamp
    }

    fn session_id(&self) -> Option<u128> {
        Option::None
    }
}

#[derive(Debug)]
pub struct LockSession {
    pub command_id: u128,
    pub actor: String,
    pub timestamp: i64,
    pub payload: LockSessionPayload,
}

#[derive(Debug)]
pub struct LockSessionPayload {
    pub session_id: u128,
    pub reason: Option<String>,
}

impl Clone for LockSessionPayload {
    fn clone(&self) -> (res: Self)
        ensures
            res == *self,
    {
        LockSessionPayload {
            session_id: self.session_id,
            reason: clone_opt_string(&self.reason),
        }
    }
}

impl Clone for LockSession {
    fn clone(&self) -> (res: Self)
        ensures
            res == *self,
    {
        LockSession {
            command_id: self.command_id,
            actor: self.actor.clone(),
            timestamp: self.timestamp,
            payload: self.payload.clone(),
        }
    }
}

impl CommandDto for LockSession {
    fn command_id(&self) -> u128 {
        self.command_id
    }

    fn command_type(&self) -> CommandType {
        CommandType::LockSession
    }

    fn actor(&self) -> &str {
        self.actor.as_str()
    }

    fn timestamp(&self) -> i64 {
        self.timestamp
    }

    fn session_id(&self) -> Option<u128> {
        Option::Some(self.payload.session_id)
    }
}

#[derive(Debug)]
pub struct PinSession {
    pub command_id: u128,
    pub actor: String,
    pub timestamp: i64,
    pub payload: PinSessionPayload,
}

#[derive(Debug)]
pub struct PinSessionPayload {
    pub session_id: u128,
    pub pinned: bool,
}

impl Clone for PinSessionPayload {
    fn clone(&self) -> (res: Self)
        ensures
            res == *self,
    {
        PinSessionPayload {
            session_id: self.session_id,
            pinned: self.pinned,
        }
    }
}

impl Clone for PinSession {
    fn clone(&self) -> (res: Self)
        ensures
            res == *self,
    {
        PinSession {
            command_id: self.command_id,
            actor: self.actor.clone(),
            timestamp: self.timestamp,
            payload: self.payload.clone(),
        }
    }
}

impl CommandDto for PinSession {
    fn command_id(&self) -> u128 {
        self.command_id
    }

    fn command_type(&self) -> CommandType {
        CommandType::PinSession
    }

    fn actor(&self) -> &str {
        self.actor.as_str()
    }

    fn timestamp(&self) -> i64 {
        self.timestamp
    }

    fn session_id(&self) -> Option<u128> {
        Option::Some(self.payload.session_id)
    }
}

#[derive(Debug)]
pub struct ImportDocument {
    pub command_id: u128,
    pub actor: String,
    pub timestamp: i64,
    pub payload: ImportDocumentPayload,
}

#[derive(Debug)]
pub struct ImportDocumentPayload {
    pub session_id: u128,
    pub blob_ids: Vec<u128>,
    pub metadata: Option<String>,
}

impl Clone for ImportDocumentPayload {
    fn clone(&self) -> (res: Self)
        ensures
            res.session_id == self.session_id,
            res.blob_ids@ == self.blob_ids@,
            opt_str_eq(res.metadata, self.metadata),
    {
        ImportDocumentPayload {
            session_id: self.session_id,
            blob_ids: clone_ids(&self.blob_ids),
            metadata: clone_opt_string(&self.metadata),
        }
    }
}

impl Clone for ImportDocument {
    fn clone(&self) -> (res: Self)
        ensures
            res.command_id == self.command_id,
            res.actor == self.actor,
            res.timestamp == self.timestamp,
            res.payload.session_id == self.payload.session_id,
            res.payload.blob_ids@ == self.payload.blob_ids@,
            opt_str_eq(res.payload.metadata, self.payload.metadata),
    {
        ImportDocument {
            command_id: self.command_id,
            actor: self.actor.clone(),
            timestamp: self.timestamp,
            payload: self.payload.clone(),
        }
    }
}

impl CommandDto for ImportDocument {
    fn command_id(&self) -> u128 {
        self.command_id
    }

    fn command_type(&self) -> CommandType {
        CommandType::ImportDocument
    }

    fn actor(&self) -> &str {
        self.actor.as_str()
    }

    fn timestamp(&self) -> i64 {
        self.timestamp
    }

    fn session_id(&self) -> Option<u128> {
        Option::Some(self.payload.session_id)
    }
}

#[derive(Debug)]
pub struct ConfirmDuplicate {
    pub command_id: u128,
    pub actor: String,
    pub timestamp: i64,
    pub payload: ConfirmDuplicatePayload,
}

#[derive(Debug)]
pub struct ConfirmDuplicatePayload {
    pub session_id: u128,
    pub document_id: u128,
    pub duplicate_of_document_id: u128,
}

impl Clone for ConfirmDuplicatePayload {
    fn clone(&self) -> (res: Self)
        ensures
            res == *self,
    {
        ConfirmDuplicatePayload {
            session_id: self.session_id,
            document_id: self.document_id,
            duplicate_of_document_id: self.duplicate_of_document_id,
        }
    }
}

impl Clone for ConfirmDuplicate {
    fn clone(&self) -> (res: Self)
        ensures
            res == *self,
    {
        ConfirmDuplicate {
            command_id: self.command_id,
            actor: self.actor.clone(),
            timestamp: self.timestamp,
            payload: self.payload.clone(),
        }
    }
}

impl CommandDto for ConfirmDuplicate {
    fn command_id(&self) -> u128 {
        self.command_id
    }

    fn command_type(&self) -> CommandType {
        CommandType::ConfirmDuplicate
    }

    fn actor(&self) -> &str {
        self.actor.as_str()
    }

    fn timestamp(&self) -> i64 {
        self.timestamp
    }

    fn session_id(&self) -> Option<u128> {
        Option::Some(self.payload.session_id)
    }
}

#[derive(Debug)]
pub struct ApplyPreprocessing {
    pub command_id: u128,
    pub actor: String,
    pub timestamp: i64,
    pub payload: ApplyPreprocessingPayload,
}

#[derive(Debug)]
pub struct ApplyPreprocessingPayload {
    pub session_id: u128,
    pub page_id: u128,
    pub params: String,
}

impl Clone for ApplyPreprocessingPayload {
    fn clone(&self) -> (res: Self)
        ensures
            res == *self,
    {
        ApplyPreprocessingPayload {
            session_id: self.session_id,
            page_id: self.page_id,
            params: self.params.clone(),
        }
    }
}

impl Clone for ApplyPreprocessing {
    fn clone(&self) -> (res: Self)
        ensures
            res == *self,
    {
        ApplyPreprocessing {
            command_id: self.command_id,
            actor: self.actor.clone(),
            timestamp: self.timestamp,
            payload: self.payload.clone(),
        }
    }
}

impl CommandDto for ApplyPreprocessing {
    fn command_id(&self) -> u128 {
        self.command_id
    }

    fn command_type(&self) -> CommandType {
        CommandType::ApplyPreprocessing
    }

    fn actor(&self) -> &str {
        self.actor.as_str()
    }

    fn timestamp(&self) -> i64 {
        self.timestamp
    }

    fn session_id(&self) -> Option<u128> {
        Option::Some(self.payload.session_id)
    }
}

#[derive(Debug)]
pub struct ReprocessDocument {
    pub command_id: u128,
    pub actor: String,
    pub timestamp: i64,
    pub payload: ReprocessDocumentPayload,
}

#[derive(Debug)]
pub struct ReprocessDocumentPayload {
    pub session_id: u128,
    pub document_id: u128,
    pub params: String,
}

impl Clone for ReprocessDocumentPayload {
    fn clone(&self) -> (res: Self)
        ensures
            res == *self,
    {
        ReprocessDocumentPayload {
            session_id: self.session_id,
            document_id: self.document_id,
            params: self.params.clone(),
        }
    }
}

impl Clone for ReprocessDocument {
    fn clone(&self) -> (res: Self)
        ensures
            res == *self,
    {
        ReprocessDocument {
            command_id: self.command_id,
            actor: self.actor.clone(),
            timestamp: self.timestamp,
            payload: self.payload.clone(),
        }
    }
}

impl CommandDto for ReprocessDocument {
    fn command_id(&self) -> u128 {
        self.command_id
    }

    fn command_type(&self) -> CommandType {
        CommandType::ReprocessDocument
    }

    fn actor(&self) -> &str {
        self.actor.as_str()
    }

    fn timestamp(&self) -> i64 {
        self.timestamp
    }

    fn session_id(&self) -> Option<u128> {
        Option::Some(self.payload.session_id)
    }
}

#[derive(Debug)]
pub struct RunExtraction {
    pub command_id: u128,
    pub actor: String,
    pub timestamp: i64,
    pub payload: RunExtractionPayload,
}

#[derive(Debug)]
pub struct RunExtractionPayload {
    pub session_id: u128,
    pub engine: String,
    pub params: String,
}

impl Clone for RunExtractionPayload {
    fn clone(&self) -> (res: Self)
        ensures
            res == *self,
    {
        RunExtractionPayload {
            session_id: self.session_id,
            engine: self.engine.clone(),
            params: self.params.clone(),
        }
    }
}

impl Clone for RunExtraction {
    fn clone(&self) -> (res: Self)
        ensures
            res == *self,
    {
        RunExtraction {
            command_id: self.command_id,
            actor: self.actor.clone(),
            timestamp: self.timestamp,
            payload: self.payload.clone(),
        }
    }
}

impl CommandDto for RunExtraction {
    fn command_id(&self) -> u128 {
        self.command_id
    }

    fn command_type(&self) -> CommandType {
        CommandType::RunExtraction
    }

    fn actor(&self) -> &str {
        self.actor.as_str()
    }

    fn timestamp(&self) -> i64 {
        self.timestamp
    }

    fn session_id(&self) -> Option<u128> {
        Option::Some(self.payload.session_id)
    }
}

#[derive(Debug)]
pub struct ReRunExtraction {
    pub command_id: u128,
    pub actor: String,
    pub timestamp: i64,
    pub payload: ReRunExtractionPayload,
}

#[derive(Debug)]
pub struct ReRunExtractionPayload {
    pub session_id: u128,
    pub scope: String,
    pub target_id: u128,
    pub params: String,
}

impl Clone for ReRunExtractionPayload {
    fn clone(&self) -> (res: Self)
        ensures
            res == *self,
    {
        ReRunExtractionPayload {
            session_id: self.session_id,
            scope: self.scope.clone(),
            target_id: self.target_id,
            params: self.params.clone(),
        }
    }
}

impl Clone for ReRunExtraction {
    fn clone(&self) -> (res: Self)
        ensures
            res == *self,
    {
        ReRunExtraction {
            command_id: self.command_id,
            actor: self.actor.clone(),
            timestamp: self.timestamp,
            payload: self.payload.clone(),
        }
    }
}

impl CommandDto for ReRunExtraction {
    fn command_id(&self) -> u128 {
        self.command_id
    }

    fn command_type(&self) -> CommandType {
        CommandType::ReRunExtraction
    }

    fn actor(&self) -> &str {
        self.actor.as_str()
    }

    fn timestamp(&self) -> i64 {
        self.timestamp
    }

    fn session_id(&self) -> Option<u128> {
        Option::Some(self.payload.session_id)
    }
}

#[derive(Debug)]
pub struct AssignFieldValue {
    pub command_id: u128,
    pub actor: String,
    pub timestamp: i64,
    pub payload: AssignFieldValuePayload,
}

#[derive(Debug)]
pub struct AssignFieldValuePayload {
    pub session_id: u128,
    pub document_id: u128,
    pub schema_field_id: u128,
    pub raw_value: String,
    pub normalized_value: Option<String>,
    pub source: SourceType,
    pub source_ref: String,
}

impl Clone for AssignFieldValuePayload {
    fn clone(&self) -> (res: Self)
        ensures
            res == *self,
    {
        AssignFieldValuePayload {
            session_id: self.session_id,
            document_id: self.document_id,
            schema_field_id: self.schema_field_id,
            raw_value: self.raw_value.clone(),
            normalized_value: clone_opt_string(&self.normalized_value),
            source: self.source,
            source_ref: self.source_ref.clone(),
        }
    }
}

impl Clone for AssignFieldValue {
    fn clone(&self) -> (res: Self)
        ensures
            res == *self,
    {
        AssignFieldValue {
            command_id: self.command_id,
            actor: self.actor.clone(),
            timestamp: self.timestamp,
            payload: self.payload.clone(),
        }
    }
}

impl CommandDto for AssignFieldValue {
    fn command_id(&self) -> u128 {
        self.command_id
    }

    fn command_type(&self) -> CommandType {
        CommandType::AssignFieldValue
    }

    fn actor(&self) -> &str {
        self.actor.as_str()
    }

    fn timestamp(&self) -> i64 {
        self.timestamp
    }

    fn session_id(&self) -> Option<u128> {
        Option::Some(self.payload.session_id)
    }
}

#[derive(Debug)]
pub struct LockField {
    pub command_id: u128,
    pub actor: String,
    pub timestamp: i64,
    pub payload: LockFieldPayload,
}

#[derive(Debug)]
pub struct LockFieldPayload {
    pub session_id: u128,
    pub field_value_id: u128,
    pub locked: bool,
}

impl Clone for LockFieldPayload {
    fn clone(&self) -> (res: Self)
        ensures
            res == *self,
    {
        LockFieldPayload {
            session_id: self.session_id,
            field_value_id: self.field_value_id,
            locked: self.locked,
        }
    }
}

impl Clone for LockField {
    fn clone(&self) -> (res: Self)
        ensures
            res == *self,
    {
        LockField {
            command_id: self.command_id,
            actor: self.actor.clone(),
            timestamp: self.timestamp,
            payload: self.payload.clone(),
        }
    }
}

impl CommandDto for LockField {
    fn command_id(&self) -> u128 {
        self.command_id
    }

    fn command_type(&self) -> CommandType {
        CommandType::LockField
    }

    fn actor(&self) -> &str {
        self.actor.as_str()
    }

    fn timestamp(&self) -> i64 {
        self.timestamp
    }

    fn session_id(&self) -> Option<u128> {
        Option::Some(self.payload.session_id)
    }
}

#[derive(Debug)]
pub struct AddItemRow {
    pub command_id: u128,
    pub actor: String,
    pub timestamp: i64,
    pub payload: AddItemRowPayload,
}

#[derive(Debug)]
pub struct AddItemRowPayload {
    pub session_id: u128,
    pub document_id: u128,
    pub row_index: i32,
}

impl Clone for AddItemRowPayload {
    fn clone(&self) -> (res: Self)
        ensures
            res == *self,
    {
        AddItemRowPayload {
            session_id: self.session_id,
            document_id: self.document_id,
            row_index: self.row_index,
        }
    }
}

impl Clone for AddItemRow {
    fn clone(&self) -> (res: Self)
        ensures
            res == *self,
    {
        AddItemRow {
            command_id: self.command_id,
            actor: self.actor.clone(),
            timestamp: self.timestamp,
            payload: self.payload.clone(),
        }
    }
}

impl CommandDto for AddItemRow {
    fn command_id(&self) -> u128 {
        self.command_id
    }

    fn command_type(&self) -> CommandType {
        CommandType::AddItemRow
    }

    fn actor(&self) -> &str {
        self.actor.as_str()
    }

    fn timestamp(&self) -> i64 {
        self.timestamp
    }

    fn session_id(&self) -> Option<u128> {
        Option::Some(self.payload.session_id)
    }
}

#[derive(Debug)]
pub struct DeleteItemRow {
    pub command_id: u128,
    pub actor: String,
    pub timestamp: i64,
    pub payload: DeleteItemRowPayload,
}

#[derive(Debug)]
pub struct DeleteItemRowPayload {
    pub session_id: u128,
    pub item_id: u128,
}

impl Clone for DeleteItemRowPayload {
    fn clone(&self) -> (res: Self)
        ensures
            res == *self,
    {
        DeleteItemRowPayload {
            session_id: self.session_id,
            item_id: self.item_id,
        }
    }
}

impl Clone for DeleteItemRow {
    fn clone(&self) -> (res: Self)
        ensures
            res == *self,
    {
        DeleteItemRow {
            command_id: self.command_id,
            actor: self.actor.clone(),
            timestamp: self.timestamp,
            payload: self.payload.clone(),
        }
    }
}

impl CommandDto for DeleteItemRow {
    fn command_id(&self) -> u128 {
        self.command_id
    }

    fn command_type(&self) -> CommandType {
        CommandType::DeleteItemRow
    }

    fn actor(&self) -> &str {
        self.actor.as_str()
    }

    fn timestamp(&self) -> i64 {
        self.timestamp
    }

    fn session_id(&self) -> Option<u128> {
        Option::Some(self.payload.session_id)
    }
}

#[derive(Debug)]
pub struct AssignItemValue {
    pub command_id: u128,
    pub actor: String,
    pub timestamp: i64,
    pub payload: AssignItemValuePayload,
}

#[derive(Debug)]
pub struct AssignItemValuePayload {
    pub session_id: u128,
    pub item_id: u128,
    pub schema_field_id: u128,
    pub raw_value: String,
    pub normalized_value: Option<String>,
    pub source: SourceType,
    pub source_ref: String,
}

impl Clone for AssignItemValuePayload {
    fn clone(&self) -> (res: Self)
        ensures
            res == *self,
    {
        AssignItemValuePayload {
            session_id: self.session_id,
            item_id: self.item_id,
            schema_field_id: self.schema_field_id,
            raw_value: self.raw_value.clone(),
            normalized_value: clone_opt_string(&self.normalized_value),
            source: self.source,
            source_ref: self.source_ref.clone(),
        }
    }
}

impl Clone for AssignItemValue {
    fn clone(&self) -> (res: Self)
        ensures
            res == *self,
    {
        AssignItemValue {
            command_id: self.command_id,
            actor: self.actor.clone(),
            timestamp: self.timestamp,
            payload: self.payload.clone(),
        }
    }
}

impl CommandDto for AssignItemValue {
    fn command_id(&self) -> u128 {
        self.command_id
    }

    fn command_type(&self) -> CommandType {
        CommandType::AssignItemValue
    }

    fn actor(&self) -> &str {
        self.actor.as_str()
    }

    fn timestamp(&self) -> i64 {
        self.timestamp
    }

    fn session_id(&self) -> Option<u128> {
        Option::Some(self.payload.session_id)
    }
}

#[derive(Debug)]
pub struct LockItemRow {
    pub command_id: u128,
    pub actor: String,
    pub timestamp: i64,
    pub payload: LockItemRowPayload,
}

#[derive(Debug)]
pub struct LockItemRowPayload {
    pub session_id: u128,
    pub item_id: u128,
    pub locked: bool,
}

impl Clone for LockItemRowPayload {
    fn clone(&self) -> (res: Self)
        ensures
            res == *self,
    {
        LockItemRowPayload {
            session_id: self.session_id,
            item_id: self.item_id,
            locked: self.locked,
        }
    }
}

impl Clone for LockItemRow {
    fn clone(&self) -> (res: Self)
        ensures
            res == *self,
    {
        LockItemRow {
            command_id: self.command_id,
            actor: self.actor.clone(),
            timestamp: self.timestamp,
            payload: self.payload.clone(),
        }
    }
}

impl CommandDto for LockItemRow {
    fn command_id(&self) -> u128 {
        self.command_id
    }

    fn command_type(&self) -> CommandType {
        CommandType::LockItemRow
    }

    fn actor(&self) -> &str {
        self.actor.as_str()
    }

    fn timestamp(&self) -> i64 {
        self.timestamp
    }

    fn session_id(&self) -> Option<u128> {
        Option::Some(self.payload.session_id)
    }
}

#[derive(Debug)]
pub struct AddExtraRow {
    pub command_id: u128,
    pub actor: String,
    pub timestamp: i64,
    pub payload: AddExtraRowPayload,
}

#[derive(Debug)]
pub struct AddExtraRowPayload {
    pub session_id: u128,
    pub document_id: u128,
    pub table_name: String,
    pub row_index: i32,
}

impl Clone for AddExtraRowPayload {
    fn clone(&self) -> (res: Self)
        ensures
            res == *self,
    {
        AddExtraRowPayload {
            session_id: self.session_id,
            document_id: self.document_id,
            table_name: self.table_name.clone(),
            row_index: self.row_index,
        }
    }
}

impl Clone for AddExtraRow {
    fn clone(&self) -> (res: Self)
        ensures
            res == *self,
    {
        AddExtraRow {
            command_id: self.command_id,
            actor: self.actor.clone(),
            timestamp: self.timestamp,
            payload: self.payload.clone(),
        }
    }
}

impl CommandDto for AddExtraRow {
    fn command_id(&self) -> u128 {
        self.command_id
    }

    fn command_type(&self) -> CommandType {
        CommandType::AddExtraRow
    }

    fn actor(&self) -> &str {
        self.actor.as_str()
    }

    fn timestamp(&self) -> i64 {
        self.timestamp
    }

    fn session_id(&self) -> Option<u128> {
        Option::Some(self.payload.session_id)
    }
}

#[derive(Debug)]
pub struct AssignExtraValue {
    pub command_id: u128,
    pub actor: String,
    pub timestamp: i64,
    pub payload: AssignExtraValuePayload,
}

#[derive(Debug)]
pub struct AssignExtraValuePayload {
    pub session_id: u128,
    pub extra_row_id: u128,
    pub schema_field_id: u128,
    pub raw_value: String,
    pub normalized_value: Option<String>,
    pub source: SourceType,
    pub source_ref: String,
}

impl Clone for AssignExtraValuePayload {
    fn clone(&self) -> (res: Self)
        ensures
            res == *self,
    {
        AssignExtraValuePayload {
            session_id: self.session_id,
            extra_row_id: self.extra_row_id,
            schema_field_id: self.schema_field_id,
            raw_value: self.raw_value.clone(),
            normalized_value: clone_opt_string(&self.normalized_value),
            source: self.source,
            source_ref: self.source_ref.clone(),
        }
    }
}

impl Clone for AssignExtraValue {
    fn clone(&self) -> (res: Self)
        ensures
            res == *self,
    {
        AssignExtraValue {
            command_id: self.command_id,
            actor: self.actor.clone(),
            timestamp: self.timestamp,
            payload: self.payload.clone(),
        }
    }
}

impl CommandDto for AssignExtraValue {
    fn command_id(&self) -> u128 {
        self.command_id
    }

    fn command_type(&self) -> CommandType {
        CommandType::AssignExtraValue
    }

    fn actor(&self) -> &str {
        self.actor.as_str()
    }

    fn timestamp(&self) -> i64 {
        self.timestamp
    }

    fn session_id(&self) -> Option<u128> {
        Option::Some(self.payload.session_id)
    }
}

#[derive(Debug)]
pub struct AddAnchorRule {
    pub command_id: u128,
    pub actor: String,
    pub timestamp: i64,
    pub payload: AddAnchorRulePayload,
}

#[derive(Debug)]
pub struct AddAnchorRulePayload {
    pub project_id: u128,
    pub schema_field_id: u128,
    pub rule_json: String,
}

impl Clone for AddAnchorRulePayload {
    fn clone(&self) -> (res: Self)
        ensures
            res == *self,
    {
        AddAnchorRulePayload {
            project_id: self.project_id,
            schema_field_id: self.schema_field_id,
            rule_json: self.rule_json.clone(),
        }
    }
}

impl Clone for AddAnchorRule {
    fn clone(&self) -> (res: Self)
        ensures
            res == *self,
    {
        AddAnchorRule {
            command_id: self.command_id,
            actor: self.actor.clone(),
            timestamp: self.timestamp,
            payload: self.payload.clone(),
        }
    }
}

impl CommandDto for AddAnchorRule {
    fn command_id(&self) -> u128 {
        self.command_id
    }

    fn command_type(&self) -> CommandType {
        CommandType::AddAnchorRule
    }

    fn actor(&self) -> &str {
        self.actor.as_str()
    }

    fn timestamp(&self) -> i64 {
        self.timestamp
    }

    fn session_id(&self) -> Option<u128> {
        Option::None
    }
}

#[derive(Debug)]
pub struct DisableAnchorRule {
    pub command_id: u128,
    pub actor: String,
    pub timestamp: i64,
    pub payload: DisableAnchorRulePayload,
}

#[derive(Debug)]
pub struct DisableAnchorRulePayload {
    pub project_id: u128,
    pub anchor_id: u128,
    pub enabled: bool,
}

impl Clone for DisableAnchorRulePayload {
    fn clone(&self) -> (res: Self)
        ensures
            res == *self,
    {
        DisableAnchorRulePayload {
            project_id: self.project_id,
            anchor_id: self.anchor_id,
            enabled: self.enabled,
        }
    }
}

impl Clone for DisableAnchorRule {
    fn clone(&self) -> (res: Self)
        ensures
            res == *self,
    {
        DisableAnchorRule {
            command_id: self.command_id,
            actor: self.actor.clone(),
            timestamp: self.timestamp,
            payload: self.payload.clone(),
        }
    }
}

impl CommandDto for DisableAnchorRule {
    fn command_id(&self) -> u128 {
        self.command_id
    }

    fn command_type(&self) -> CommandType {
        CommandType::DisableAnchorRule
    }

    fn actor(&self) -> &str {
        self.actor.as_str()
    }

    fn timestamp(&self) -> i64 {
        self.timestamp
    }

    fn session_id(&self) -> Option<u128> {
        Option::None
    }
}

#[derive(Debug)]
pub struct AddDictionaryRule {
    pub command_id: u128,
    pub actor: String,
    pub timestamp: i64,
    pub payload: AddDictionaryRulePayload,
}

#[derive(Debug)]
pub struct AddDictionaryRulePayload {
    pub project_id: u128,
    pub scope: DictionaryScope,
    pub match_type: MatchType,
    pub match_value: String,
    pub replace_value: String,
}

impl Clone for AddDictionaryRulePayload {
    fn clone(&self) -> (res: Self)
        ensures
            res == *self,
    {
        AddDictionaryRulePayload {
            project_id: self.project_id,
            scope: self.scope,
            match_type: self.match_type,
            match_value: self.match_value.clone(),
            replace_value: self.replace_value.clone(),
        }
    }
}

impl Clone for AddDictionaryRule {
    fn clone(&self) -> (res: Self)
        ensures
            res == *self,
    {
        AddDictionaryRule {
            command_id: self.command_id,
            actor: self.actor.clone(),
            timestamp: self.timestamp,
            payload: self.payload.clone(),
        }
    }
}

impl CommandDto for AddDictionaryRule {
    fn command_id(&self) -> u128 {
        self.command_id
    }

    fn command_type(&self) -> CommandType {
        CommandType::AddDictionaryRule
    }

    fn actor(&self) -> &str {
        self.actor.as_str()
    }

    fn timestamp(&self) -> i64 {
        self.timestamp
    }

    fn session_id(&self) -> Option<u128> {
        Option::None
    }
}

#[derive(Debug)]
pub struct DisableDictionaryRule {
    pub command_id: u128,
    pub actor: String,
    pub timestamp: i64,
    pub payload: DisableDictionaryRulePayload,
}

#[derive(Debug)]
pub struct DisableDictionaryRulePayload {
    pub project_id: u128,
    pub dictionary_rule_id: u128,
    pub enabled: bool,
}

impl Clone for DisableDictionaryRulePayload {
    fn clone(&self) -> (res: Self)
        ensures
            res == *self,
    {
        DisableDictionaryRulePayload {
            project_id: self.project_id,
            dictionary_rule_id: self.dictionary_rule_id,
            enabled: self.enabled,
        }
    }
}

impl Clone for DisableDictionaryRule {
    fn clone(&self) -> (res: Self)
        ensures
            res == *self,
    {
        DisableDictionaryRule {
            command_id: self.command_id,
            actor: self.actor.clone(),
            timestamp: self.timestamp,
            payload: self.payload.clone(),
        }
    }
}

impl CommandDto for DisableDictionaryRule {
    fn command_id(&self) -> u128 {
        self.command_id
    }

    fn command_type(&self) -> CommandType {
        CommandType::DisableDictionaryRule
    }

    fn actor(&self) -> &str {
        self.actor.as_str()
    }

    fn timestamp(&self) -> i64 {
        self.timestamp
    }

    fn session_id(&self) -> Option<u128> {
        Option::None
    }
}

#[derive(Debug)]
pub struct ResolveReviewTask {
    pub command_id: u128,
    pub actor: String,
    pub timestamp: i64,
    pub payload: ResolveReviewTaskPayload,
}

#[derive(Debug)]
pub struct ResolveReviewTaskPayload {
    pub session_id: u128,
    pub review_task_id: u128,
    pub resolution: String,
}

impl Clone for ResolveReviewTaskPayload {
    fn clone(&self) -> (res: Self)
        ensures
            res == *self,
    {
        ResolveReviewTaskPayload {
            session_id: self.session_id,
            review_task_id: self.review_task_id,
            resolution: self.resolution.clone(),
        }
    }
}

impl Clone for ResolveReviewTask {
    fn clone(&self) -> (res: Self)
        ensures
            res == *self,
    {
        ResolveReviewTask {
            command_id: self.command_id,
            actor: self.actor.clone(),
            timestamp: self.timestamp,
            payload: self.payload.clone(),
        }
    }
}

impl CommandDto for ResolveReviewTask {
    fn command_id(&self) -> u128 {
        self.command_id
    }

    fn command_type(&self) -> CommandType {
        CommandType::ResolveReviewTask
    }

    fn actor(&self) -> &str {
        self.actor.as_str()
    }

    fn timestamp(&self) -> i64 {
        self.timestamp
    }

    fn session_id(&self) -> Option<u128> {
        Option::Some(self.payload.session_id)
    }
}

#[derive(Debug)]
pub struct SkipReviewTask {
    pub command_id: u128,
    pub actor: String,
    pub timestamp: i64,
    pub payload: SkipReviewTaskPayload,
}

#[derive(Debug)]
pub struct SkipReviewTaskPayload {
    pub session_id: u128,
    pub review_task_id: u128,
    pub reason: String,
}

impl Clone for SkipReviewTaskPayload {
    fn clone(&self) -> (res: Self)
        ensures
            res == *self,
    {
        SkipReviewTaskPayload {
            session_id: self.session_id,
            review_task_id: self.review_task_id,
            reason: self.reason.clone(),
        }
    }
}

impl Clone for SkipReviewTask {
    fn clone(&self) -> (res: Self)
        ensures
            res == *self,
    {
        SkipReviewTask {
            command_id: self.command_id,
            actor: self.actor.clone(),
            timestamp: self.timestamp,
            payload: self.payload.clone(),
        }
    }
}

impl CommandDto for SkipReviewTask {
    fn command_id(&self) -> u128 {
        self.command_id
    }

    fn command_type(&self) -> CommandType {
        CommandType::SkipReviewTask
    }

    fn actor(&self) -> &str {
        self.actor.as_str()
    }

    fn timestamp(&self) -> i64 {
        self.timestamp
    }

    fn session_id(&self) -> Option<u128> {
        Option::Some(self.payload.session_id)
    }
}

#[derive(Debug)]
pub struct BatchResolveField {
    pub command_id: u128,
    pub actor: String,
    pub timestamp: i64,
    pub payload: BatchResolveFieldPayload,
}

#[derive(Debug)]
pub struct BatchResolveFieldPayload {
    pub session_id: u128,
    pub field_key: String,
    pub action: String,
}

impl Clone for BatchResolveFieldPayload {
    fn clone(&self) -> (res: Self)
        ensures
            res == *self,
    {
        BatchResolveFieldPayload {
            session_id: self.session_id,
            field_key: self.field_key.clone(),
            action: self.action.clone(),
        }
    }
}

impl Clone for BatchResolveField {
    fn clone(&self) -> (res: Self)
        ensures
            res == *self,
    {
        BatchResolveField {
            command_id: self.command_id,
            actor: self.actor.clone(),
            timestamp: self.timestamp,
            payload: self.payload.clone(),
        }
    }
}

impl CommandDto for BatchResolveField {
    fn command_id(&self) -> u128 {
        self.command_id
    }

    fn command_type(&self) -> CommandType {
        CommandType::BatchResolveField
    }

    fn actor(&self) -> &str {
        self.actor.as_str()
    }

    fn timestamp(&self) -> i64 {
        self.timestamp
    }

    fn session_id(&self) -> Option<u128> {
        Option::Some(self.payload.session_id)
    }
}

#[derive(Debug)]
pub struct RunValidation {
    pub command_id: u128,
    pub actor: String,
    pub timestamp: i64,
    pub payload: RunValidationPayload,
}

#[derive(Debug)]
pub struct RunValidationPayload {
    pub session_id: u128,
    pub rule_scope: ValidationRuleScope,
}

impl Clone for RunValidationPayload {
    fn clone(&self) -> (res: Self)
        ensures
            res == *self,
    {
        RunValidationPayload {
            session_id: self.session_id,
            rule_scope: self.rule_scope,
        }
    }
}

impl Clone for RunValidation {
    fn clone(&self) -> (res: Self)
        ensures
            res == *self,
    {
        RunValidation {
            command_id: self.command_id,
            actor: self.actor.clone(),
            timestamp: self.timestamp,
            payload: self.payload.clone(),
        }
    }
}

impl CommandDto for RunValidation {
    fn command_id(&self) -> u128 {
        self.command_id
    }

    fn command_type(&self) -> CommandType {
        CommandType::RunValidation
    }

    fn actor(&self) -> &str {
        self.actor.as_str()
    }

    fn timestamp(&self) -> i64 {
        self.timestamp
    }

    fn session_id(&self) -> Option<u128> {
        Option::Some(self.payload.session_id)
    }
}

#[derive(Debug)]
pub struct OverrideValidation {
    pub command_id: u128,
    pub actor: String,
    pub timestamp: i64,
    pub payload: OverrideValidationPayload,
}

#[derive(Debug)]
pub struct OverrideValidationPayload {
    pub session_id: u128,
    pub validation_result_id: u128,
    pub reason: String,
}

impl Clone for OverrideValidationPayload {
    fn clone(&self) -> (res: Self)
        ensures
            res == *self,
    {
        OverrideValidationPayload {
            session_id: self.session_id,
            validation_result_id: self.validation_result_id,
            reason: self.reason.clone(),
        }
    }
}

impl Clone for OverrideValidation {
    fn clone(&self) -> (res: Self)
        ensures
            res == *self,
    {
        OverrideValidation {
            command_id: self.command_id,
            actor: self.actor.clone(),
            timestamp: self.timestamp,
            payload: self.payload.clone(),
        }
    }
}

impl CommandDto for OverrideValidation {
    fn command_id(&self) -> u128 {
        self.command_id
    }

    fn command_type(&self) -> CommandType {
        CommandType::OverrideValidation
    }

    fn actor(&self) -> &str {
        self.actor.as_str()
    }

    fn timestamp(&self) -> i64 {
        self.timestamp
    }

    fn session_id(&self) -> Option<u128> {
        Option::Some(self.payload.session_id)
    }
}

#[derive(Debug)]
pub struct ExportSession {
    pub command_id: u128,
    pub actor: String,
    pub timestamp: i64,
    pub payload: ExportSessionPayload,
}

#[derive(Debug)]
pub struct ExportSessionPayload {
    pub session_id: u128,
    pub format: ExportFormat,
    pub include_in_vault: bool,
    pub export_path: Option<String>,
}

impl Clone for ExportSessionPayload {
    fn clone(&self) -> (res: Self)
        ensures
            res == *self,
    {
        ExportSessionPayload {
            session_id: self.session_id,
            format: self.format,
            include_in_vault: self.include_in_vault,
            export_path: clone_opt_string(&self.export_path),
        }
    }
}

impl Clone for ExportSession {
    fn clone(&self) -> (res: Self)
        ensures
            res == *self,
    {
        ExportSession {
            command_id: self.command_id,
            actor: self.actor.clone(),
            timestamp: self.timestamp,
            payload: self.payload.clone(),
        }
    }
}

impl CommandDto for ExportSession {
    fn command_id(&self) -> u128 {
        self.command_id
    }

    fn command_type(&self) -> CommandType {
        CommandType::ExportSession
    }

    fn actor(&self) -> &str {
        self.actor.as_str()
    }

    fn timestamp(&self) -> i64 {
        self.timestamp
    }

    fn session_id(&self) -> Option<u128> {
        Option::Some(self.payload.session_id)
    }
}

/// The closed, tagged union of every command kind this kernel accepts.
#[derive(Debug)]
pub enum AnyCommand {
    CreateSession(CreateSession),
    CreateCorrectionSession(CreateCorrectionSession),
    LockSession(LockSession),
    PinSession(PinSession),
    ImportDocument(ImportDocument),
    ConfirmDuplicate(ConfirmDuplicate),
    ApplyPreprocessing(ApplyPreprocessing),
    ReprocessDocument(ReprocessDocument),
    RunExtraction(RunExtraction),
    ReRunExtraction(ReRunExtraction),
    AssignFieldValue(AssignFieldValue),
    LockField(LockField),
    AddItemRow(AddItemRow),
    DeleteItemRow(DeleteItemRow),
    AssignItemValue(AssignItemValue),
    LockItemRow(LockItemRow),
    AddExtraRow(AddExtraRow),
    AssignExtraValue(AssignExtraValue),
    AddAnchorRule(AddAnchorRule),
    DisableAnchorRule(DisableAnchorRule),
    AddDictionaryRule(AddDictionaryRule),
    DisableDictionaryRule(DisableDictionaryRule),
    ResolveReviewTask(ResolveReviewTask),
    SkipReviewTask(SkipReviewTask),
    BatchResolveField(BatchResolveField),
    RunValidation(RunValidation),
    OverrideValidation(OverrideValidation),
    ExportSession(ExportSession),
}

/// The unique, caller-supplied identifier of a command.
pub open spec fn spec_command_id(c: AnyCommand) -> u128 {
    match c {
        AnyCommand::CreateSession(x) => x.command_id,
        AnyCommand::CreateCorrectionSession(x) => x.command_id,
        AnyCommand::LockSession(x) => x.command_id,
        AnyCommand::PinSession(x) => x.command_id,
        AnyCommand::ImportDocument(x) => x.command_id,
        AnyCommand::ConfirmDuplicate(x) => x.command_id,
        AnyCommand::ApplyPreprocessing(x) => x.command_id,
        AnyCommand::ReprocessDocument(x) => x.command_id,
        AnyCommand::RunExtraction(x) => x.command_id,
        AnyCommand::ReRunExtraction(x) => x.command_id,
        AnyCommand::AssignFieldValue(x) => x.command_id,
        AnyCommand::LockField(x) => x.command_id,
        AnyCommand::AddItemRow(x) => x.command_id,
        AnyCommand::DeleteItemRow(x) => x.command_id,
        AnyCommand::AssignItemValue(x) => x.command_id,
        AnyCommand::LockItemRow(x) => x.command_id,
        AnyCommand::AddExtraRow(x) => x.command_id,
        AnyCommand::AssignExtraValue(x) => x.command_id,
        AnyCommand::AddAnchorRule(x) => x.command_id,
        AnyCommand::DisableAnchorRule(x) => x.command_id,
        AnyCommand::AddDictionaryRule(x) => x.command_id,
        AnyCommand::DisableDictionaryRule(x) => x.command_id,
        AnyCommand::ResolveReviewTask(x) => x.command_id,
        AnyCommand::SkipReviewTask(x) => x.command_id,
        AnyCommand::BatchResolveField(x) => x.command_id,
        AnyCommand::RunValidation(x) => x.command_id,
        AnyCommand::OverrideValidation(x) => x.command_id,
        AnyCommand::ExportSession(x) => x.command_id,
    }
}

/// The type tag of a command.
pub open spec fn spec_command_type(c: AnyCommand) -> CommandType {
    match c {
        AnyCommand::CreateSession(x) => CommandType::CreateSession,
        AnyCommand::CreateCorrectionSession(x) => CommandType::CreateCorrectionSession,
        AnyCommand::LockSession(x) => CommandType::LockSession,
        AnyCommand::PinSession(x) => CommandType::PinSession,
        AnyCommand::ImportDocument(x) => CommandType::ImportDocument,
        AnyCommand::ConfirmDuplicate(x) => CommandType::ConfirmDuplicate,
        AnyCommand::ApplyPreprocessing(x) => CommandType::ApplyPreprocessing,
        AnyCommand::ReprocessDocument(x) => CommandType::ReprocessDocument,
        AnyCommand::RunExtraction(x) => CommandType::RunExtraction,
        AnyCommand::ReRunExtraction(x) => CommandType::ReRunExtraction,
        AnyCommand::AssignFieldValue(x) => CommandType::AssignFieldValue,
        AnyCommand::LockField(x) => CommandType::LockField,
        AnyCommand::AddItemRow(x) => CommandType::AddItemRow,
        AnyCommand::DeleteItemRow(x) => CommandType::DeleteItemRow,
        AnyCommand::AssignItemValue(x) => CommandType::AssignItemValue,
        AnyCommand::LockItemRow(x) => CommandType::LockItemRow,
        AnyCommand::AddExtraRow(x) => CommandType::AddExtraRow,
        AnyCommand::AssignExtraValue(x) => CommandType::AssignExtraValue,
        AnyCommand::AddAnchorRule(x) => CommandType::AddAnchorRule,
        AnyCommand::DisableAnchorRule(x) => CommandType::DisableAnchorRule,
        AnyCommand::AddDictionaryRule(x) => CommandType::AddDictionaryRule,
        AnyCommand::DisableDictionaryRule(x) => CommandType::DisableDictionaryRule,
        AnyCommand::ResolveReviewTask(x) => CommandType::ResolveReviewTask,
        AnyCommand::SkipReviewTask(x) => CommandType::SkipReviewTask,
        AnyCommand::BatchResolveField(x) => CommandType::BatchResolveField,
        AnyCommand::RunValidation(x) => CommandType::RunValidation,
        AnyCommand::OverrideValidation(x) => CommandType::OverrideValidation,
        AnyCommand::ExportSession(x) => CommandType::ExportSession,
    }
}

/// The session a command operates on, if it is session-scoped.
pub open spec fn spec_session_id(c: AnyCommand) -> Option<u128> {
    match c {
        AnyCommand::CreateSession(x) => Option::None,
        AnyCommand::CreateCorrectionSession(x) => Option::None,
        AnyCommand::LockSession(x) => Option::Some(x.payload.session_id),
        AnyCommand::PinSession(x) => Option::Some(x.payload.session_id),
        AnyCommand::ImportDocument(x) => Option::Some(x.payload.session_id),
        AnyCommand::ConfirmDuplicate(x) => Option::Some(x.payload.session_id),
        AnyCommand::ApplyPreprocessing(x) => Option::Some(x.payload.session_id),
        AnyCommand::ReprocessDocument(x) => Option::Some(x.payload.session_id),
        AnyCommand::RunExtraction(x) => Option::Some(x.payload.session_id),
        AnyCommand::ReRunExtraction(x) => Option::Some(x.payload.session_id),
        AnyCommand::AssignFieldValue(x) => Option::Some(x.payload.session_id),
        AnyCommand::LockField(x) => Option::Some(x.payload.session_id),
        AnyCommand::AddItemRow(x) => Option::Some(x.payload.session_id),
        AnyCommand::DeleteItemRow(x) => Option::Some(x.payload.session_id),
        AnyCommand::AssignItemValue(x) => Option::Some(x.payload.session_id),
        AnyCommand::LockItemRow(x) => Option::Some(x.payload.session_id),
        AnyCommand::AddExtraRow(x) => Option::Some(x.payload.session_id),
        AnyCommand::AssignExtraValue(x) => Option::Some(x.payload.session_id),
        AnyCommand::AddAnchorRule(x) => Option::None,
        AnyCommand::DisableAnchorRule(x) => Option::None,
        AnyCommand::AddDictionaryRule(x) => Option::None,
        AnyCommand::DisableDictionaryRule(x) => Option::None,
        AnyCommand::ResolveReviewTask(x) => Option::Some(x.payload.session_id),
        AnyCommand::SkipReviewTask(x) => Option::Some(x.payload.session_id),
        AnyCommand::BatchResolveField(x) => Option::Some(x.payload.session_id),
        AnyCommand::RunValidation(x) => Option::Some(x.payload.session_id),
        AnyCommand::OverrideValidation(x) => Option::Some(x.payload.session_id),
        AnyCommand::ExportSession(x) => Option::Some(x.payload.session_id),
    }
}

/// The actor that issued a command.
pub open spec fn spec_actor(c: AnyCommand) -> Seq<char> {
    match c {
        AnyCommand::CreateSession(x) => x.actor@,
        AnyCommand::CreateCorrectionSession(x) => x.actor@,
        AnyCommand::LockSession(x) => x.actor@,
        AnyCommand::PinSession(x) => x.actor@,
        AnyCommand::ImportDocument(x) => x.actor@,
        AnyCommand::ConfirmDuplicate(x) => x.actor@,
        AnyCommand::ApplyPreprocessing(x) => x.actor@,
        AnyCommand::ReprocessDocument(x) => x.actor@,
        AnyCommand::RunExtraction(x) => x.actor@,
        AnyCommand::ReRunExtraction(x) => x.actor@,
        AnyCommand::AssignFieldValue(x) => x.actor@,
        AnyCommand::LockField(x) => x.actor@,
        AnyCommand::AddItemRow(x) => x.actor@,
        AnyCommand::DeleteItemRow(x) => x.actor@,
        AnyCommand::AssignItemValue(x) => x.actor@,
        AnyCommand::LockItemRow(x) => x.actor@,
        AnyCommand::AddExtraRow(x) => x.actor@,
        AnyCommand::AssignExtraValue(x) => x.actor@,
        AnyCommand::AddAnchorRule(x) => x.actor@,
        AnyCommand::DisableAnchorRule(x) => x.actor@,
        AnyCommand::AddDictionaryRule(x) => x.actor@,
        AnyCommand::DisableDictionaryRule(x) => x.actor@,
        AnyCommand::ResolveReviewTask(x) => x.actor@,
        AnyCommand::SkipReviewTask(x) => x.actor@,
        AnyCommand::BatchResolveField(x) => x.actor@,
        AnyCommand::RunValidation(x) => x.actor@,
        AnyCommand::OverrideValidation(x) => x.actor@,
        AnyCommand::ExportSession(x) => x.actor@,
    }
}

/// The caller-supplied timestamp of a command.
pub open spec fn spec_timestamp(c: AnyCommand) -> i64 {
    match c {
        AnyCommand::CreateSession(x) => x.timestamp,
        AnyCommand::CreateCorrectionSession(x) => x.timestamp,
        AnyCommand::LockSession(x) => x.timestamp,
        AnyCommand::PinSession(x) => x.timestamp,
        AnyCommand::ImportDocument(x) => x.timestamp,
        AnyCommand::ConfirmDuplicate(x) => x.timestamp,
        AnyCommand::ApplyPreprocessing(x) => x.timestamp,
        AnyCommand::ReprocessDocument(x) => x.timestamp,
        AnyCommand::RunExtraction(x) => x.timestamp,
        AnyCommand::ReRunExtraction(x) => x.timestamp,
        AnyCommand::AssignFieldValue(x) => x.timestamp,
        AnyCommand::LockField(x) => x.timestamp,
        AnyCommand::AddItemRow(x) => x.timestamp,
        AnyCommand::DeleteItemRow(x) => x.timestamp,
        AnyCommand::AssignItemValue(x) => x.timestamp,
        AnyCommand::LockItemRow(x) => x.timestamp,
        AnyCommand::AddExtraRow(x) => x.timestamp,
        AnyCommand::AssignExtraValue(x) => x.timestamp,
        AnyCommand::AddAnchorRule(x) => x.timestamp,
        AnyCommand::DisableAnchorRule(x) => x.timestamp,
        AnyCommand::AddDictionaryRule(x) => x.timestamp,
        AnyCommand::DisableDictionaryRule(x) => x.timestamp,
        AnyCommand::ResolveReviewTask(x) => x.timestamp,
        AnyCommand::SkipReviewTask(x) => x.timestamp,
        AnyCommand::BatchResolveField(x) => x.timestamp,
        AnyCommand::RunValidation(x) => x.timestamp,
        AnyCommand::OverrideValidation(x) => x.timestamp,
        AnyCommand::ExportSession(x) => x.timestamp,
    }
}

/// Value equality of two commands: same kind, same identity and audit
/// fields, and the same payload, strings compared by content. This is the
/// request fingerprint the idempotency store deduplicates by.
pub open spec fn cmd_eq(a: AnyCommand, b: AnyCommand) -> bool {
    match (a, b) {
        (AnyCommand::CreateSession(x), AnyCommand::CreateSession(y)) => x.command_id == y.command_id
            && x.actor@ == y.actor@
            && x.timestamp == y.timestamp
            && x.payload.project_id == y.payload.project_id
            && x.payload.schema_id == y.payload.schema_id
            && x.payload.source@ == y.payload.source@,
        (AnyCommand::CreateCorrectionSession(x), AnyCommand::CreateCorrectionSession(y)) => x.command_id == y.command_id
            && x.actor@ == y.actor@
            && x.timestamp == y.timestamp
            && x.payload.project_id == y.payload.project_id
            && x.payload.schema_id == y.payload.schema_id
            && x.payload.base_session_id == y.payload.base_session_id,
        (AnyCommand::LockSession(x), AnyCommand::LockSession(y)) => x.command_id == y.command_id
            && x.actor@ == y.actor@
            && x.timestamp == y.timestamp
            && x.payload.session_id == y.payload.session_id
            && opt_str_eq(x.payload.reason, y.payload.reason),
        (AnyCommand::PinSession(x), AnyCommand::PinSession(y)) => x.command_id == y.command_id
            && x.actor@ == y.actor@
            && x.timestamp == y.timestamp
            && x.payload.session_id == y.payload.session_id
            && x.payload.pinned == y.payload.pinned,
        (AnyCommand::ImportDocument(x), AnyCommand::ImportDocument(y)) => x.command_id == y.command_id
            && x.actor@ == y.actor@
            && x.timestamp == y.timestamp
            && x.payload.session_id == y.payload.session_id
            && x.payload.blob_ids@ == y.payload.blob_ids@
            && opt_str_eq(x.payload.metadata, y.payload.metadata),
        (AnyCommand::ConfirmDuplicate(x), AnyCommand::ConfirmDuplicate(y)) => x.command_id == y.command_id
            && x.actor@ == y.actor@
            && x.timestamp == y.timestamp
            && x.payload.session_id == y.payload.session_id
            && x.payload.document_id == y.payload.document_id
            && x.payload.duplicate_of_document_id == y.payload.duplicate_of_document_id,
        (AnyCommand::ApplyPreprocessing(x), AnyCommand::ApplyPreprocessing(y)) => x.command_id == y.command_id
            && x.actor@ == y.actor@
            && x.timestamp == y.timestamp
            && x.payload.session_id == y.payload.session_id
            && x.payload.page_id == y.payload.page_id
            && x.payload.params@ == y.payload.params@,
        (AnyCommand::ReprocessDocument(x), AnyCommand::ReprocessDocument(y)) => x.command_id == y.command_id
            && x.actor@ == y.actor@
            && x.timestamp == y.timestamp
            && x.payload.session_id == y.payload.session_id
            && x.payload.document_id == y.payload.document_id
            && x.payload.params@ == y.payload.params@,
        (AnyCommand::RunExtraction(x), AnyCommand::RunExtraction(y)) => x.command_id == y.command_id
            && x.actor@ == y.actor@
            && x.timestamp == y.timestamp
            && x.payload.session_id == y.payload.session_id
            && x.payload.engine@ == y.payload.engine@
            && x.payload.params@ == y.payload.params@,
        (AnyCommand::ReRunExtraction(x), AnyCommand::ReRunExtraction(y)) => x.command_id == y.command_id
            && x.actor@ == y.actor@
            && x.timestamp == y.timestamp
            && x.payload.session_id == y.payload.session_id
            && x.payload.scope@ == y.payload.scope@
            && x.payload.target_id == y.payload.target_id
            && x.payload.params@ == y.payload.params@,
        (AnyCommand::AssignFieldValue(x), AnyCommand::AssignFieldValue(y)) => x.command_id == y.command_id
            && x.actor@ == y.actor@
            && x.timestamp == y.timestamp
            && x.payload.session_id == y.payload.session_id
            && x.payload.document_id == y.payload.document_id
            && x.payload.schema_field_id == y.payload.schema_field_id
            && x.payload.raw_value@ == y.payload.raw_value@
            && opt_str_eq(x.payload.normalized_value, y.payload.normalized_value)
            && x.payload.source == y.payload.source
            && x.payload.source_ref@ == y.payload.source_ref@,
        (AnyCommand::LockField(x), AnyCommand::LockField(y)) => x.command_id == y.command_id
            && x.actor@ == y.actor@
            && x.timestamp == y.timestamp
            && x.payload.session_id == y.payload.session_id
            && x.payload.field_value_id == y.payload.field_value_id
            && x.payload.locked == y.payload.locked,
        (AnyCommand::AddItemRow(x), AnyCommand::AddItemRow(y)) => x.command_id == y.command_id
            && x.actor@ == y.actor@
            && x.timestamp == y.timestamp
            && x.payload.session_id == y.payload.session_id
            && x.payload.document_id == y.payload.document_id
            && x.payload.row_index == y.payload.row_index,
        (AnyCommand::DeleteItemRow(x), AnyCommand::DeleteItemRow(y)) => x.command_id == y.command_id
            && x.actor@ == y.actor@
            && x.timestamp == y.timestamp
            && x.payload.session_id == y.payload.session_id
            && x.payload.item_id == y.payload.item_id,
        (AnyCommand::AssignItemValue(x), AnyCommand::AssignItemValue(y)) => x.command_id == y.command_id
            && x.actor@ == y.actor@
            && x.timestamp == y.timestamp
            && x.payload.session_id == y.payload.session_id
            && x.payload.item_id == y.payload.item_id
            && x.payload.schema_field_id == y.payload.schema_field_id
            && x.payload.raw_value@ == y.payload.raw_value@
            && opt_str_eq(x.payload.normalized_value, y.payload.normalized_value)
            && x.payload.source == y.payload.source
            && x.payload.source_ref@ == y.payload.source_ref@,
        (AnyCommand::LockItemRow(x), AnyCommand::LockItemRow(y)) => x.command_id == y.command_id
            && x.actor@ == y.actor@
            && x.timestamp == y.timestamp
            && x.payload.session_id == y.payload.session_id
            && x.payload.item_id == y.payload.item_id
            && x.payload.locked == y.payload.locked,
        (AnyCommand::AddExtraRow(x), AnyCommand::AddExtraRow(y)) => x.command_id == y.command_id
            && x.actor@ == y.actor@
            && x.timestamp == y.timestamp
            && x.payload.session_id == y.payload.session_id
            && x.payload.document_id == y.payload.document_id
            && x.payload.table_name@ == y.payload.table_name@
            && x.payload.row_index == y.payload.row_index,
        (AnyCommand::AssignExtraValue(x), AnyCommand::AssignExtraValue(y)) => x.command_id == y.command_id
            && x.actor@ == y.actor@
            && x.timestamp == y.timestamp
            && x.payload.session_id == y.payload.session_id
            && x.payload.extra_row_id == y.payload.extra_row_id
            && x.payload.schema_field_id == y.payload.schema_field_id
            && x.payload.raw_value@ == y.payload.raw_value@
            && opt_str_eq(x.payload.normalized_value, y.payload.normalized_value)
            && x.payload.source == y.payload.source
            && x.payload.source_ref@ == y.payload.source_ref@,
        (AnyCommand::AddAnchorRule(x), AnyCommand::AddAnchorRule(y)) => x.command_id == y.command_id
            && x.actor@ == y.actor@
            && x.timestamp == y.timestamp
            && x.payload.project_id == y.payload.project_id
            && x.payload.schema_field_id == y.payload.schema_field_id
            && x.payload.rule_json@ == y.payload.rule_json@,
        (AnyCommand::DisableAnchorRule(x), AnyCommand::DisableAnchorRule(y)) => x.command_id == y.command_id
            && x.actor@ == y.actor@
            && x.timestamp == y.timestamp
            && x.payload.project_id == y.payload.project_id
            && x.payload.anchor_id == y.payload.anchor_id
            && x.payload.enabled == y.payload.enabled,
        (AnyCommand::AddDictionaryRule(x), AnyCommand::AddDictionaryRule(y)) => x.command_id == y.command_id
            && x.actor@ == y.actor@
            && x.timestamp == y.timestamp
            && x.payload.project_id == y.payload.project_id
            && x.payload.scope == y.payload.scope
            && x.payload.match_type == y.payload.match_type
            && x.payload.match_value@ == y.payload.match_value@
            && x.payload.replace_value@ == y.payload.replace_value@,
        (AnyCommand::DisableDictionaryRule(x), AnyCommand::DisableDictionaryRule(y)) => x.command_id == y.command_id
            && x.actor@ == y.actor@
            && x.timestamp == y.timestamp
            && x.payload.project_id == y.payload.project_id
            && x.payload.dictionary_rule_id == y.payload.dictionary_rule_id
            && x.payload.enabled == y.payload.enabled,
        (AnyCommand::ResolveReviewTask(x), AnyCommand::ResolveReviewTask(y)) => x.command_id == y.command_id
            && x.actor@ == y.actor@
            && x.timestamp == y.timestamp
            && x.payload.session_id == y.payload.session_id
            && x.payload.review_task_id == y.payload.review_task_id
            && x.payload.resolution@ == y.payload.resolution@,
        (AnyCommand::SkipReviewTask(x), AnyCommand::SkipReviewTask(y)) => x.command_id == y.command_id
            && x.actor@ == y.actor@
            && x.timestamp == y.timestamp
            && x.payload.session_id == y.payload.session_id
            && x.payload.review_task_id == y.payload.review_task_id
            && x.payload.reason@ == y.payload.reason@,
        (AnyCommand::BatchResolveField(x), AnyCommand::BatchResolveField(y)) => x.command_id == y.command_id
            && x.actor@ == y.actor@
            && x.timestamp == y.timestamp
            && x.payload.session_id == y.payload.session_id
            && x.payload.field_key@ == y.payload.field_key@
            && x.payload.action@ == y.payload.action@,
        (AnyCommand::RunValidation(x), AnyCommand::RunValidation(y)) => x.command_id == y.command_id
            && x.actor@ == y.actor@
            && x.timestamp == y.timestamp
            && x.payload.session_id == y.payload.session_id
            && x.payload.rule_scope == y.payload.rule_scope,
        (AnyCommand::OverrideValidation(x), AnyCommand::OverrideValidation(y)) => x.command_id == y.command_id
            && x.actor@ == y.actor@
            && x.timestamp == y.timestamp
            && x.payload.session_id == y.payload.session_id
            && x.payload.validation_result_id == y.payload.validation_result_id
            && x.payload.reason@ == y.payload.reason@,
        (AnyCommand::ExportSession(x), AnyCommand::ExportSession(y)) => x.command_id == y.command_id
            && x.actor@ == y.actor@
            && x.timestamp == y.timestamp
            && x.payload.session_id == y.payload.session_id
            && x.payload.format == y.payload.format
            && x.payload.include_in_vault == y.payload.include_in_vault
            && opt_str_eq(x.payload.export_path, y.payload.export_path),
        _ => false,
    }
}

/// Decides `cmd_eq` on two commands.
pub fn command_eq(a: &AnyCommand, b: &AnyCommand) -> (r: bool)
    ensures
        r == cmd_eq(*a, *b),
{
    match (a, b) {
        (AnyCommand::CreateSession(x), AnyCommand::CreateSession(y)) => x.command_id == y.command_id
            && x.actor == y.actor
            && x.timestamp == y.timestamp
            && x.payload.project_id == y.payload.project_id
            && x.payload.schema_id == y.payload.schema_id
            && x.payload.source == y.payload.source,
        (AnyCommand::CreateCorrectionSession(x), AnyCommand::CreateCorrectionSession(y)) => x.command_id == y.command_id
            && x.actor == y.actor
            && x.timestamp == y.timestamp
            && x.payload.project_id == y.payload.project_id
            && x.payload.schema_id == y.payload.schema_id
            && x.payload.base_session_id == y.payload.base_session_id,
        (AnyCommand::LockSession(x), AnyCommand::LockSession(y)) => x.command_id == y.command_id
            && x.actor == y.actor
            && x.timestamp == y.timestamp
            && x.payload.session_id == y.payload.session_id
            && opt_str_equal(&x.payload.reason, &y.payload.reason),
        (AnyCommand::PinSession(x), AnyCommand::PinSession(y)) => x.command_id == y.command_id
            && x.actor == y.actor
            && x.timestamp == y.timestamp
            && x.payload.session_id == y.payload.session_id
            && x.payload.pinned == y.payload.pinned,
        (AnyCommand::ImportDocument(x), AnyCommand::ImportDocument(y)) => x.command_id == y.command_id
            && x.actor == y.actor
            && x.timestamp == y.timestamp
            && x.payload.session_id == y.payload.session_id
            && ids_equal(&x.payload.blob_ids, &y.payload.blob_ids)
            && opt_str_equal(&x.payload.metadata, &y.payload.metadata),
        (AnyCommand::ConfirmDuplicate(x), AnyCommand::ConfirmDuplicate(y)) => x.command_id == y.command_id
            && x.actor == y.actor
            && x.timestamp == y.timestamp
            && x.payload.session_id == y.payload.session_id
            && x.payload.document_id == y.payload.document_id
            && x.payload.duplicate_of_document_id == y.payload.duplicate_of_document_id,
        (AnyCommand::ApplyPreprocessing(x), AnyCommand::ApplyPreprocessing(y)) => x.command_id == y.command_id
            && x.actor == y.actor
            && x.timestamp == y.timestamp
            && x.payload.session_id == y.payload.session_id
            && x.payload.page_id == y.payload.page_id
            && x.payload.params == y.payload.params,
        (AnyCommand::ReprocessDocument(x), AnyCommand::ReprocessDocument(y)) => x.command_id == y.command_id
            && x.actor == y.actor
            && x.timestamp == y.timestamp
            && x.payload.session_id == y.payload.session_id
            && x.payload.document_id == y.payload.document_id
            && x.payload.params == y.payload.params,
        (AnyCommand::RunExtraction(x), AnyCommand::RunExtraction(y)) => x.command_id == y.command_id
            && x.actor == y.actor
            && x.timestamp == y.timestamp
            && x.payload.session_id == y.payload.session_id
            && x.payload.engine == y.payload.engine
            && x.payload.params == y.payload.params,
        (AnyCommand::ReRunExtraction(x), AnyCommand::ReRunExtraction(y)) => x.command_id == y.command_id
            && x.actor == y.actor
            && x.timestamp == y.timestamp
            && x.payload.session_id == y.payload.session_id
            && x.payload.scope == y.payload.scope
            && x.payload.target_id == y.payload.target_id
            && x.payload.params == y.payload.params,
        (AnyCommand::AssignFieldValue(x), AnyCommand::AssignFieldValue(y)) => x.command_id == y.command_id
            && x.actor == y.actor
            && x.timestamp == y.timestamp
            && x.payload.session_id == y.payload.session_id
            && x.payload.document_id == y.payload.document_id
            && x.payload.schema_field_id == y.payload.schema_field_id
            && x.payload.raw_value == y.payload.raw_value
            && opt_str_equal(&x.payload.normalized_value, &y.payload.normalized_value)
            && x.payload.source == y.payload.source
            && x.payload.source_ref == y.payload.source_ref,
        (AnyCommand::LockField(x), AnyCommand::LockField(y)) => x.command_id == y.command_id
            && x.actor == y.actor
            && x.timestamp == y.timestamp
            && x.payload.session_id == y.payload.session_id
            && x.payload.field_value_id == y.payload.field_value_id
            && x.payload.locked == y.payload.locked,
        (AnyCommand::AddItemRow(x), AnyCommand::AddItemRow(y)) => x.command_id == y.command_id
            && x.actor == y.actor
            && x.timestamp == y.timestamp
            && x.payload.session_id == y.payload.session_id
            && x.payload.document_id == y.payload.document_id
            && x.payload.row_index == y.payload.row_index,
        (AnyCommand::DeleteItemRow(x), AnyCommand::DeleteItemRow(y)) => x.command_id == y.command_id
            && x.actor == y.actor
            && x.timestamp == y.timestamp
            && x.payload.session_id == y.payload.session_id
            && x.payload.item_id == y.payload.item_id,
        (AnyCommand::AssignItemValue(x), AnyCommand::AssignItemValue(y)) => x.command_id == y.command_id
            && x.actor == y.actor
            && x.timestamp == y.timestamp
            && x.payload.session_id == y.payload.session_id
            && x.payload.item_id == y.payload.item_id
            && x.payload.schema_field_id == y.payload.schema_field_id
            && x.payload.raw_value == y.payload.raw_value
            && opt_str_equal(&x.payload.normalized_value, &y.payload.normalized_value)
            && x.payload.source == y.payload.source
            && x.payload.source_ref == y.payload.source_ref,
        (AnyCommand::LockItemRow(x), AnyCommand::LockItemRow(y)) => x.command_id == y.command_id
            && x.actor == y.actor
            && x.timestamp == y.timestamp
            && x.payload.session_id == y.payload.session_id
            && x.payload.item_id == y.payload.item_id
            && x.payload.locked == y.payload.locked,
        (AnyCommand::AddExtraRow(x), AnyCommand::AddExtraRow(y)) => x.command_id == y.command_id
            && x.actor == y.actor
            && x.timestamp == y.timestamp
            && x.payload.session_id == y.payload.session_id
            && x.payload.document_id == y.payload.document_id
            && x.payload.table_name == y.payload.table_name
            && x.payload.row_index == y.payload.row_index,
        (AnyCommand::AssignExtraValue(x), AnyCommand::AssignExtraValue(y)) => x.command_id == y.command_id
            && x.actor == y.actor
            && x.timestamp == y.timestamp
            && x.payload.session_id == y.payload.session_id
            && x.payload.extra_row_id == y.payload.extra_row_id
            && x.payload.schema_field_id == y.payload.schema_field_id
            && x.payload.raw_value == y.payload.raw_value
            && opt_str_equal(&x.payload.normalized_value, &y.payload.normalized_value)
            && x.payload.source == y.payload.source
            && x.payload.source_ref == y.payload.source_ref,
        (AnyCommand::AddAnchorRule(x), AnyCommand::AddAnchorRule(y)) => x.command_id == y.command_id
            && x.actor == y.actor
            && x.timestamp == y.timestamp
            && x.payload.project_id == y.payload.project_id
            && x.payload.schema_field_id == y.payload.schema_field_id
            && x.payload.rule_json == y.payload.rule_json,
        (AnyCommand::DisableAnchorRule(x), AnyCommand::DisableAnchorRule(y)) => x.command_id == y.command_id
            && x.actor == y.actor
            && x.timestamp == y.timestamp
            && x.payload.project_id == y.payload.project_id
            && x.payload.anchor_id == y.payload.anchor_id
            && x.payload.enabled == y.payload.enabled,
        (AnyCommand::AddDictionaryRule(x), AnyCommand::AddDictionaryRule(y)) => x.command_id == y.command_id
            && x.actor == y.actor
            && x.timestamp == y.timestamp
            && x.payload.project_id == y.payload.project_id
            && x.payload.scope == y.payload.scope
            && x.payload.match_type == y.payload.match_type
            && x.payload.match_value == y.payload.match_value
            && x.payload.replace_value == y.payload.replace_value,
        (AnyCommand::DisableDictionaryRule(x), AnyCommand::DisableDictionaryRule(y)) => x.command_id == y.command_id
            && x.actor == y.actor
            && x.timestamp == y.timestamp
            && x.payload.project_id == y.payload.project_id
            && x.payload.dictionary_rule_id == y.payload.dictionary_rule_id
            && x.payload.enabled == y.payload.enabled,
        (AnyCommand::ResolveReviewTask(x), AnyCommand::ResolveReviewTask(y)) => x.command_id == y.command_id
            && x.actor == y.actor
            && x.timestamp == y.timestamp
            && x.payload.session_id == y.payload.session_id
            && x.payload.review_task_id == y.payload.review_task_id
            && x.payload.resolution == y.payload.resolution,
        (AnyCommand::SkipReviewTask(x), AnyCommand::SkipReviewTask(y)) => x.command_id == y.command_id
            && x.actor == y.actor
            && x.timestamp == y.timestamp
            && x.payload.session_id == y.payload.session_id
            && x.payload.review_task_id == y.payload.review_task_id
            && x.payload.reason == y.payload.reason,
        (AnyCommand::BatchResolveField(x), AnyCommand::BatchResolveField(y)) => x.command_id == y.command_id
            && x.actor == y.actor
            && x.timestamp == y.timestamp
            && x.payload.session_id == y.payload.session_id
            && x.payload.field_key == y.payload.field_key
            && x.payload.action == y.payload.action,
        (AnyCommand::RunValidation(x), AnyCommand::RunValidation(y)) => x.command_id == y.command_id
            && x.actor == y.actor
            && x.timestamp == y.timestamp
            && x.payload.session_id == y.payload.session_id
            && x.payload.rule_scope == y.payload.rule_scope,
        (AnyCommand::OverrideValidation(x), AnyCommand::OverrideValidation(y)) => x.command_id == y.command_id
            && x.actor == y.actor
            && x.timestamp == y.timestamp
            && x.payload.session_id == y.payload.session_id
            && x.payload.validation_result_id == y.payload.validation_result_id
            && x.payload.reason == y.payload.reason,
        (AnyCommand::ExportSession(x), AnyCommand::ExportSession(y)) => x.command_id == y.command_id
            && x.actor == y.actor
            && x.timestamp == y.timestamp
            && x.payload.session_id == y.payload.session_id
            && x.payload.format == y.payload.format
            && x.payload.include_in_vault == y.payload.include_in_vault
            && opt_str_equal(&x.payload.export_path, &y.payload.export_path),
        _ => false,
    }
}

impl AnyCommand {
    /// The unique, caller-supplied identifier of this command.
    pub fn command_id(&self) -> (r: u128)
        ensures
            r == spec_command_id(*self),
    {
        match self {
            AnyCommand::CreateSession(x) => x.command_id,
            AnyCommand::CreateCorrectionSession(x) => x.command_id,
            AnyCommand::LockSession(x) => x.command_id,
            AnyCommand::PinSession(x) => x.command_id,
            AnyCommand::ImportDocument(x) => x.command_id,
            AnyCommand::ConfirmDuplicate(x) => x.command_id,
            AnyCommand::ApplyPreprocessing(x) => x.command_id,
            AnyCommand::ReprocessDocument(x) => x.command_id,
            AnyCommand::RunExtraction(x) => x.command_id,
            AnyCommand::ReRunExtraction(x) => x.command_id,
            AnyCommand::AssignFieldValue(x) => x.command_id,
            AnyCommand::LockField(x) => x.command_id,
            AnyCommand::AddItemRow(x) => x.command_id,
            AnyCommand::DeleteItemRow(x) => x.command_id,
            AnyCommand::AssignItemValue(x) => x.command_id,
            AnyCommand::LockItemRow(x) => x.command_id,
            AnyCommand::AddExtraRow(x) => x.command_id,
            AnyCommand::AssignExtraValue(x) => x.command_id,
            AnyCommand::AddAnchorRule(x) => x.command_id,
            AnyCommand::DisableAnchorRule(x) => x.command_id,
            AnyCommand::AddDictionaryRule(x) => x.command_id,
            AnyCommand::DisableDictionaryRule(x) => x.command_id,
            AnyCommand::ResolveReviewTask(x) => x.command_id,
            AnyCommand::SkipReviewTask(x) => x.command_id,
            AnyCommand::BatchResolveField(x) => x.command_id,
            AnyCommand::RunValidation(x) => x.command_id,
            AnyCommand::OverrideValidation(x) => x.command_id,
            AnyCommand::ExportSession(x) => x.command_id,
        }
    }

    /// The type tag of this command.
    pub fn command_type(&self) -> (r: CommandType)
        ensures
            r == spec_command_type(*self),
    {
        match self {
            AnyCommand::CreateSession(x) => CommandType::CreateSession,
            AnyCommand::CreateCorrectionSession(x) => CommandType::CreateCorrectionSession,
            AnyCommand::LockSession(x) => CommandType::LockSession,
            AnyCommand::PinSession(x) => CommandType::PinSession,
            AnyCommand::ImportDocument(x) => CommandType::ImportDocument,
            AnyCommand::ConfirmDuplicate(x) => CommandType::ConfirmDuplicate,
            AnyCommand::ApplyPreprocessing(x) => CommandType::ApplyPreprocessing,
            AnyCommand::ReprocessDocument(x) => CommandType::ReprocessDocument,
            AnyCommand::RunExtraction(x) => CommandType::RunExtraction,
            AnyCommand::ReRunExtraction(x) => CommandType::ReRunExtraction,
            AnyCommand::AssignFieldValue(x) => CommandType::AssignFieldValue,
            AnyCommand::LockField(x) => CommandType::LockField,
            AnyCommand::AddItemRow(x) => CommandType::AddItemRow,
            AnyCommand::DeleteItemRow(x) => CommandType::DeleteItemRow,
            AnyCommand::AssignItemValue(x) => CommandType::AssignItemValue,
            AnyCommand::LockItemRow(x) => CommandType::LockItemRow,
            AnyCommand::AddExtraRow(x) => CommandType::AddExtraRow,
            AnyCommand::AssignExtraValue(x) => CommandType::AssignExtraValue,
            AnyCommand::AddAnchorRule(x) => CommandType::AddAnchorRule,
            AnyCommand::DisableAnchorRule(x) => CommandType::DisableAnchorRule,
            AnyCommand::AddDictionaryRule(x) => CommandType::AddDictionaryRule,
            AnyCommand::DisableDictionaryRule(x) => CommandType::DisableDictionaryRule,
            AnyCommand::ResolveReviewTask(x) => CommandType::ResolveReviewTask,
            AnyCommand::SkipReviewTask(x) => CommandType::SkipReviewTask,
            AnyCommand::BatchResolveField(x) => CommandType::BatchResolveField,
            AnyCommand::RunValidation(x) => CommandType::RunValidation,
            AnyCommand::OverrideValidation(x) => CommandType::OverrideValidation,
            AnyCommand::ExportSession(x) => CommandType::ExportSession,
        }
    }

    /// The session this command operates on, if it is session-scoped.
    pub fn session_id(&self) -> (r: Option<u128>)
        ensures
            r == spec_session_id(*self),
    {
        match self {
            AnyCommand::CreateSession(x) => Option::None,
            AnyCommand::CreateCorrectionSession(x) => Option::None,
            AnyCommand::LockSession(x) => Option::Some(x.payload.session_id),
            AnyCommand::PinSession(x) => Option::Some(x.payload.session_id),
            AnyCommand::ImportDocument(x) => Option::Some(x.payload.session_id),
            AnyCommand::ConfirmDuplicate(x) => Option::Some(x.payload.session_id),
            AnyCommand::ApplyPreprocessing(x) => Option::Some(x.payload.session_id),
            AnyCommand::ReprocessDocument(x) => Option::Some(x.payload.session_id),
            AnyCommand::RunExtraction(x) => Option::Some(x.payload.session_id),
            AnyCommand::ReRunExtraction(x) => Option::Some(x.payload.session_id),
            AnyCommand::AssignFieldValue(x) => Option::Some(x.payload.session_id),
            AnyCommand::LockField(x) => Option::Some(x.payload.session_id),
            AnyCommand::AddItemRow(x) => Option::Some(x.payload.session_id),
            AnyCommand::DeleteItemRow(x) => Option::Some(x.payload.session_id),
            AnyCommand::AssignItemValue(x) => Option::Some(x.payload.session_id),
            AnyCommand::LockItemRow(x) => Option::Some(x.payload.session_id),
            AnyCommand::AddExtraRow(x) => Option::Some(x.payload.session_id),
            AnyCommand::AssignExtraValue(x) => Option::Some(x.payload.session_id),
            AnyCommand::AddAnchorRule(x) => Option::None,
            AnyCommand::DisableAnchorRule(x) => Option::None,
            AnyCommand::AddDictionaryRule(x) => Option::None,
            AnyCommand::DisableDictionaryRule(x) => Option::None,
            AnyCommand::ResolveReviewTask(x) => Option::Some(x.payload.session_id),
            AnyCommand::SkipReviewTask(x) => Option::Some(x.payload.session_id),
            AnyCommand::BatchResolveField(x) => Option::Some(x.payload.session_id),
            AnyCommand::RunValidation(x) => Option::Some(x.payload.session_id),
            AnyCommand::OverrideValidation(x) => Option::Some(x.payload.session_id),
            AnyCommand::ExportSession(x) => Option::Some(x.payload.session_id),
        }
    }

    /// The actor that issued this command.
    pub fn actor(&self) -> (r: &str)
        ensures
            r@ == spec_actor(*self),
    {
        match self {
            AnyCommand::CreateSession(x) => x.actor.as_str(),
            AnyCommand::CreateCorrectionSession(x) => x.actor.as_str(),
            AnyCommand::LockSession(x) => x.actor.as_str(),
            AnyCommand::PinSession(x) => x.actor.as_str(),
            AnyCommand::ImportDocument(x) => x.actor.as_str(),
            AnyCommand::ConfirmDuplicate(x) => x.actor.as_str(),
            AnyCommand::ApplyPreprocessing(x) => x.actor.as_str(),
            AnyCommand::ReprocessDocument(x) => x.actor.as_str(),
            AnyCommand::RunExtraction(x) => x.actor.as_str(),
            AnyCommand::ReRunExtraction(x) => x.actor.as_str(),
            AnyCommand::AssignFieldValue(x) => x.actor.as_str(),
            AnyCommand::LockField(x) => x.actor.as_str(),
            AnyCommand::AddItemRow(x) => x.actor.as_str(),
            AnyCommand::DeleteItemRow(x) => x.actor.as_str(),
            AnyCommand::AssignItemValue(x) => x.actor.as_str(),
            AnyCommand::LockItemRow(x) => x.actor.as_str(),
            AnyCommand::AddExtraRow(x) => x.actor.as_str(),
            AnyCommand::AssignExtraValue(x) => x.actor.as_str(),
            AnyCommand::AddAnchorRule(x) => x.actor.as_str(),
            AnyCommand::DisableAnchorRule(x) => x.actor.as_str(),
            AnyCommand::AddDictionaryRule(x) => x.actor.as_str(),
            AnyCommand::DisableDictionaryRule(x) => x.actor.as_str(),
            AnyCommand::ResolveReviewTask(x) => x.actor.as_str(),
            AnyCommand::SkipReviewTask(x) => x.actor.as_str(),
            AnyCommand::BatchResolveField(x) => x.actor.as_str(),
            AnyCommand::RunValidation(x) => x.actor.as_str(),
            AnyCommand::OverrideValidation(x) => x.actor.as_str(),
            AnyCommand::ExportSession(x) => x.actor.as_str(),
        }
    }

    /// The caller-supplied timestamp of this command.
    pub fn timestamp(&self) -> (r: i64)
        ensures
            r == spec_timestamp(*self),
    {
        match self {
            AnyCommand::CreateSession(x) => x.timestamp,
            AnyCommand::CreateCorrectionSession(x) => x.timestamp,
            AnyCommand::LockSession(x) => x.timestamp,
            AnyCommand::PinSession(x) => x.timestamp,
            AnyCommand::ImportDocument(x) => x.timestamp,
            AnyCommand::ConfirmDuplicate(x) => x.timestamp,
            AnyCommand::ApplyPreprocessing(x) => x.timestamp,
            AnyCommand::ReprocessDocument(x) => x.timestamp,
            AnyCommand::RunExtraction(x) => x.timestamp,
            AnyCommand::ReRunExtraction(x) => x.timestamp,
            AnyCommand::AssignFieldValue(x) => x.timestamp,
            AnyCommand::LockField(x) => x.timestamp,
            AnyCommand::AddItemRow(x) => x.timestamp,
            AnyCommand::DeleteItemRow(x) => x.timestamp,
            AnyCommand::AssignItemValue(x) => x.timestamp,
            AnyCommand::LockItemRow(x) => x.timestamp,
            AnyCommand::AddExtraRow(x) => x.timestamp,
            AnyCommand::AssignExtraValue(x) => x.timestamp,
            AnyCommand::AddAnchorRule(x) => x.timestamp,
            AnyCommand::DisableAnchorRule(x) => x.timestamp,
            AnyCommand::AddDictionaryRule(x) => x.timestamp,
            AnyCommand::DisableDictionaryRule(x) => x.timestamp,
            AnyCommand::ResolveReviewTask(x) => x.timestamp,
            AnyCommand::SkipReviewTask(x) => x.timestamp,
            AnyCommand::BatchResolveField(x) => x.timestamp,
            AnyCommand::RunValidation(x) => x.timestamp,
            AnyCommand::OverrideValidation(x) => x.timestamp,
            AnyCommand::ExportSession(x) => x.timestamp,
        }
    }
}

impl Clone for AnyCommand {
    fn clone(&self) -> (res: Self)
        ensures
            cmd_eq(*self, res),
            spec_command_id(res) == spec_command_id(*self),
            spec_command_type(res) == spec_command_type(*self),
            spec_session_id(res) == spec_session_id(*self),
    {
        match self {
            AnyCommand::CreateSession(x) => AnyCommand::CreateSession(x.clone()),
            AnyCommand::CreateCorrectionSession(x) => AnyCommand::CreateCorrectionSession(x.clone()),
            AnyCommand::LockSession(x) => AnyCommand::LockSession(x.clone()),
            AnyCommand::PinSession(x) => AnyCommand::PinSession(x.clone()),
            AnyCommand::ImportDocument(x) => AnyCommand::ImportDocument(x.clone()),
            AnyCommand::ConfirmDuplicate(x) => AnyCommand::ConfirmDuplicate(x.clone()),
            AnyCommand::ApplyPreprocessing(x) => AnyCommand::ApplyPreprocessing(x.clone()),
            AnyCommand::ReprocessDocument(x) => AnyCommand::ReprocessDocument(x.clone()),
            AnyCommand::RunExtraction(x) => AnyCommand::RunExtraction(x.clone()),
            AnyCommand::ReRunExtraction(x) => AnyCommand::ReRunExtraction(x.clone()),
            AnyCommand::AssignFieldValue(x) => AnyCommand::AssignFieldValue(x.clone()),
            AnyCommand::LockField(x) => AnyCommand::LockField(x.clone()),
            AnyCommand::AddItemRow(x) => AnyCommand::AddItemRow(x.clone()),
            AnyCommand::DeleteItemRow(x) => AnyCommand::DeleteItemRow(x.clone()),
            AnyCommand::AssignItemValue(x) => AnyCommand::AssignItemValue(x.clone()),
            AnyCommand::LockItemRow(x) => AnyCommand::LockItemRow(x.clone()),
            AnyCommand::AddExtraRow(x) => AnyCommand::AddExtraRow(x.clone()),
            AnyCommand::AssignExtraValue(x) => AnyCommand::AssignExtraValue(x.clone()),
            AnyCommand::AddAnchorRule(x) => AnyCommand::AddAnchorRule(x.clone()),
            AnyCommand::DisableAnchorRule(x) => AnyCommand::DisableAnchorRule(x.clone()),
            AnyCommand::AddDictionaryRule(x) => AnyCommand::AddDictionaryRule(x.clone()),
            AnyCommand::DisableDictionaryRule(x) => AnyCommand::DisableDictionaryRule(x.clone()),
            AnyCommand::ResolveReviewTask(x) => AnyCommand::ResolveReviewTask(x.clone()),
            AnyCommand::SkipReviewTask(x) => AnyCommand::SkipReviewTask(x.clone()),
            AnyCommand::BatchResolveField(x) => AnyCommand::BatchResolveField(x.clone()),
            AnyCommand::RunValidation(x) => AnyCommand::RunValidation(x.clone()),
            AnyCommand::OverrideValidation(x) => AnyCommand::OverrideValidation(x.clone()),
            AnyCommand::ExportSession(x) => AnyCommand::ExportSession(x.clone()),
        }
    }
}

} // verus!
