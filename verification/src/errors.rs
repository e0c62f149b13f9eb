use vstd::prelude::*;

use crate::types::{CommandType, SessionStatus};

verus! {

/// The closed taxonomy of failures this kernel reports.
#[derive(Clone, Copy, Debug, PartialEq, Eq, Structural)]
pub enum ErrorCode {
    SessionLocked,
    InvalidStateTransition,
    CommandNotAllowedInState,
    IdempotencyConflict,
    PreconditionFailed,
    InvariantViolation,
    NotFound,
    Internal,
}

/// Structured detail attached to a `DomainError`: the offending command type,
/// the command type with the status it was refused in, the illegal status
/// pair, or the identifier involved.
#[derive(Clone, Copy, Debug, PartialEq, Eq, Structural)]
pub enum ErrorDetails {
    CommandType(CommandType),
    CommandInStatus(CommandType, SessionStatus),
    Transition(SessionStatus, SessionStatus),
    CommandId(u128),
    SessionId(u128),
}

/// A failure of one dispatch: its code, a human-readable message, and
/// optional structured detail.
#[derive(Debug)]
pub struct DomainError {
    pub code: ErrorCode,
    pub message: String,
    pub details: Option<ErrorDetails>,
}

impl Clone for DomainError {
    fn clone(&self) -> (res: Self)
        ensures
            res == *self,
    {
        DomainError { code: self.code, message: self.message.clone(), details: self.details }
    }
}

pub type DomainResult<T> = Result<T, DomainError>;

} // verus!
