use vstd::prelude::*;

use crate::commands::AnyCommand;
use crate::errors::DomainResult;
use crate::types::{CommandType, DispatchResult, EventEnvelope, SessionStatusTransition};

verus! {

/// Opaque effect summary a handler computed, plus the structured payload the
/// projection writer consumes.
#[derive(Debug)]
pub struct StateDelta {
    pub summary: String,
    pub data: String,
}

impl Clone for StateDelta {
    fn clone(&self) -> (res: Self)
        ensures
            res == *self,
    {
        StateDelta { summary: self.summary.clone(), data: self.data.clone() }
    }
}

/// A side effect for the human-review subsystem.
#[derive(Debug)]
pub struct ReviewAction {
    pub kind: String,
    pub payload: String,
}

impl Clone for ReviewAction {
    fn clone(&self) -> (res: Self)
        ensures
            res == *self,
    {
        ReviewAction { kind: self.kind.clone(), payload: self.payload.clone() }
    }
}

/// Whether validation work must be scheduled after a command is applied.
#[derive(Clone, Copy, Debug, PartialEq, Eq, Structural)]
pub enum ValidationTrigger {
    NotRequired,
    Async,
    Sync,
}

/// The business effect a handler computed for an accepted command, prior to
/// being turned into events and projection updates.
#[derive(Debug)]
pub struct CommandOutcome {
    pub state_delta: StateDelta,
    pub transition: Option<SessionStatusTransition>,
    pub review_actions: Vec<ReviewAction>,
    pub validation_trigger: ValidationTrigger,
}

impl Clone for CommandOutcome {
    fn clone(&self) -> (res: Self)
        ensures
            res.state_delta == self.state_delta,
            res.transition == self.transition,
            res.review_actions@ == self.review_actions@,
            res.validation_trigger == self.validation_trigger,
    {
        let mut actions: Vec<ReviewAction> = Vec::new();
        let n = self.review_actions.len();
        let mut i: usize = 0;
        while i < n
            invariant
                n == self.review_actions@.len(),
                0 <= i <= n,
                actions@.len() == i,
                forall|j: int| 0 <= j < i ==> actions@[j] == self.review_actions@[j],
            decreases n - i,
        {
            actions.push(self.review_actions[i].clone());
            i += 1;
        }
        proof {
            assert(actions@ =~= self.review_actions@);
        }
        CommandOutcome {
            state_delta: self.state_delta.clone(),
            transition: self.transition,
            review_actions: actions,
            validation_trigger: self.validation_trigger,
        }
    }
}

/// Per-dispatch context handed to the handler: the kernel's clock reading
/// and the requesting actor.
#[derive(Debug)]
pub struct CommandContext {
    pub now: i64,
    pub actor: String,
}

/// What the idempotency store found when a dispatch began.
#[derive(Debug)]
pub enum IdempotencyState {
    New,
    Replay(DispatchResult),
    Conflict,
}

/// One registered command handler; the business logic behind one or more
/// command kinds is implemented outside this kernel against this trait.
pub trait GenericCommandHandler {
    /// Which command types this handler is capable of.
    spec fn handles(&self, command_type: CommandType) -> bool;

    /// Reports whether this handler is capable of the given command type.
    fn can_handle(&self, command_type: CommandType) -> (r: bool)
        ensures
            r == self.handles(command_type),
    ;

    /// Computes the business effect of the command. Any error aborts the
    /// enclosing dispatch.
    fn handle(&self, ctx: &mut CommandContext, cmd: &AnyCommand) -> DomainResult<CommandOutcome>;
}

/// Derives the domain events caused by an accepted command's outcome.
pub trait EventFactory {
    fn build_events(&self, command: &AnyCommand, outcome: &CommandOutcome) -> DomainResult<
        Vec<EventEnvelope>,
    >;
}

/// Post-commit consistency check over the affected aggregate; any violation
/// aborts the enclosing dispatch.
pub trait InvariantEngine {
    fn assert_all(&self, session_id: Option<u128>) -> DomainResult<()>;
}

} // verus!
