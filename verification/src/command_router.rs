use vstd::prelude::*;

use crate::commands::{spec_command_type, AnyCommand};
use crate::errors::{DomainError, DomainResult, ErrorCode, ErrorDetails};
use crate::interfaces::GenericCommandHandler;
use crate::types::CommandType;

verus! {

/// The type tag of a command; equal to `AnyCommand::command_type`.
pub fn command_type(command: &AnyCommand) -> (r: CommandType)
    ensures
        r == spec_command_type(*command),
{
    command.command_type()
}

/// Maps a command's type tag to the one registered handler capable of it.
/// Resolution is a linear scan; the first match wins, so handlers should be
/// mutually exclusive by type tag.
pub struct CommandRouter<H: GenericCommandHandler> {
    handlers: Vec<H>,
}

impl<H: GenericCommandHandler> CommandRouter<H> {
    /// The registered handlers, in registration order.
    pub closed spec fn spec_handlers(self) -> Seq<H> {
        self.handlers@
    }

    /// A router with no handlers.
    pub fn new() -> (r: Self)
        ensures
            r.spec_handlers() == Seq::<H>::empty(),
    {
        CommandRouter { handlers: Vec::new() }
    }

    /// A router over the given handlers.
    pub fn with_handlers(handlers: Vec<H>) -> (r: Self)
        ensures
            r.spec_handlers() == handlers@,
    {
        CommandRouter { handlers }
    }

    /// Registers one more handler, after all already registered.
    pub fn register(&mut self, handler: H)
        ensures
            final(self).spec_handlers() == old(self).spec_handlers().push(handler),
    {
        self.handlers.push(handler);
    }

    /// The registered handlers.
    pub fn handlers(&self) -> (r: &Vec<H>)
        ensures
            r@ == self.spec_handlers(),
    {
        &self.handlers
    }

    /// The first registered handler capable of the command's type tag;
    /// fails with `NotFound` if none reports itself capable.
    pub fn resolve(&self, command: &AnyCommand) -> (r: DomainResult<&H>)
        ensures
            ({
                let ct = spec_command_type(*command);
                let hs = self.spec_handlers();
                match r {
                    Result::Ok(h) => exists|i: int|
                        0 <= i < hs.len() && *h == hs[i] && (#[trigger] hs[i]).handles(ct)
                            && (forall|j: int| 0 <= j < i ==> !(#[trigger] hs[j]).handles(ct)),
                    Result::Err(e) => e.code is NotFound && forall|i: int|
                        0 <= i < hs.len() ==> !(#[trigger] hs[i]).handles(ct),
                }
            }),
    {
        let ct = command.command_type();
        let n = self.handlers.len();
        let mut i: usize = 0;
        while i < n
            invariant
                n == self.handlers@.len(),
                0 <= i <= n,
                ct == spec_command_type(*command),
                forall|j: int| 0 <= j < i ==> !(#[trigger] self.handlers@[j]).handles(ct),
            decreases n - i,
        {
            if self.handlers[i].can_handle(ct) {
                let h = &self.handlers[i];
                proof {
                    let hs = self.spec_handlers();
                    assert(exists|ii: int|
                        0 <= ii < hs.len() && *h == hs[ii] && (#[trigger] hs[ii]).handles(ct)
                            && (forall|j: int| 0 <= j < ii ==> !(#[trigger] hs[j]).handles(ct)))
                        by {
                        let ii = i as int;
                        assert(0 <= ii < hs.len() && *h == hs[ii] && hs[ii].handles(ct) && (forall|j: int|
                            0 <= j < ii ==> !(#[trigger] hs[j]).handles(ct)));
                    }
                }
                return Result::Ok(h);
            }
            i += 1;
        }
        Result::Err(
            DomainError {
                code: ErrorCode::NotFound,
                message: "No handler registered for command type".to_string(),
                details: Option::Some(ErrorDetails::CommandType(ct)),
            },
        )
    }
}

impl<H: GenericCommandHandler> Default for CommandRouter<H> {
    fn default() -> (r: Self)
        ensures
            r.spec_handlers() == Seq::<H>::empty(),
    {
        Self::new()
    }
}

} // verus!
