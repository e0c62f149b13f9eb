//! A command dispatch and session state-transition kernel: one incoming
//! command addressed to a session-scoped aggregate is applied effectively
//! exactly once, checked against the session's lifecycle status, handed to
//! the registered handler for its business effect, and materialized as a
//! projection update plus a non-empty stream of domain events — or refused
//! with a precise failure and no visible change.

mod clock;
mod eventid;

pub mod command_router;
pub mod commands;
pub mod dispatcher_impl;
pub mod errors;
pub mod in_memory_reference_impl;
pub mod interfaces;
pub mod transition_policy;
pub mod types;
pub mod umap;
