//! Execution core of a serverless isolate: configuration, resource guards,
//! the promise correlation table, and the event-loop decisions that turn the
//! engine's progress into exactly one outcome per invocation.
pub mod compile;
pub mod context;
pub mod event_loop;
pub mod guard;
pub mod laws;
pub mod options;
pub mod outcome;
pub mod promises;
