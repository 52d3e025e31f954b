//! The engine's events.
//!
//! `dispatch::begin_event` takes an event in, and `dispatch::resume_event` goes on with it after
//! each answer of the host; `pass` takes in one event after the other. What a step does is stated by
//! a predicate on the state before it, the state after it and the step itself; the function `on_..`
//! of the same name takes the step.

pub mod agents;
pub mod dispatch;
pub mod laws;
pub mod pass;
pub mod runs;
pub mod session;
pub mod session_laws;
pub mod stream;
pub mod stream_laws;
pub mod tool_laws;
pub mod tools;
pub mod turn;
pub mod turn_laws;
pub mod types;
