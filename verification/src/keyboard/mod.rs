//! The keys outside the onboarding.
//!
//! `front::begin_key` takes a key in, and `dispatch::resume_key` goes on with it after each answer
//! of the host. What a step does is stated by a predicate on the state before it, the state after
//! it and the step itself, or, where the state stays as it is, by a plan for the step alone; the
//! functions `on_..` and `bind_..` take the steps.

pub mod binding_laws;
pub mod bindings;
pub mod char_laws;
pub mod chars;
pub mod dispatch;
pub mod enter;
pub mod enter_laws;
pub mod escape;
pub mod followups;
pub mod front;
pub mod front_laws;
pub mod laws;
pub mod runs;
pub mod types;
