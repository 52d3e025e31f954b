//! Decisions of a terminal chat client's event loop.
//!
//! The client reacts to four streams of events: what the model engine reports, keys pressed
//! during first-run onboarding, keys pressed afterwards, and the other terminal events (paste,
//! focus, resize, mouse). Each stream has a machine here. A machine is handed an event, updates
//! the state that it owns and answers with the effects that the host has to carry out, in order;
//! where the continuation depends on what an effect returned, the host hands the answer back and
//! the machine goes on.

pub mod engine;
pub mod keyboard;
pub mod keys;
pub mod notices;
pub mod onboarding;
pub mod onboarding_laws;
pub mod progress;
pub mod state;
pub mod step;
pub mod terminal;
pub mod terminal_laws;
pub mod text;

