//! A scaffold for interactive, real-time programs.
//!
//! Two parts carry the invariants. [`resources`] is a cache of assets that
//! are loaded on demand: it decides when a loaded instance is used again,
//! when it has to be loaded afresh and when it is dropped, under three
//! retention policies. [`state_machine`] is a stack of application states:
//! the active state is handed the events of the loop, and what it answers
//! changes the stack.
//!
//! The library opens no window, reads no file and draws nothing. The loop
//! around it fetches the events, loads what the cache asks for and sets up
//! the frames.

pub mod resources;
pub mod state_machine;

pub use resources::{Resource, Resources};
pub use state_machine::{State, StateMachine, StateTransition};
