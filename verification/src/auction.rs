//! The auction engine.
//!
//! - [`record`]: the auction record, the bid, and the rules of the lifecycle.
//! - [`error`], [`event`]: why a call is refused, and what a committed call
//!   gives out.
//! - [`model`]: the state of the engine as a mathematical value, with the
//!   verdict and the successor state of each operation.
//! - [`store`]: the engine over state held in memory.
//! - [`preservation`], [`history`], [`laws`], [`chronology`]: the invariant
//!   and what follows from it, for one call and for every history of calls.

pub mod chronology;
pub mod error;
pub mod event;
pub mod history;
pub mod laws;
pub mod model;
pub mod preservation;
pub mod record;
pub mod store;
