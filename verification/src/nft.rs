//! The registry of non-fungible assets: minting, transfer and ownership.
//!
//! - [`token`]: the token record and its description.
//! - [`error`], [`event`]: why a call is refused, and what a committed call
//!   gives out.
//! - [`model`]: the state of the registry as a mathematical value.
//! - [`registry`]: the registry over state held in memory.
//! - [`laws`]: what holds of minting, transfer and ownership.

pub mod error;
pub mod event;
pub mod laws;
pub mod model;
pub mod registry;
pub mod token;
