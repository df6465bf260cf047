//! The verified core of a static site generator and of its development
//! server: watch the sources, rebuild when they change, and tell the
//! connected browsers to reload once the rebuild has succeeded.
//!
//! The development server is a state machine. Every decision of its loop is
//! taken here, as a function from a state and an event to the next state and
//! the actions to carry out; waiting for events and carrying the actions out
//! is left to the program around this crate.
//!
//! - [`change`] collapses a burst of filesystem events into one batch.
//! - [`rebuild`] runs one build at a time, in the order of the batches.
//! - [`websocket`] keeps the registry of the live-reload clients.
//! - [`serve`] puts the three together.
//!
//! The other modules hold what the build pipeline is set up with, and the
//! rules by which it reads and selects the posts.

pub mod args;
pub mod change;
pub mod compilers;
pub mod config;
pub mod error;
pub mod meta;
pub mod post_cache;
pub mod rebuild;
pub mod serve;
pub mod websocket;
