//! An event-driven client core for a full-duplex, message-oriented connection.
//!
//! The heart of the crate is a reentrancy-safe handler slot: a container for
//! at most one installed event handler that may be swapped out even from
//! inside its own invocation, together with a FIFO buffer for messages and a
//! one-value latch for errors that arrive while no handler is installed.
//! [`client::ClientCore`] composes these pieces and decides, for every
//! transport event, whether a handler is to be invoked or the value is to be
//! buffered; the unverified shell around the crate performs the actual
//! transport I/O and handler invocations.

pub mod client;
pub mod latch;
pub mod laws;
pub mod message;
pub mod queue;
pub mod slot;
