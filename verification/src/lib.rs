//! Safe lifecycle core for a foreign-owned video capture stream.
//!
//! The library models the boundary between a native device layer that
//! delivers frames asynchronously and typed, closure-based user code: a
//! negotiated [`stream::StreamHandle`] is consumed to start delivery, the
//! user callback and its state live in a [`cell::CallbackCell`] for exactly
//! as long as the [`stream::ActiveStream`] exists, and teardown always stops
//! delivery before the cell is released.

pub mod cell;
pub mod error;
pub mod frame;
pub mod session;
pub mod stream;
