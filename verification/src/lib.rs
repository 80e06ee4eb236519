//! Verified core of a binding layer for a native speech-recognition engine.
//!
//! The crate holds everything about the binding that can be decided on plain
//! values: how text crosses the language boundary, how a native configuration
//! is assembled, and in which order native calls are made so that every
//! native resource is released exactly once. The calls themselves are made by
//! a thin shell that follows the steps this crate hands out.

pub mod bridge;
pub mod config;
pub mod protocol;
pub mod transcribe;
