//! An asynchronous transport gateway core: TCP and UDP endpoints are exposed
//! through one uniform abstraction (`Gate`, `GateListener`, `GateAccept`), so
//! that an application can send and receive byte payloads without
//! distinguishing connection-oriented from connectionless transport.
//!
//! This crate holds the verified logic: the connection data model, the
//! connection registry, the per-transport read/write decision steps, the
//! accept backoff policy, and the small utility layers around them
//! (error types, level parsing, token signing, configuration models).
//! The asynchronous socket loops themselves live outside the library and
//! drive these functions.

pub mod conf;
pub mod daemon;
pub mod dbx;
pub mod exception;
pub mod logger;
pub mod net;
pub mod utils;
