//! Core logic of an interactive single-host packet monitor.
//!
//! The library holds everything with real branching logic and state: the
//! packet classifier (raw bytes to a one-line summary), the include/exclude
//! filter predicate, the throttled statistics tracker, the bounded display
//! buffer, and the capture/UI state machine that ties them together. The
//! surrounding program supplies devices, raw frames, key events and
//! timestamps, and performs all rendering and I/O.

pub mod fmt;
pub mod text;
pub mod filter;
pub mod classify;
pub mod buffer;
pub mod stats;
pub mod session;
pub mod config;
