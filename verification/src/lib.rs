//! A process-lifecycle supervisor and status-streaming bridge: the logic
//! of a desktop shell that starts and stops one child server process
//! exactly once at a time, forwards configuration and control requests to
//! it, and converts its remote polling API into a push-based event stream
//! with delta log delivery and terminal-state detection.
//!
//! The library holds the decisions; the surrounding binary performs the
//! process spawns, HTTP exchanges and event publication and hands their
//! outcomes in as plain values.
pub mod data;
pub mod facade;
pub mod poller;
pub mod supervisor;
