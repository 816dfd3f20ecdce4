//! Verified client-side core for a remote experiment-orchestration worker.
//!
//! The library models the JSON wire values exchanged with the worker, decodes
//! the event-feed envelope and its document payloads, correlates feed messages
//! against one tracked task, and drives the submit-and-watch state machine as
//! well as the environment-reload poll. All decisions are verified; the
//! surrounding HTTP and broker I/O lives outside the library.

pub mod cli;
pub mod control;
pub mod entities;
pub mod feed;
pub mod json;
pub mod messages;
pub mod run;

pub use json::{JsonNum, JsonValue};
