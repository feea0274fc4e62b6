//! Orchestration of bulk transfers that an external data-transfer tool performs:
//! the command lines to launch, the parsing of its structured log into progress
//! events, the registry of cancellable processes and the life cycle of one
//! transfer. Nothing here launches a process, reads a stream or sends a signal:
//! that is left to the caller, which hands over plain values and acts on what it
//! gets back.

pub mod command;
pub mod dispatch;
pub mod format;
pub mod parser;
pub mod progress;
pub mod registry;
pub mod remote;
pub mod runner;
pub mod text;
