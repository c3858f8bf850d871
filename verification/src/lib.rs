//! A bounded worker pool with cooperative shutdown, modeled and verified.
//!
//! The pool executes submitted units of work on a fixed number of background
//! workers, coordinated through a closable FIFO job queue and a process-wide
//! shutdown flag.  Job failures are isolated per job; a poisoned queue guard
//! retires only the affected worker.  The surrounding process (threads,
//! signal handling, file and console output) drives these verified state
//! machines from outside the crate.

pub mod cli;
pub mod logger;
pub mod pool;
pub mod server;
pub mod signal;

pub use logger::LogLevel;
