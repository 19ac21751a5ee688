//! Severity of a log record.

use vstd::prelude::*;

verus! {

/// The severity at which a record is logged, most severe first.
#[derive(Debug, Clone, Copy, PartialEq, Eq, Structural)]
pub enum Level {
    Error,
    Warn,
    Info,
    Debug,
    Trace,
}

/// A line for a logger: its severity and its text.
#[derive(Debug, Clone)]
pub struct LogRecord {
    pub level: Level,
    pub text: String,
}

} // verus!
