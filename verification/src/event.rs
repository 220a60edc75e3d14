//! The data handed to the facade on every log call.

use vstd::prelude::*;

verus! {

/// Severity of a log occurrence, most severe first.
#[derive(Clone, Copy, Debug, PartialEq, Eq, Structural)]
pub enum Level {
    Error,
    Warn,
    Info,
    Debug,
    Trace,
}

/// What is known of a call site before any event is built: enough for a
/// logger to say whether it would record an event from there.
#[derive(Clone, Copy, Debug, PartialEq, Eq)]
pub struct Metadata {
    /// How severe an event from this call site is.
    pub level: Level,
    /// The part of the system that the call site belongs to.
    pub target: &'static str,
    /// The module of the call site.
    pub module: &'static str,
    /// The source file of the call site, and the line in it.
    pub location: &'static str,
}

/// One log occurrence.
#[derive(Clone, Debug, PartialEq, Eq)]
pub struct Event {
    /// Where the event comes from, and how severe it is.
    pub metadata: Metadata,
    /// The text of the event; empty where the fields say it all.
    pub message: String,
    /// The structured fields, each a key and the text of its value.
    pub fields: Vec<(String, String)>,
    /// When the event occurred, in microseconds since the Unix epoch.
    pub timestamp_usecs: u64,
}

} // verus!
