//! Structured records emitted by the default sinks. Instead of writing to a
//! process-wide logger, a default sink appends records here so that callers
//! (and tests) can observe exactly what was reported; an outer layer may
//! format and forward them to any logging facility.

use vstd::prelude::*;

use crate::events::{
    AckEvent, BlockedEvent, CloseEvent, FlowEvent, MessageProperties, NackEvent, ReturnEvent,
};

verus! {

/// Severity of a log record.
#[derive(Clone, Copy, Debug, PartialEq, Eq, Structural)]
pub enum LogLevel {
    Error,
    Warn,
    Info,
}

/// One structured entry emitted by a default sink, carrying the event record
/// it reports. A returned message yields one header entry followed by one
/// body entry: the body rendered as text when it is valid UTF-8, otherwise a
/// diagnostic with the byte length.
#[derive(Clone, Debug, PartialEq, Eq)]
pub enum LogRecord {
    ConnectionClosed(CloseEvent),
    ConnectionBlocked(BlockedEvent),
    ConnectionUnblocked,
    ChannelClosed(CloseEvent),
    ChannelFlow(FlowEvent),
    PublishAcked(AckEvent),
    PublishNacked(NackEvent),
    PublishReturned(ReturnEvent, MessageProperties),
    ReturnedBodyText(String),
    ReturnedBodyNotText(usize),
}

impl LogRecord {
    /// Severity of this record: closures are errors, an undecodable returned
    /// body is a warning, everything else is informational.
    pub open spec fn spec_level(self) -> LogLevel {
        match self {
            LogRecord::ConnectionClosed(_) => LogLevel::Error,
            LogRecord::ChannelClosed(_) => LogLevel::Error,
            LogRecord::ReturnedBodyNotText(_) => LogLevel::Warn,
            _ => LogLevel::Info,
        }
    }

    /// Executable severity, equal to `spec_level`.
    pub fn level(&self) -> (r: LogLevel)
        ensures
            r == self.spec_level(),
    {
        match self {
            LogRecord::ConnectionClosed(_) => LogLevel::Error,
            LogRecord::ChannelClosed(_) => LogLevel::Error,
            LogRecord::ReturnedBodyNotText(_) => LogLevel::Warn,
            _ => LogLevel::Info,
        }
    }
}

} // verus!
