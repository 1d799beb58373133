//! A log event as the emitting and receiving code sees it, before it is put
//! into boundary form and after it is read back.

use vstd::prelude::*;
use crate::level::LogLevel;

verus! {

/// What an optional piece of text denotes: nothing, or its characters.
pub open spec fn opt_text(text: Option<&str>) -> Option<Seq<char>> {
    match text {
        None => None,
        Some(s) => Some(s@),
    }
}

/// Severity and category of an event.
#[derive(Clone, Copy, Debug)]
pub struct EventMetadata<'a> {
    pub level: LogLevel,
    /// Name of the subsystem that the event belongs to.
    pub target: &'a str,
}

/// What an `EventMetadata` denotes.
pub struct MetadataModel {
    pub level: LogLevel,
    pub target: Seq<char>,
}

impl<'a> View for EventMetadata<'a> {
    type V = MetadataModel;

    open spec fn view(&self) -> MetadataModel {
        MetadataModel { level: self.level, target: self.target@ }
    }
}

/// One log event. The message is already formatted.
#[derive(Clone, Copy, Debug)]
pub struct LogEvent<'a> {
    pub metadata: EventMetadata<'a>,
    pub message: &'a str,
    pub module: Option<&'a str>,
    pub file: Option<&'a str>,
    /// Source line, where it is known.
    pub line: Option<u32>,
}

/// What a `LogEvent` denotes: its six fields, with absent fields kept
/// apart from empty ones.
pub struct EventModel {
    pub level: LogLevel,
    pub target: Seq<char>,
    pub message: Seq<char>,
    pub module: Option<Seq<char>>,
    pub file: Option<Seq<char>>,
    pub line: Option<u32>,
}

impl<'a> View for LogEvent<'a> {
    type V = EventModel;

    open spec fn view(&self) -> EventModel {
        EventModel {
            level: self.metadata.level,
            target: self.metadata.target@,
            message: self.message@,
            module: opt_text(self.module),
            file: opt_text(self.file),
            line: self.line,
        }
    }
}

} // verus!
