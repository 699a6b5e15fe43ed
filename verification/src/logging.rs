//! Driver diagnostics: from the arguments of the context's debug callback
//! to a log record.
use vstd::prelude::*;
use crate::gl::{
    DEBUG_SEVERITY_HIGH, DEBUG_SEVERITY_LOW, DEBUG_SEVERITY_MEDIUM, DEBUG_SOURCE_API,
    DEBUG_SOURCE_APPLICATION, DEBUG_SOURCE_OTHER, DEBUG_SOURCE_THIRD_PARTY,
    DEBUG_SOURCE_WINDOW_SYSTEM, DEBUG_TYPE_DEPRECATED_BEHAVIOR, DEBUG_TYPE_ERROR,
    DEBUG_TYPE_MARKER, DEBUG_TYPE_OTHER, DEBUG_TYPE_PERFORMANCE, DEBUG_TYPE_POP_GROUP,
    DEBUG_TYPE_PORTABILITY, DEBUG_TYPE_PUSH_GROUP, DEBUG_TYPE_UNDEFINED_BEHAVIOR,
};
use crate::text::{decimal, decimal_digits};

verus! {

/// How much a log record matters.
#[derive(Clone, Copy, Debug, PartialEq, Eq, Structural)]
pub enum LogLevel {
    Error,
    Warn,
    Info,
    Debug,
}

/// One line for the log.
#[derive(Debug, PartialEq, Eq)]
pub struct LogRecord {
    pub level: LogLevel,
    pub text: String,
}

/// What a [`LogRecord`] holds.
pub struct LogLine {
    pub level: LogLevel,
    pub text: Seq<char>,
}

impl View for LogRecord {
    type V = LogLine;

    open spec fn view(&self) -> LogLine {
        LogLine { level: self.level, text: self.text@ }
    }
}

/// The records of a list, each by what it holds.
pub open spec fn lines(records: Seq<LogRecord>) -> Seq<LogLine> {
    records.map_values(|record: LogRecord| record@)
}

/// The level of a driver message: high severity is an error, medium a
/// warning, low an information, anything else is for debugging.
pub open spec fn severity_level(severity: u32) -> LogLevel {
    if severity == DEBUG_SEVERITY_HIGH {
        LogLevel::Error
    } else if severity == DEBUG_SEVERITY_MEDIUM {
        LogLevel::Warn
    } else if severity == DEBUG_SEVERITY_LOW {
        LogLevel::Info
    } else {
        LogLevel::Debug
    }
}

/// The label of a message source, `[UNKNOWN]` for a value that names none.
pub open spec fn source_label(source: u32) -> Seq<char> {
    if source == DEBUG_SOURCE_API {
        "[GL_DEBUG_SOURCE_API]"@
    } else if source == DEBUG_SOURCE_WINDOW_SYSTEM {
        "[GL_DEBUG_SOURCE_WINDOW_SYSTEM]"@
    } else if source == DEBUG_SOURCE_THIRD_PARTY {
        "[GL_DEBUG_SOURCE_THIRD_PARTY]"@
    } else if source == DEBUG_SOURCE_APPLICATION {
        "[GL_DEBUG_SOURCE_APPLICATION]"@
    } else if source == DEBUG_SOURCE_OTHER {
        "[GL_DEBUG_SOURCE_OTHER]"@
    } else {
        "[UNKNOWN]"@
    }
}

/// The label of a message type, `[UNKNOWN]` for a value that names none.
pub open spec fn type_label(tp: u32) -> Seq<char> {
    if tp == DEBUG_TYPE_ERROR {
        "[GL_DEBUG_TYPE_ERROR]"@
    } else if tp == DEBUG_TYPE_DEPRECATED_BEHAVIOR {
        "[GL_DEBUG_TYPE_DEPRECATED_BEHAVIOR]"@
    } else if tp == DEBUG_TYPE_UNDEFINED_BEHAVIOR {
        "[GL_DEBUG_TYPE_UNDEFINED_BEHAVIOR]"@
    } else if tp == DEBUG_TYPE_PORTABILITY {
        "[GL_DEBUG_TYPE_PORTABILITY]"@
    } else if tp == DEBUG_TYPE_PERFORMANCE {
        "[GL_DEBUG_TYPE_PERFORMANCE]"@
    } else if tp == DEBUG_TYPE_MARKER {
        "[GL_DEBUG_TYPE_MARKER]"@
    } else if tp == DEBUG_TYPE_PUSH_GROUP {
        "[GL_DEBUG_TYPE_PUSH_GROUP]"@
    } else if tp == DEBUG_TYPE_POP_GROUP {
        "[GL_DEBUG_TYPE_POP_GROUP]"@
    } else if tp == DEBUG_TYPE_OTHER {
        "[GL_DEBUG_TYPE_OTHER]"@
    } else {
        "[UNKNOWN]"@
    }
}

/// The text of a driver message: `#`, the message's number, then the two
/// labels and the driver's words, with one space between them.
pub open spec fn driver_line(source: u32, tp: u32, id: u32, message: Seq<char>) -> Seq<char> {
    "#"@ + decimal_digits(id as nat) + " "@ + source_label(source) + " "@ + type_label(tp) + " "@
        + message
}

fn source_text(source: u32) -> (label: &'static str)
    ensures
        label@ == source_label(source),
{
    if source == DEBUG_SOURCE_API {
        "[GL_DEBUG_SOURCE_API]"
    } else if source == DEBUG_SOURCE_WINDOW_SYSTEM {
        "[GL_DEBUG_SOURCE_WINDOW_SYSTEM]"
    } else if source == DEBUG_SOURCE_THIRD_PARTY {
        "[GL_DEBUG_SOURCE_THIRD_PARTY]"
    } else if source == DEBUG_SOURCE_APPLICATION {
        "[GL_DEBUG_SOURCE_APPLICATION]"
    } else if source == DEBUG_SOURCE_OTHER {
        "[GL_DEBUG_SOURCE_OTHER]"
    } else {
        "[UNKNOWN]"
    }
}

fn type_text(tp: u32) -> (label: &'static str)
    ensures
        label@ == type_label(tp),
{
    if tp == DEBUG_TYPE_ERROR {
        "[GL_DEBUG_TYPE_ERROR]"
    } else if tp == DEBUG_TYPE_DEPRECATED_BEHAVIOR {
        "[GL_DEBUG_TYPE_DEPRECATED_BEHAVIOR]"
    } else if tp == DEBUG_TYPE_UNDEFINED_BEHAVIOR {
        "[GL_DEBUG_TYPE_UNDEFINED_BEHAVIOR]"
    } else if tp == DEBUG_TYPE_PORTABILITY {
        "[GL_DEBUG_TYPE_PORTABILITY]"
    } else if tp == DEBUG_TYPE_PERFORMANCE {
        "[GL_DEBUG_TYPE_PERFORMANCE]"
    } else if tp == DEBUG_TYPE_MARKER {
        "[GL_DEBUG_TYPE_MARKER]"
    } else if tp == DEBUG_TYPE_PUSH_GROUP {
        "[GL_DEBUG_TYPE_PUSH_GROUP]"
    } else if tp == DEBUG_TYPE_POP_GROUP {
        "[GL_DEBUG_TYPE_POP_GROUP]"
    } else if tp == DEBUG_TYPE_OTHER {
        "[GL_DEBUG_TYPE_OTHER]"
    } else {
        "[UNKNOWN]"
    }
}

/// Turns one driver message into the record to log.
pub fn gl_log_callback(source: u32, tp: u32, id: u32, severity: u32, message: &str) -> (record:
    LogRecord)
    ensures
        record.level == severity_level(severity),
        record.text@ == driver_line(source, tp, id, message@),
{
    let mut text = String::from_str("#");
    let number = decimal(id as u64);
    text.append(number.as_str());
    text.append(" ");
    text.append(source_text(source));
    text.append(" ");
    text.append(type_text(tp));
    text.append(" ");
    text.append(message);
    let level = if severity == DEBUG_SEVERITY_HIGH {
        LogLevel::Error
    } else if severity == DEBUG_SEVERITY_MEDIUM {
        LogLevel::Warn
    } else if severity == DEBUG_SEVERITY_LOW {
        LogLevel::Info
    } else {
        LogLevel::Debug
    };
    LogRecord { level, text }
}

} // verus!
