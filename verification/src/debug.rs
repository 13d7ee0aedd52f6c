//! What the debug messenger reports, put into one line of text: with the
//! severity in front where the line is printed, without it where the log
//! shows the level.

use crate::config::{MessageSeverity, MessageType};
use vstd::prelude::*;
use vstd::string::StringExecFns;

verus! {

/// One message of the validation layers.
#[derive(Debug)]
pub struct Message {
    pub severity: MessageSeverity,
    pub ty: MessageType,
    /// The layer that the message comes from, where it names one.
    pub layer_prefix: Option<String>,
    pub description: String,
}

/// How much a message matters to the log.
#[derive(Clone, Copy, Debug, PartialEq, Eq, Structural)]
pub enum LogLevel {
    Error,
    Warn,
    Info,
    Trace,
}

/// The level of a message: that of the gravest severity it has.
pub open spec fn level_of(severity: MessageSeverity) -> LogLevel {
    if severity.error {
        LogLevel::Error
    } else if severity.warning {
        LogLevel::Warn
    } else if severity.information {
        LogLevel::Info
    } else {
        LogLevel::Trace
    }
}

/// The word for a level.
pub open spec fn severity_word(level: LogLevel) -> Seq<char> {
    match level {
        LogLevel::Error => "error"@,
        LogLevel::Warn => "warn"@,
        LogLevel::Info => "info"@,
        LogLevel::Trace => "verb"@,
    }
}

/// The word for a kind of message: general before validation before
/// performance.
pub open spec fn type_word(ty: MessageType) -> Seq<char> {
    if ty.general {
        "gen"@
    } else if ty.validation {
        "val"@
    } else {
        "per"@
    }
}

/// The layer that a message comes from, or `Unknown`.
pub open spec fn prefix_word(layer_prefix: Option<String>) -> Seq<char> {
    match layer_prefix {
        Some(layer) => layer@,
        None => "Unknown"@,
    }
}

/// The line for a message: its severity, kind and layer, each in square
/// brackets, then a space and the description.
pub open spec fn line_for(message: Message) -> Seq<char> {
    "["@ + severity_word(level_of(message.severity)) + "]["@ + type_word(message.ty) + "]["@
        + prefix_word(message.layer_prefix) + "] "@ + message.description@
}

/// The line for a message where the log shows the level by itself: the kind
/// and the layer, each in square brackets, then a space and the description.
pub open spec fn response_for(message: Message) -> Seq<char> {
    "["@ + type_word(message.ty) + "]["@ + prefix_word(message.layer_prefix) + "] "@
        + message.description@
}

/// Computes the level that a message is logged at.
pub fn log_level(severity: &MessageSeverity) -> (level: LogLevel)
    ensures
        level == level_of(*severity),
{
    if severity.error {
        LogLevel::Error
    } else if severity.warning {
        LogLevel::Warn
    } else if severity.information {
        LogLevel::Info
    } else {
        LogLevel::Trace
    }
}

/// Puts a message into the line that is logged for it at its level.
pub fn debugger_response(message: &Message) -> (line: String)
    ensures
        line@ == response_for(*message),
{
    let ty = if message.ty.general {
        "gen"
    } else if message.ty.validation {
        "val"
    } else {
        "per"
    };
    let mut line = String::from_str("[");
    line.append(ty);
    line.append("][");
    match &message.layer_prefix {
        Some(layer) => line.append(layer.as_str()),
        None => line.append("Unknown"),
    }
    line.append("] ");
    line.append(message.description.as_str());
    line
}

/// Puts a message into the line that is printed for it.
pub fn debugger_callback(message: &Message) -> (line: String)
    ensures
        line@ == line_for(*message),
{
    let severity = match log_level(&message.severity) {
        LogLevel::Error => "error",
        LogLevel::Warn => "warn",
        LogLevel::Info => "info",
        LogLevel::Trace => "verb",
    };
    let ty = if message.ty.general {
        "gen"
    } else if message.ty.validation {
        "val"
    } else {
        "per"
    };
    let mut line = String::from_str("[");
    line.append(severity);
    line.append("][");
    line.append(ty);
    line.append("][");
    match &message.layer_prefix {
        Some(layer) => line.append(layer.as_str()),
        None => line.append("Unknown"),
    }
    line.append("] ");
    line.append(message.description.as_str());
    line
}

} // verus!
