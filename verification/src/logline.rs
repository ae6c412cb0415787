//! The log line format: a fixed severity label followed by the message text.
//!
//! The host exposes a single logging entry point; the plugin side only fixes
//! the line it sends, which is the severity's label and the message with
//! nothing else added. Building that line is the whole local logic of
//! logging, so it is what is specified here; handing the line to the host is
//! the boundary layer's business.

use vstd::prelude::*;
use vstd::string::StringExecFns;

verus! {

/// The severity a log line is tagged with.
#[derive(Clone, Copy, PartialEq, Eq, Structural, Debug)]
pub enum Severity {
    Info,
    Warning,
    Error,
    Debug,
}

/// The label that opens a line of the given severity.
pub open spec fn severity_label(s: Severity) -> Seq<char> {
    match s {
        Severity::Info => "info: "@,
        Severity::Warning => "warning: "@,
        Severity::Error => "error: "@,
        Severity::Debug => "debug: "@,
    }
}

/// The full line for a message at a severity: the label, then the message,
/// nothing else.
pub open spec fn log_line(s: Severity, message: Seq<char>) -> Seq<char> {
    severity_label(s) + message
}

/// Builder for the lines handed to the host's logging entry point.
pub struct Log {}

impl Log {
    /// Builds the line for `message` at `severity`.
    pub fn line(severity: Severity, message: &str) -> (r: String)
        ensures
            r@ == log_line(severity, message@),
    {
        let mut s: String = match severity {
            Severity::Info => String::from_str("info: "),
            Severity::Warning => String::from_str("warning: "),
            Severity::Error => String::from_str("error: "),
            Severity::Debug => String::from_str("debug: "),
        };
        s.append(message);
        s
    }

    /// The line for an informational message.
    pub fn info(message: &str) -> (r: String)
        ensures
            r@ == log_line(Severity::Info, message@),
    {
        Log::line(Severity::Info, message)
    }

    /// The line for a warning.
    pub fn warning(message: &str) -> (r: String)
        ensures
            r@ == log_line(Severity::Warning, message@),
    {
        Log::line(Severity::Warning, message)
    }

    /// The line for an error report.
    pub fn error(message: &str) -> (r: String)
        ensures
            r@ == log_line(Severity::Error, message@),
    {
        Log::line(Severity::Error, message)
    }

    /// The line for a debugging message.
    pub fn debug(message: &str) -> (r: String)
        ensures
            r@ == log_line(Severity::Debug, message@),
    {
        Log::line(Severity::Debug, message)
    }
}

} // verus!
