//! Which messages the command shows.

use vstd::prelude::*;
use crate::types::LoggerOptions;

verus! {

/// Step and success messages are shown unless `--quiet` or `--json` is set.
pub open spec fn shows_info(o: LoggerOptions) -> bool {
    !o.quiet && !o.json
}

/// Debug messages are shown with `--verbose`, except in `--json` mode.
pub open spec fn shows_debug(o: LoggerOptions) -> bool {
    o.verbose && !o.json
}

/// Decides which messages reach the terminal.
#[derive(Debug, Clone, Copy)]
pub struct Logger {
    options: LoggerOptions,
}

impl Logger {
    /// The settings the logger follows.
    pub closed spec fn settings(&self) -> LoggerOptions {
        self.options
    }

    /// A logger with the given settings.
    pub fn new(options: LoggerOptions) -> (l: Logger)
        ensures
            l.settings() == options,
    {
        Logger { options }
    }

    /// The line to print on standard output for an informational message, if any.
    pub fn info(&self, message: &str) -> (line: Option<String>)
        ensures
            line is Some <==> shows_info(self.settings()),
            line matches Some(l) ==> l@ == message@,
    {
        if !self.options.quiet && !self.options.json {
            Some(message.to_owned())
        } else {
            None
        }
    }

    /// The line to print on standard error for a debug message, if any.
    pub fn debug(&self, message: &str) -> (line: Option<String>)
        ensures
            line is Some <==> shows_debug(self.settings()),
            line matches Some(l) ==> l@ == message@,
    {
        if self.options.verbose && !self.options.json {
            Some(message.to_owned())
        } else {
            None
        }
    }
}

} // verus!
