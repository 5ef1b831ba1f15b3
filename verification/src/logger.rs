//! Debug logging: a verbosity switch and the lines it lets through.
use vstd::prelude::*;
use crate::text::concat2;

verus! {

/// Whether debug output is on. It starts off.
#[derive(Debug, Clone, Copy)]
pub struct Logger {
    verbose: bool,
}

impl Logger {
    /// Whether this logger lets debug lines through.
    pub closed spec fn spec_verbose(self) -> bool {
        self.verbose
    }

    /// A logger with debug output off.
    pub fn new() -> (l: Logger)
        ensures
            !l.spec_verbose(),
    {
        Logger { verbose: false }
    }

    /// Turns debug output on or off; `is_verbose` then answers `verbose`.
    pub fn set_verbose(&mut self, verbose: bool)
        ensures
            final(self).spec_verbose() == verbose,
    {
        self.verbose = verbose;
    }

    /// Whether debug output is on.
    pub fn is_verbose(&self) -> (b: bool)
        ensures
            b == self.spec_verbose(),
    {
        self.verbose
    }

    /// The line to write to standard error for a debug message: `[DEBUG] `
    /// followed by the message when debug output is on; none otherwise.
    pub fn debug_line(&self, message: &str) -> (line: Option<String>)
        ensures
            line is Some <==> self.spec_verbose(),
            line is Some ==> line->0@ == "[DEBUG] "@ + message@,
    {
        if self.verbose {
            Some(concat2("[DEBUG] ", message))
        } else {
            None
        }
    }
}

} // verus!
