//! What can go wrong: in the options, in rendering a line, in writing it.

use crate::log::log_type::Sink;
use vstd::prelude::*;

verus! {

/// An option was given a value that it cannot take. The variant says which.
#[derive(Clone, Copy, Debug, PartialEq, Eq, Structural)]
pub enum ConfigError {
    /// The name is not one of a destination.
    LogType,
    /// The directory is not absolute, does not exist, is no directory, or is a
    /// symbolic link.
    DestDir,
    /// The file name is empty.
    LogFileName,
}

/// A set of sinks.
#[derive(Clone, Copy, Debug, PartialEq, Eq, Structural)]
pub struct SinkSet {
    pub file: bool,
    pub console: bool,
}

impl SinkSet {
    pub open spec fn spec_contains(self, sink: Sink) -> bool {
        match sink {
            Sink::File => self.file,
            Sink::Console => self.console,
        }
    }

    pub open spec fn spec_is_empty(self) -> bool {
        !self.file && !self.console
    }

    /// Is `sink` in the set?
    pub fn contains(&self, sink: Sink) -> (r: bool)
        ensures
            r == self.spec_contains(sink),
    {
        match sink {
            Sink::File => self.file,
            Sink::Console => self.console,
        }
    }

    /// Is no sink in the set?
    pub fn is_empty(&self) -> (r: bool)
        ensures
            r == self.spec_is_empty(),
    {
        !self.file && !self.console
    }
}

/// A log call failed.
#[derive(Clone, Copy, Debug, PartialEq, Eq, Structural)]
pub enum LogError {
    /// The time could not be rendered with the logger's pattern.
    Format,
    /// The line could not be written to these sinks. The set is never empty.
    Io(SinkSet),
}

} // verus!
