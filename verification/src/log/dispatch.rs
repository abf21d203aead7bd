//! What a log call hands to the program around the library: the bytes to
//! write and the sinks to write them to; and what it makes of the outcome.

use crate::log::error::{LogError, SinkSet};
use crate::log::log_type::{LogType, Sink};
use vstd::prelude::*;

verus! {

/// A dispatch as plain values.
pub ghost struct DispatchView {
    pub payload: Seq<u8>,
    pub log_type: LogType,
}

impl DispatchView {
    /// The sinks to write to, in order.
    pub open spec fn sinks(self) -> Seq<Sink> {
        self.log_type.spec_sinks()
    }

    /// The bytes that `sink` receives, if it receives any.
    pub open spec fn delivered(self, sink: Sink) -> Option<Seq<u8>> {
        if self.log_type.spec_uses(sink) {
            Some(self.payload)
        } else {
            None
        }
    }

    /// The sinks that the line did not reach, from what became of each write.
    /// A sink that the dispatch does not name does not count.
    pub open spec fn failed(self, file_written: bool, console_written: bool) -> SinkSet {
        SinkSet {
            file: self.log_type.spec_uses(Sink::File) && !file_written,
            console: self.log_type.spec_uses(Sink::Console) && !console_written,
        }
    }

    /// The result of the log call, from what became of each write.
    pub open spec fn outcome(self, file_written: bool, console_written: bool) -> Result<
        (),
        LogError,
    > {
        let failed = self.failed(file_written, console_written);
        if failed.spec_is_empty() {
            Ok(())
        } else {
            Err(LogError::Io(failed))
        }
    }
}

/// One line on its way to the sinks.
#[derive(Debug)]
pub struct Dispatch {
    payload: Vec<u8>,
    log_type: LogType,
}

impl View for Dispatch {
    type V = DispatchView;

    closed spec fn view(&self) -> DispatchView {
        DispatchView { payload: self.payload@, log_type: self.log_type }
    }
}

impl Dispatch {
    /// A dispatch of `payload` to the sinks of `log_type`.
    pub fn new(payload: Vec<u8>, log_type: LogType) -> (r: Dispatch)
        ensures
            r@ == (DispatchView { payload: payload@, log_type }),
    {
        Dispatch { payload, log_type }
    }

    /// The bytes to write, the same for every sink.
    pub fn payload(&self) -> (r: &Vec<u8>)
        ensures
            r@ == self@.payload,
    {
        &self.payload
    }

    /// The destination that the line goes to.
    pub fn log_type(&self) -> (r: LogType)
        ensures
            r == self@.log_type,
    {
        self.log_type
    }

    /// The sinks to write to, in this order.
    pub fn sinks(&self) -> (r: Vec<Sink>)
        ensures
            r@ == self@.sinks(),
    {
        self.log_type.sinks()
    }

    /// Settles the log call once every sink was written to: it succeeded if
    /// each of its sinks took the bytes, and failed with the sinks that did
    /// not. What is said of a sink that the dispatch does not name is ignored.
    pub fn outcome(&self, file_written: bool, console_written: bool) -> (r: Result<(), LogError>)
        ensures
            r == self@.outcome(file_written, console_written),
    {
        let failed = SinkSet {
            file: self.log_type.uses(Sink::File) && !file_written,
            console: self.log_type.uses(Sink::Console) && !console_written,
        };
        if failed.is_empty() {
            Ok(())
        } else {
            Err(LogError::Io(failed))
        }
    }
}

} // verus!
