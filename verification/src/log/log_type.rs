//! Where a logger writes, and the names by which a destination is chosen.

use crate::log::text::{ascii_upper, same_text, same_upper};
use vstd::prelude::*;
use vstd::utf8::is_ascii_chars;

verus! {

/// The upper-case form that `str::to_uppercase` gives to a string.
pub uninterp spec fn unicode_upper(s: Seq<char>) -> Seq<char>;

/// `str::to_uppercase` of the standard library: the upper-case form of a string
/// by the rules of Unicode. It depends on the characters alone, so the result
/// has a name; nothing else is claimed of it.
pub assume_specification[ str::to_uppercase ](s: &str) -> (r: String)
    ensures
        r@ == unicode_upper(s@),
;

/// The form of a destination's name by which it is looked up: its upper case.
/// An ASCII name is folded letter by letter; any other goes through
/// [`unicode_upper`].
pub open spec fn upper_key(name: Seq<char>) -> Seq<char> {
    if is_ascii_chars(name) {
        ascii_upper(name)
    } else {
        unicode_upper(name)
    }
}

/// The destination of a logger's lines.
#[derive(Clone, Copy, Debug, PartialEq, Eq, Structural)]
pub enum LogType {
    File,
    Console,
    Both,
}

/// One output that a line can be written to.
#[derive(Clone, Copy, Debug, PartialEq, Eq, Structural)]
pub enum Sink {
    File,
    Console,
}

impl LogType {
    /// The destination that an upper-case name stands for.
    pub open spec fn spec_from_upper(key: Seq<char>) -> Option<LogType> {
        if key == "FILE"@ || key == "FILEONLY"@ {
            Some(LogType::File)
        } else if key == "CONSOLE"@ || key == "CONSOLEONLY"@ {
            Some(LogType::Console)
        } else if key == "BOTH"@ {
            Some(LogType::Both)
        } else {
            None
        }
    }

    /// The destination that a name stands for, whatever the case of its letters.
    pub open spec fn spec_from_name(name: Seq<char>) -> Option<LogType> {
        Self::spec_from_upper(upper_key(name))
    }

    /// Looks up a name that is in upper case already.
    pub fn from_upper(key: &str) -> (r: Option<LogType>)
        ensures
            r == Self::spec_from_upper(key@),
    {
        if same_text(key, "FILE") || same_text(key, "FILEONLY") {
            Some(LogType::File)
        } else if same_text(key, "CONSOLE") || same_text(key, "CONSOLEONLY") {
            Some(LogType::Console)
        } else if same_text(key, "BOTH") {
            Some(LogType::Both)
        } else {
            None
        }
    }

    /// Looks up a name in any case: `file` or `fileonly`, `console` or
    /// `consoleonly`, `both`.
    pub fn from_name(name: &str) -> (r: Option<LogType>)
        ensures
            r == Self::spec_from_name(name@),
    {
        if name.is_ascii() {
            if same_upper(name, "FILE") || same_upper(name, "FILEONLY") {
                Some(LogType::File)
            } else if same_upper(name, "CONSOLE") || same_upper(name, "CONSOLEONLY") {
                Some(LogType::Console)
            } else if same_upper(name, "BOTH") {
                Some(LogType::Both)
            } else {
                None
            }
        } else {
            let upper = name.to_uppercase();
            Self::from_upper(upper.as_str())
        }
    }

    /// The sinks of this destination, in the order in which they are written:
    /// the file before the console.
    pub open spec fn spec_sinks(self) -> Seq<Sink> {
        match self {
            LogType::File => seq![Sink::File],
            LogType::Console => seq![Sink::Console],
            LogType::Both => seq![Sink::File, Sink::Console],
        }
    }

    /// Does this destination write to `sink`?
    pub open spec fn spec_uses(self, sink: Sink) -> bool {
        match sink {
            Sink::File => self != LogType::Console,
            Sink::Console => self != LogType::File,
        }
    }

    /// The sinks to write to, in order.
    pub fn sinks(&self) -> (r: Vec<Sink>)
        ensures
            r@ == self.spec_sinks(),
    {
        let mut out: Vec<Sink> = Vec::new();
        match self {
            LogType::File => {
                out.push(Sink::File);
            },
            LogType::Console => {
                out.push(Sink::Console);
            },
            LogType::Both => {
                out.push(Sink::File);
                out.push(Sink::Console);
            },
        }
        out
    }

    /// Does this destination write to `sink`?
    pub fn uses(&self, sink: Sink) -> (r: bool)
        ensures
            r == self.spec_uses(sink),
    {
        match sink {
            Sink::File => !matches!(self, LogType::Console),
            Sink::Console => !matches!(self, LogType::File),
        }
    }
}

} // verus!
